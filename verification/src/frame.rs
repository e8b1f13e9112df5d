//! One frame of the user interface, reduced to its decisions.
//!
//! The window framework renders the widgets and reports which of them the
//! user activated during the frame. Everything the frame then does to the
//! application state is gathered in [`FrameEvents`] and applied by
//! [`MyApp::apply_frame`], in the order the render pass applies it: the
//! completion toggles collected while the list was drawn, then the single
//! deferred removal, then the add action for each of its two triggers, then
//! the bulk removal of finished items.

use vstd::prelude::*;

use crate::state::spec_add;
use crate::state::spec_toggle;
use crate::state::spec_unfinished;
use crate::state::AppView;
use crate::state::MyApp;

verus! {

/// The mathematical value of one frame's collected events.
#[verifier::ext_equal]
pub ghost struct FrameEventsView {
    pub toggles: Seq<usize>,
    pub removal: Option<usize>,
    pub submit_entered: bool,
    pub add_clicked: bool,
    pub remove_all_clicked: bool,
}

/// The user actions one frame collected, each position read off the list
/// as it stood when the frame was drawn.
pub struct FrameEvents {
    /// Positions whose completion control (checkbox or label) was
    /// activated, in the order the render pass saw them.
    pub toggles: Vec<usize>,
    /// The position whose removal control was activated, if any; when
    /// several fire in one frame, the last one drawn wins.
    pub removal: Option<usize>,
    /// The input field lost focus on an Enter press: commit the pending
    /// input.
    pub submit_entered: bool,
    /// The add control was activated: commit the pending input.
    pub add_clicked: bool,
    /// The clear-finished control was activated: drop every completed
    /// item.
    pub remove_all_clicked: bool,
}

impl View for FrameEvents {
    type V = FrameEventsView;

    open spec fn view(&self) -> FrameEventsView {
        FrameEventsView {
            toggles: self.toggles@,
            removal: self.removal,
            submit_entered: self.submit_entered,
            add_clicked: self.add_clicked,
            remove_all_clicked: self.remove_all_clicked,
        }
    }
}

impl FrameEvents {
    /// A frame in which the user did nothing.
    pub fn none() -> (ev: Self)
        ensures
            ev@.toggles == Seq::<usize>::empty(),
            ev@.removal is None,
            !ev@.submit_entered,
            !ev@.add_clicked,
            !ev@.remove_all_clicked,
    {
        FrameEvents {
            toggles: Vec::new(),
            removal: None,
            submit_entered: false,
            add_clicked: false,
            remove_all_clicked: false,
        }
    }
}

/// The list after every collected toggle has been applied, in order.
pub open spec fn spec_toggles(items: Seq<crate::state::TodoView>, toggles: Seq<usize>) -> Seq<
    crate::state::TodoView,
>
    decreases toggles.len(),
{
    if toggles.len() == 0 {
        items
    } else {
        spec_toggle(spec_toggles(items, toggles.drop_last()), toggles.last() as int)
    }
}

/// Every position a frame's events refer to is a valid index of the list
/// the frame was drawn from.
pub open spec fn frame_events_valid(ev: FrameEventsView, len: nat) -> bool {
    &&& forall|k: int| 0 <= k < ev.toggles.len() ==> (#[trigger] ev.toggles[k]) < len
    &&& match ev.removal {
        Some(i) => i < len,
        None => true,
    }
}

/// The state after one frame's events: toggles first, then the deferred
/// removal, then an add for each of its two triggers, then the bulk
/// removal of finished items.
pub open spec fn spec_apply_frame(s: AppView, ev: FrameEventsView) -> AppView {
    let toggled = AppView { pending: s.pending, items: spec_toggles(s.items, ev.toggles) };
    let removed = match ev.removal {
        Some(i) => AppView { pending: toggled.pending, items: toggled.items.remove(i as int) },
        None => toggled,
    };
    let submitted = if ev.submit_entered {
        spec_add(removed)
    } else {
        removed
    };
    let added = if ev.add_clicked {
        spec_add(submitted)
    } else {
        submitted
    };
    if ev.remove_all_clicked {
        AppView { pending: added.pending, items: spec_unfinished(added.items) }
    } else {
        added
    }
}

impl MyApp {
    /// Applies one frame's collected events to the state, in the order the
    /// render pass applies them.
    pub fn apply_frame(&mut self, ev: &FrameEvents)
        requires
            frame_events_valid(ev@, old(self)@.items.len()),
        ensures
            final(self)@ == spec_apply_frame(old(self)@, ev@),
    {
        let ghost items0 = self@.items;
        let mut k: usize = 0;
        while k < ev.toggles.len()
            invariant
                k <= ev.toggles.len(),
                frame_events_valid(ev@, items0.len()),
                items0 == old(self)@.items,
                self@.items.len() == items0.len(),
                self@.pending == old(self)@.pending,
                self@.items == spec_toggles(items0, ev@.toggles.subrange(0, k as int)),
            decreases ev.toggles.len() - k,
        {
            let ghost done = ev@.toggles.subrange(0, k as int);
            let ghost next = ev@.toggles.subrange(0, k as int + 1);
            proof {
                assert(next.drop_last() =~= done);
                assert(next.last() == ev@.toggles[k as int]);
            }
            self.toggle(ev.toggles[k]);
            k = k + 1;
        }
        proof {
            assert(ev@.toggles.subrange(0, ev@.toggles.len() as int) =~= ev@.toggles);
        }
        if let Some(position) = ev.removal {
            self.remove(position);
        }
        if ev.submit_entered {
            self.add_todo();
        }
        if ev.add_clicked {
            self.add_todo();
        }
        if ev.remove_all_clicked {
            self.remove_all_finished();
        }
        proof {
            assert(self@ =~= spec_apply_frame(old(self)@, ev@));
        }
    }
}

} // verus!
