//! The application state of the to-do list and the operations that mutate it.

use vstd::prelude::*;

verus! {

/// The mathematical value of one to-do item: its label and whether the
/// user has marked it finished.
#[verifier::ext_equal]
pub ghost struct TodoView {
    pub text: Seq<char>,
    pub completed: bool,
}

/// The mathematical value of the whole application state: the text of the
/// pending input field and the ordered list of items (display order,
/// newest last).
#[verifier::ext_equal]
pub ghost struct AppView {
    pub pending: Seq<char>,
    pub items: Seq<TodoView>,
}

/// One to-do item: user-entered text plus a completion flag.
#[derive(Clone, Debug)]
pub struct Todo {
    pub todo_text: String,
    pub completed: bool,
}

impl View for Todo {
    type V = TodoView;

    open spec fn view(&self) -> TodoView {
        TodoView { text: self.todo_text@, completed: self.completed }
    }
}

/// The application state: the pending input field and the ordered items.
#[derive(Clone, Debug)]
pub struct MyApp {
    pub todo_input_text: String,
    pub todos: Vec<Todo>,
}

impl View for MyApp {
    type V = AppView;

    open spec fn view(&self) -> AppView {
        AppView { pending: self.todo_input_text@, items: self.todos@.map_values(|t: Todo| t@) }
    }
}

/// What committing the pending input does to the state: a new unfinished
/// item carrying the pending text is appended, and the pending text is
/// cleared.
pub open spec fn spec_add(s: AppView) -> AppView {
    AppView {
        pending: Seq::empty(),
        items: s.items.push(TodoView { text: s.pending, completed: false }),
    }
}

/// What toggling one item does to the list: the item at `i` has its
/// completion flag flipped; its text and every other item are untouched.
pub open spec fn spec_toggle(items: Seq<TodoView>, i: int) -> Seq<TodoView>
    recommends
        0 <= i < items.len(),
{
    items.update(i, TodoView { text: items[i].text, completed: !items[i].completed })
}

/// The subsequence of items that are not completed, in their original
/// relative order: what a bulk removal of finished items leaves behind.
pub open spec fn spec_unfinished(items: Seq<TodoView>) -> Seq<TodoView>
    decreases items.len(),
{
    if items.len() == 0 {
        items
    } else {
        let rest = spec_unfinished(items.drop_last());
        if items.last().completed {
            rest
        } else {
            rest.push(items.last())
        }
    }
}

impl MyApp {
    /// Commits the pending input as a new unfinished item at the end of the
    /// list and clears the input. Always succeeds; empty text is accepted.
    pub fn add_todo(&mut self)
        ensures
            final(self)@ == spec_add(old(self)@),
            final(self)@.pending == Seq::<char>::empty(),
    {
        let todo = Todo { todo_text: self.todo_input_text.clone(), completed: false };
        self.todos.push(todo);
        self.todo_input_text = String::new();
        proof {
            assert(self@.items =~= spec_add(old(self)@).items);
            assert(self@ =~= spec_add(old(self)@));
        }
    }

    /// Flips the completion flag of the item at `position`; everything
    /// else, the pending input included, is unchanged.
    pub fn toggle(&mut self, position: usize)
        requires
            position < old(self)@.items.len(),
        ensures
            final(self)@.pending == old(self)@.pending,
            final(self)@.items == spec_toggle(old(self)@.items, position as int),
    {
        let item = &mut self.todos[position];
        item.completed = !item.completed;
        proof {
            assert(self@.items =~= spec_toggle(old(self)@.items, position as int));
        }
    }

    /// Removes exactly the item at `position`; every later item shifts one
    /// position earlier, earlier items and the pending input are unchanged.
    pub fn remove(&mut self, position: usize)
        requires
            position < old(self)@.items.len(),
        ensures
            final(self)@.pending == old(self)@.pending,
            final(self)@.items == old(self)@.items.remove(position as int),
            final(self)@.items.len() == old(self)@.items.len() - 1,
            forall|j: int|
                0 <= j < position ==> final(self)@.items[j] == old(self)@.items[j],
            forall|j: int|
                position <= j < final(self)@.items.len() ==> final(self)@.items[j] == old(
                    self,
                )@.items[j + 1],
    {
        self.todos.remove(position);
        proof {
            assert(self@.items =~= old(self)@.items.remove(position as int));
            old(self)@.items.remove_ensures(position as int);
        }
    }

    /// Replaces the list with the subsequence of items whose completion
    /// flag is false, preserving their relative order; the pending input
    /// is unchanged.
    pub fn remove_all_finished(&mut self)
        ensures
            final(self)@.pending == old(self)@.pending,
            final(self)@.items == spec_unfinished(old(self)@.items),
    {
        let mut kept: Vec<Todo> = Vec::new();
        let mut i: usize = 0;
        proof {
            assert(kept@.map_values(|t: Todo| t@) =~= spec_unfinished(
                self@.items.subrange(0, 0),
            ));
        }
        while i < self.todos.len()
            invariant
                i <= self.todos.len(),
                self == old(self),
                kept@.map_values(|t: Todo| t@) == spec_unfinished(
                    self@.items.subrange(0, i as int),
                ),
            decreases self.todos.len() - i,
        {
            let ghost prefix = self@.items.subrange(0, i as int);
            let ghost next = self@.items.subrange(0, i as int + 1);
            proof {
                assert(next.drop_last() =~= prefix);
                assert(next.last() == self@.items[i as int]);
            }
            if !self.todos[i].completed {
                let copy = Todo {
                    todo_text: self.todos[i].todo_text.clone(),
                    completed: self.todos[i].completed,
                };
                kept.push(copy);
            }
            proof {
                assert(kept@.map_values(|t: Todo| t@) =~= spec_unfinished(next));
            }
            i = i + 1;
        }
        proof {
            assert(self@.items.subrange(0, self.todos.len() as int) =~= self@.items);
        }
        self.todos = kept;
    }
}

/// The state a fresh start begins from: no items, empty pending input.
pub open spec fn spec_default() -> AppView {
    AppView { pending: Seq::empty(), items: Seq::empty() }
}

impl Default for MyApp {
    /// The default state: an empty list and an empty pending input.
    fn default() -> (s: Self)
        ensures
            s@ == spec_default(),
    {
        let s = MyApp { todo_input_text: String::new(), todos: Vec::new() };
        proof {
            assert(s@ =~= spec_default());
        }
        s
    }
}

/// Picks the initial state at startup: the snapshot the persistence
/// collaborator decoded, when it offered one, and the default state when
/// the blob was absent or malformed (in which case it offers none).
pub fn restore(loaded: Option<MyApp>) -> (s: MyApp)
    ensures
        match loaded {
            Some(snapshot) => s@ == snapshot@,
            None => s@ == spec_default(),
        },
{
    match loaded {
        Some(snapshot) => snapshot,
        None => MyApp::default(),
    }
}

/// The state after typing each text of `texts` into the pending input in
/// turn and committing it: the fold of `spec_add` over the texts.
pub open spec fn spec_add_texts(s: AppView, texts: Seq<Seq<char>>) -> AppView
    decreases texts.len(),
{
    if texts.len() == 0 {
        s
    } else {
        spec_add_texts(
            spec_add(AppView { pending: texts.first(), items: s.items }),
            texts.drop_first(),
        )
    }
}

/// Committing a sequence of texts appends them as unfinished items, in the
/// exact order submitted, after the items already present; items already
/// present are untouched, and the pending input ends empty as soon as at
/// least one text was committed.
pub proof fn lemma_add_texts(s: AppView, texts: Seq<Seq<char>>)
    ensures
        spec_add_texts(s, texts).items.len() == s.items.len() + texts.len(),
        forall|k: int|
            0 <= k < s.items.len() ==> spec_add_texts(s, texts).items[k] == s.items[k],
        forall|k: int|
            0 <= k < texts.len() ==> spec_add_texts(s, texts).items[s.items.len() + k] == (
            TodoView { text: texts[k], completed: false }),
        texts.len() > 0 ==> spec_add_texts(s, texts).pending == Seq::<char>::empty(),
        texts.len() == 0 ==> spec_add_texts(s, texts).pending == s.pending,
    decreases texts.len(),
{
    if texts.len() > 0 {
        let s1 = spec_add(AppView { pending: texts.first(), items: s.items });
        lemma_add_texts(s1, texts.drop_first());
        assert forall|k: int| 0 <= k < s.items.len() implies spec_add_texts(s, texts).items[k]
            == s.items[k] by {
            assert(spec_add_texts(s1, texts.drop_first()).items[k] == s1.items[k]);
            assert(s1.items[k] == s.items[k]);
        }
        assert forall|k: int| 0 <= k < texts.len() implies spec_add_texts(
            s,
            texts,
        ).items[s.items.len() + k] == (TodoView { text: texts[k], completed: false }) by {
            if k == 0 {
                assert(spec_add_texts(s1, texts.drop_first()).items[s1.items.len() - 1]
                    == s1.items[s1.items.len() - 1]);
            } else {
                assert(texts.drop_first()[k - 1] == texts[k]);
            }
        }
    }
}

/// Starting from the default state, committing `n` texts yields exactly
/// `n` items, in the order submitted, each unfinished, and an empty
/// pending input.
pub proof fn lemma_add_texts_from_default(texts: Seq<Seq<char>>)
    ensures
        spec_add_texts(spec_default(), texts).items.len() == texts.len(),
        forall|k: int|
            0 <= k < texts.len() ==> spec_add_texts(spec_default(), texts).items[k] == (
            TodoView { text: texts[k], completed: false }),
        spec_add_texts(spec_default(), texts).pending == Seq::<char>::empty(),
{
    lemma_add_texts(spec_default(), texts);
}

/// Toggling the same position twice returns the list to its original
/// value.
pub proof fn lemma_toggle_twice(items: Seq<TodoView>, i: int)
    requires
        0 <= i < items.len(),
    ensures
        spec_toggle(spec_toggle(items, i), i) == items,
{
    assert(spec_toggle(spec_toggle(items, i), i) =~= items);
}

/// Removing all finished items is idempotent: doing it twice leaves the
/// same list as doing it once.
pub proof fn lemma_unfinished_idempotent(items: Seq<TodoView>)
    ensures
        spec_unfinished(spec_unfinished(items)) == spec_unfinished(items),
    decreases items.len(),
{
    if items.len() > 0 {
        let rest = spec_unfinished(items.drop_last());
        lemma_unfinished_idempotent(items.drop_last());
        if !items.last().completed {
            assert(rest.push(items.last()).drop_last() =~= rest);
        }
    }
}

/// The surviving items are exactly the items whose completion flag is
/// false, in their original relative order; in particular the surviving
/// length is the count of such items.
pub proof fn lemma_unfinished_is_filter(items: Seq<TodoView>)
    ensures
        spec_unfinished(items) == items.filter(|t: TodoView| !t.completed),
    decreases items.len(),
{
    reveal(Seq::filter);
    if items.len() > 0 {
        lemma_unfinished_is_filter(items.drop_last());
    }
}

} // verus!
