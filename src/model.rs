use vstd::prelude::*;

use crate::outside::{fresh_id, trim, trimmed};

verus! {

/// Which tasks the list shows.
#[derive(Clone, Copy, PartialEq, Eq, Structural, Debug)]
pub enum Filter {
    All,
    Active,
    Completed,
}

/// One task of the list.
#[derive(Debug)]
pub struct Todo {
    pub id: u128,
    pub title: String,
    pub completed: bool,
}

/// The task being renamed, with the title typed so far.
#[derive(Debug)]
pub struct SelectedTodo {
    pub id: u128,
    pub title: String,
}

/// The events that change the state.
pub enum Msg {
    NewTodoTitleChanged(String),
    CreateTodo,
    ToggleTodo(u128),
    RemoveTodo(u128),
    CheckOrUncheckAll,
    ClearCompleted,
    SelectTodo(Option<u128>),
    SelectedTodoTitleChanged(String),
    SaveSelectedTodo,
    FilterChanged(Filter),
}

/// The whole state: the tasks in the order they were created, the draft of
/// the next task, the rename session if any, and the filter.
pub struct Model {
    pub todos: Vec<Todo>,
    pub new_todo_title: String,
    pub selected_todo: Option<SelectedTodo>,
    pub filter: Filter,
}

// ------ the model in logic ------

pub open spec fn has_id(s: Seq<Todo>, id: u128) -> bool {
    exists|i: int| 0 <= i < s.len() && s[i].id == id
}

pub open spec fn ids_unique(s: Seq<Todo>) -> bool {
    forall|i: int, j: int|
        0 <= i < s.len() && 0 <= j < s.len() && i != j ==> s[i].id != s[j].id
}

/// The title of the task with identifier `id` (meaningful when there is one).
pub open spec fn title_of(s: Seq<Todo>, id: u128) -> Seq<char> {
    let i = choose|i: int| 0 <= i < s.len() && s[i].id == id;
    s[i].title@
}

pub open spec fn with_completed(t: Todo, c: bool) -> Todo {
    Todo { id: t.id, title: t.title, completed: c }
}

/// The tasks with the flag of the task `id` negated.
pub open spec fn toggled(s: Seq<Todo>, id: u128) -> Seq<Todo> {
    s.map_values(|t: Todo| if t.id == id { with_completed(t, !t.completed) } else { t })
}

/// The tasks with every flag set to `c`.
pub open spec fn all_set(s: Seq<Todo>, c: bool) -> Seq<Todo> {
    s.map_values(|t: Todo| with_completed(t, c))
}

pub open spec fn every_completed(s: Seq<Todo>) -> bool {
    forall|i: int| 0 <= i < s.len() ==> s[i].completed
}

pub open spec fn other_than(id: u128) -> spec_fn(Todo) -> bool {
    |t: Todo| t.id != id
}

pub open spec fn is_active() -> spec_fn(Todo) -> bool {
    |t: Todo| !t.completed
}

pub open spec fn is_done() -> spec_fn(Todo) -> bool {
    |t: Todo| t.completed
}

/// Whether filter `f` shows a task.
pub open spec fn shows(f: Filter) -> spec_fn(Todo) -> bool {
    |t: Todo|
        match f {
            Filter::All => true,
            Filter::Active => !t.completed,
            Filter::Completed => t.completed,
        }
}

pub open spec fn active_count_of(s: Seq<Todo>) -> nat {
    s.filter(is_active()).len()
}

pub open spec fn completed_count_of(s: Seq<Todo>) -> nat {
    s.filter(is_done()).len()
}

/// `post` is `pre` with one more task at the end: `id`, `title`, not completed.
pub open spec fn appended(pre: Seq<Todo>, post: Seq<Todo>, id: u128, title: Seq<char>) -> bool {
    &&& post.len() == pre.len() + 1
    &&& post.drop_last() == pre
    &&& post.last().id == id
    &&& post.last().title@ == title
    &&& !post.last().completed
}

/// `post` is `pre` with the title of task `id` replaced by `title`.
pub open spec fn retitled(pre: Seq<Todo>, post: Seq<Todo>, id: u128, title: Seq<char>) -> bool {
    &&& post.len() == pre.len()
    &&& forall|i: int|
        0 <= i < pre.len() ==> {
            &&& post[i].id == pre[i].id
            &&& post[i].completed == pre[i].completed
            &&& if pre[i].id == id {
                post[i].title@ == title
            } else {
                post[i] == pre[i]
            }
        }
}

/// The rename session kept only while its task is still in `todos`.
pub open spec fn selection_kept(sel: Option<SelectedTodo>, todos: Seq<Todo>) -> Option<SelectedTodo> {
    match sel {
        Some(s) => if has_id(todos, s.id) {
            Some(s)
        } else {
            None
        },
        None => None,
    }
}

impl Model {
    /// Identifiers are unique and a rename session names a live task.
    pub open spec fn wf(&self) -> bool {
        &&& ids_unique(self.todos@)
        &&& match self.selected_todo {
            Some(s) => has_id(self.todos@, s.id),
            None => true,
        }
    }

    /// The draft, the rename session and the filter are those of `pre`.
    pub open spec fn rest_same(self, pre: Model) -> bool {
        &&& self.new_todo_title == pre.new_todo_title
        &&& self.selected_todo == pre.selected_todo
        &&& self.filter == pre.filter
    }

    pub open spec fn same(self, pre: Model) -> bool {
        self.todos@ == pre.todos@ && self.rest_same(pre)
    }

    pub open spec fn draft_step(pre: Model, post: Model, text: Seq<char>) -> bool {
        &&& post.todos@ == pre.todos@
        &&& post.new_todo_title@ == text
        &&& post.selected_todo == pre.selected_todo
        &&& post.filter == pre.filter
    }

    /// Creation under identifier `id`: nothing happens when the trimmed draft is
    /// empty or `id` is taken; otherwise the task is appended and the draft emptied.
    pub open spec fn create_step(pre: Model, post: Model, id: u128) -> bool {
        if trimmed(pre.new_todo_title@).len() == 0 || has_id(pre.todos@, id) {
            post.same(pre)
        } else {
            &&& appended(pre.todos@, post.todos@, id, trimmed(pre.new_todo_title@))
            &&& post.new_todo_title@.len() == 0
            &&& post.selected_todo == pre.selected_todo
            &&& post.filter == pre.filter
        }
    }

    pub open spec fn toggle_step(pre: Model, post: Model, id: u128) -> bool {
        post.todos@ == toggled(pre.todos@, id) && post.rest_same(pre)
    }
}

impl Model {
    fn position(&self, id: u128) -> (r: Option<usize>)
        ensures
            match r {
                Some(i) => i < self.todos@.len() && self.todos@[i as int].id == id,
                None => !has_id(self.todos@, id),
            },
    {
        let mut i: usize = 0;
        while i < self.todos.len()
            invariant
                i <= self.todos@.len(),
                forall|j: int| 0 <= j < i ==> self.todos@[j].id != id,
            decreases self.todos@.len() - i,
        {
            if self.todos[i].id == id {
                return Some(i);
            }
            i += 1;
        }
        None
    }

    /// Replaces the draft.
    pub fn set_new_todo_title(&mut self, title: String)
        requires
            old(self).wf(),
        ensures
            final(self).wf(),
            Model::draft_step(*old(self), *final(self), title@),
    {
        self.new_todo_title = title;
    }

    /// Creates a task from the trimmed draft under identifier `id`.
    pub fn create_todo_with_id(&mut self, id: u128)
        requires
            old(self).wf(),
        ensures
            final(self).wf(),
            Model::create_step(*old(self), *final(self), id),
    {
        let title = trim(&self.new_todo_title);
        if title.as_str().is_empty() {
            return;
        }
        if self.position(id).is_some() {
            return;
        }
        let ghost pre = self.todos@;
        self.todos.push(Todo { id, title, completed: false });
        self.new_todo_title = String::new();
        proof {
            assert(self.todos@.drop_last() =~= pre);
            assert forall|i: int, j: int|
                0 <= i < self.todos@.len() && 0 <= j < self.todos@.len() && i != j
                implies self.todos@[i].id != self.todos@[j].id by {
                if i < pre.len() && j < pre.len() {
                    assert(pre[i].id != pre[j].id);
                } else if i < pre.len() {
                    assert(pre[i].id != id);
                } else {
                    assert(pre[j].id != id);
                }
            }
            if let Some(s) = &self.selected_todo {
                let k = choose|k: int| 0 <= k < pre.len() && pre[k].id == s.id;
                assert(self.todos@[k].id == s.id);
            }
        }
    }

    /// Creates a task from the trimmed draft under a fresh identifier, and
    /// returns the identifier that was drawn.
    pub fn create_todo(&mut self) -> (id: u128)
        requires
            old(self).wf(),
        ensures
            final(self).wf(),
            Model::create_step(*old(self), *final(self), id),
    {
        let id = fresh_id();
        self.create_todo_with_id(id);
        id
    }

    /// Negates the flag of task `id`, if there is one.
    pub fn toggle_todo(&mut self, id: u128)
        requires
            old(self).wf(),
        ensures
            final(self).wf(),
            Model::toggle_step(*old(self), *final(self), id),
    {
        let ghost pre = self.todos@;
        match self.position(id) {
            Some(i) => {
                let c = self.todos[i].completed;
                self.todos[i].completed = !c;
                proof {
                    assert forall|j: int| 0 <= j < pre.len() implies self.todos@[j] == (
                    if pre[j].id == id {
                        with_completed(pre[j], !pre[j].completed)
                    } else {
                        pre[j]
                    }) by {
                        if j != i {
                            assert(pre[j].id != pre[i as int].id);
                        }
                    }
                    assert(self.todos@ =~= toggled(pre, id));
                    if let Some(s) = &self.selected_todo {
                        let k = choose|k: int| 0 <= k < pre.len() && pre[k].id == s.id;
                        assert(self.todos@[k].id == s.id);
                    }
                }
            },
            None => {
                proof {
                    assert(self.todos@ =~= toggled(pre, id));
                }
            },
        }
    }
}


/// Which tasks a pass over the list keeps.
#[derive(Clone, Copy)]
enum Keep {
    Other(u128),
    Active,
    Done,
    Shown(Filter),
}

spec fn keep_pred(k: Keep) -> spec_fn(Todo) -> bool {
    match k {
        Keep::Other(id) => other_than(id),
        Keep::Active => is_active(),
        Keep::Done => is_done(),
        Keep::Shown(f) => shows(f),
    }
}

fn keeps(k: Keep, t: &Todo) -> (r: bool)
    ensures
        r == keep_pred(k)(*t),
{
    match k {
        Keep::Other(id) => t.id != id,
        Keep::Active => !t.completed,
        Keep::Done => t.completed,
        Keep::Shown(f) => match f {
            Filter::All => true,
            Filter::Active => !t.completed,
            Filter::Completed => t.completed,
        },
    }
}

fn copy_todo(t: &Todo) -> (r: Todo)
    ensures
        r == *t,
{
    Todo { id: t.id, title: t.title.clone(), completed: t.completed }
}

/// The tasks of `src` that `k` keeps, in their order.
fn retained(src: &Vec<Todo>, k: Keep) -> (r: Vec<Todo>)
    ensures
        r@ == src@.filter(keep_pred(k)),
        ids_unique(src@) ==> ids_unique(r@),
{
    let mut r: Vec<Todo> = Vec::new();
    let mut i: usize = 0;
    while i < src.len()
        invariant
            i <= src@.len(),
            r@ == src@.take(i as int).filter(keep_pred(k)),
            forall|a: int| 0 <= a < r@.len() ==> exists|b: int| 0 <= b < i && #[trigger] r@[a].id == src@[b].id,
            ids_unique(src@) ==> ids_unique(r@),
        decreases src@.len() - i,
    {
        let ghost before = r@;
        if keeps(k, &src[i]) {
            r.push(copy_todo(&src[i]));
            proof {
                if ids_unique(src@) {
                    assert forall|a: int| 0 <= a < before.len() implies before[a].id != src@[i as int].id by {
                        let b = choose|b: int| 0 <= b < i && before[a].id == src@[b].id;
                        assert(src@[b].id != src@[i as int].id);
                    }
                }
            }
        }
        proof {
            assert(src@.take(i + 1) =~= src@.take(i as int).push(src@[i as int]));
            src@.take(i as int).lemma_filter_push(src@[i as int], keep_pred(k));
        }
        i += 1;
    }
    proof {
        assert(src@.take(src@.len() as int) =~= src@);
    }
    r
}

/// How many tasks of `src` `k` keeps.
fn count_kept(src: &Vec<Todo>, k: Keep) -> (r: usize)
    ensures
        r == src@.filter(keep_pred(k)).len(),
{
    let mut n: usize = 0;
    let mut i: usize = 0;
    while i < src.len()
        invariant
            i <= src@.len(),
            n <= i,
            n == src@.take(i as int).filter(keep_pred(k)).len(),
        decreases src@.len() - i,
    {
        if keeps(k, &src[i]) {
            n += 1;
        }
        proof {
            assert(src@.take(i + 1) =~= src@.take(i as int).push(src@[i as int]));
            src@.take(i as int).lemma_filter_push(src@[i as int], keep_pred(k));
        }
        i += 1;
    }
    proof {
        assert(src@.take(src@.len() as int) =~= src@);
    }
    n
}

impl Model {
    pub open spec fn remove_step(pre: Model, post: Model, id: u128) -> bool {
        &&& post.todos@ == pre.todos@.filter(other_than(id))
        &&& post.new_todo_title == pre.new_todo_title
        &&& post.selected_todo == selection_kept(pre.selected_todo, post.todos@)
        &&& post.filter == pre.filter
    }

    pub open spec fn toggle_all_step(pre: Model, post: Model) -> bool {
        post.todos@ == all_set(pre.todos@, !every_completed(pre.todos@)) && post.rest_same(pre)
    }

    pub open spec fn clear_completed_step(pre: Model, post: Model) -> bool {
        &&& post.todos@ == pre.todos@.filter(is_active())
        &&& post.new_todo_title == pre.new_todo_title
        &&& post.selected_todo == selection_kept(pre.selected_todo, post.todos@)
        &&& post.filter == pre.filter
    }

    /// Keeps the rename session only if its task is still there.
    fn drop_stale_selection(&mut self)
        requires
            ids_unique(old(self).todos@),
        ensures
            final(self).wf(),
            final(self).todos == old(self).todos,
            final(self).new_todo_title == old(self).new_todo_title,
            final(self).filter == old(self).filter,
            final(self).selected_todo == selection_kept(old(self).selected_todo, old(self).todos@),
    {
        let stale = match &self.selected_todo {
            Some(s) => self.position(s.id).is_none(),
            None => false,
        };
        if stale {
            self.selected_todo = None;
        }
    }

    /// Removes task `id`, and the rename session if it was on that task.
    pub fn remove_todo(&mut self, id: u128)
        requires
            old(self).wf(),
        ensures
            final(self).wf(),
            Model::remove_step(*old(self), *final(self), id),
    {
        self.todos = retained(&self.todos, Keep::Other(id));
        self.drop_stale_selection();
    }

    /// Removes every completed task.
    pub fn clear_completed(&mut self)
        requires
            old(self).wf(),
        ensures
            final(self).wf(),
            Model::clear_completed_step(*old(self), *final(self)),
    {
        self.todos = retained(&self.todos, Keep::Active);
        self.drop_stale_selection();
    }

    /// Whether every task is completed (true of an empty list).
    pub fn all_completed(&self) -> (r: bool)
        ensures
            r == every_completed(self.todos@),
    {
        let mut i: usize = 0;
        while i < self.todos.len()
            invariant
                i <= self.todos@.len(),
                forall|j: int| 0 <= j < i ==> self.todos@[j].completed,
            decreases self.todos@.len() - i,
        {
            if !self.todos[i].completed {
                return false;
            }
            i += 1;
        }
        true
    }

    /// Completes every task, or reopens every task when all are completed.
    pub fn check_or_uncheck_all(&mut self)
        requires
            old(self).wf(),
        ensures
            final(self).wf(),
            Model::toggle_all_step(*old(self), *final(self)),
    {
        let c = !self.all_completed();
        let ghost pre = self.todos@;
        let mut i: usize = 0;
        while i < self.todos.len()
            invariant
                self.todos@.len() == pre.len(),
                i <= pre.len(),
                forall|j: int| 0 <= j < i ==> self.todos@[j] == with_completed(pre[j], c),
                forall|j: int| i <= j < pre.len() ==> self.todos@[j] == pre[j],
                self.selected_todo == old(self).selected_todo,
                self.new_todo_title == old(self).new_todo_title,
                self.filter == old(self).filter,
            decreases pre.len() - i,
        {
            self.todos[i].completed = c;
            i += 1;
        }
        proof {
            assert(self.todos@ =~= all_set(pre, c));
            assert forall|a: int, b: int|
                0 <= a < pre.len() && 0 <= b < pre.len() && a != b
                implies self.todos@[a].id != self.todos@[b].id by {
                assert(pre[a].id != pre[b].id);
            }
            if let Some(s) = &self.selected_todo {
                let k = choose|k: int| 0 <= k < pre.len() && pre[k].id == s.id;
                assert(self.todos@[k].id == s.id);
            }
        }
    }

    /// The number of tasks not completed.
    pub fn active_count(&self) -> (r: usize)
        ensures
            r == active_count_of(self.todos@),
    {
        count_kept(&self.todos, Keep::Active)
    }

    /// The number of completed tasks.
    pub fn completed_count(&self) -> (r: usize)
        ensures
            r == completed_count_of(self.todos@),
    {
        count_kept(&self.todos, Keep::Done)
    }

    /// The tasks that the current filter shows, in list order.
    pub fn visible_todos(&self) -> (r: Vec<Todo>)
        ensures
            r@ == self.todos@.filter(shows(self.filter)),
    {
        retained(&self.todos, Keep::Shown(self.filter))
    }
}

impl Model {
    pub open spec fn select_step(pre: Model, post: Model, id: Option<u128>) -> bool {
        &&& post.todos@ == pre.todos@
        &&& post.new_todo_title == pre.new_todo_title
        &&& post.filter == pre.filter
        &&& match id {
            Some(id) => if has_id(pre.todos@, id) {
                &&& post.selected_todo is Some
                &&& post.selected_todo->Some_0.id == id
                &&& post.selected_todo->Some_0.title@ == title_of(pre.todos@, id)
            } else {
                post.selected_todo is None
            },
            None => post.selected_todo is None,
        }
    }

    pub open spec fn selected_title_step(pre: Model, post: Model, text: Seq<char>) -> bool {
        &&& post.todos@ == pre.todos@
        &&& post.new_todo_title == pre.new_todo_title
        &&& post.filter == pre.filter
        &&& match pre.selected_todo {
            Some(s) => {
                &&& post.selected_todo is Some
                &&& post.selected_todo->Some_0.id == s.id
                &&& post.selected_todo->Some_0.title@ == text
            },
            None => post.selected_todo is None,
        }
    }

    /// Saving a rename: a non-empty trimmed title replaces the task's title, an
    /// empty one removes the task; the session ends either way.
    pub open spec fn save_step(pre: Model, post: Model) -> bool {
        match pre.selected_todo {
            Some(s) => {
                &&& post.selected_todo is None
                &&& post.new_todo_title == pre.new_todo_title
                &&& post.filter == pre.filter
                &&& if trimmed(s.title@).len() > 0 {
                    retitled(pre.todos@, post.todos@, s.id, trimmed(s.title@))
                } else {
                    post.todos@ == pre.todos@.filter(other_than(s.id))
                }
            },
            None => post.same(pre),
        }
    }

    pub open spec fn filter_step(pre: Model, post: Model, f: Filter) -> bool {
        &&& post.todos@ == pre.todos@
        &&& post.new_todo_title == pre.new_todo_title
        &&& post.selected_todo == pre.selected_todo
        &&& post.filter == f
    }

    /// What one event does to the state; creation draws some identifier.
    pub open spec fn update_step(pre: Model, post: Model, msg: Msg) -> bool {
        match msg {
            Msg::NewTodoTitleChanged(t) => Model::draft_step(pre, post, t@),
            Msg::CreateTodo => exists|id: u128| Model::create_step(pre, post, id),
            Msg::ToggleTodo(id) => Model::toggle_step(pre, post, id),
            Msg::RemoveTodo(id) => Model::remove_step(pre, post, id),
            Msg::CheckOrUncheckAll => Model::toggle_all_step(pre, post),
            Msg::ClearCompleted => Model::clear_completed_step(pre, post),
            Msg::SelectTodo(id) => Model::select_step(pre, post, id),
            Msg::SelectedTodoTitleChanged(t) => Model::selected_title_step(pre, post, t@),
            Msg::SaveSelectedTodo => Model::save_step(pre, post),
            Msg::FilterChanged(f) => Model::filter_step(pre, post, f),
        }
    }

    /// Opens a rename session on task `id` with its current title, or closes
    /// the session when `id` is `None` or names no task.
    pub fn select_todo(&mut self, id: Option<u128>)
        requires
            old(self).wf(),
        ensures
            final(self).wf(),
            Model::select_step(*old(self), *final(self), id),
    {
        match id {
            Some(id) => match self.position(id) {
                Some(i) => {
                    let title = self.todos[i].title.clone();
                    self.selected_todo = Some(SelectedTodo { id, title });
                    proof {
                        let k = choose|k: int| 0 <= k < self.todos@.len() && self.todos@[k].id == id;
                        if k != i {
                            assert(self.todos@[k].id != self.todos@[i as int].id);
                        }
                    }
                },
                None => {
                    self.selected_todo = None;
                },
            },
            None => {
                self.selected_todo = None;
            },
        }
    }

    /// Replaces the title typed in the rename session, if there is one.
    pub fn set_selected_todo_title(&mut self, title: String)
        requires
            old(self).wf(),
        ensures
            final(self).wf(),
            Model::selected_title_step(*old(self), *final(self), title@),
    {
        let id = match &self.selected_todo {
            Some(s) => s.id,
            None => {
                return;
            },
        };
        self.selected_todo = Some(SelectedTodo { id, title });
    }

    /// Ends the rename session, applying its trimmed title to the task or
    /// removing the task when that title is empty.
    pub fn save_selected_todo(&mut self)
        requires
            old(self).wf(),
        ensures
            final(self).wf(),
            Model::save_step(*old(self), *final(self)),
    {
        let (id, title) = match &self.selected_todo {
            Some(s) => (s.id, trim(&s.title)),
            None => {
                return;
            },
        };
        let ghost pre = self.todos@;
        self.selected_todo = None;
        if title.as_str().is_empty() {
            self.todos = retained(&self.todos, Keep::Other(id));
        } else {
            match self.position(id) {
                Some(i) => {
                    self.todos[i].title = title;
                    proof {
                        assert forall|j: int| 0 <= j < pre.len() && j != i implies pre[j].id != id by {
                            assert(pre[j].id != pre[i as int].id);
                        }
                        assert forall|a: int, b: int|
                            0 <= a < pre.len() && 0 <= b < pre.len() && a != b
                            implies self.todos@[a].id != self.todos@[b].id by {
                            assert(pre[a].id != pre[b].id);
                        }
                    }
                },
                None => {},
            }
        }
    }

    /// Sets the filter.
    pub fn set_filter(&mut self, filter: Filter)
        requires
            old(self).wf(),
        ensures
            final(self).wf(),
            Model::filter_step(*old(self), *final(self), filter),
    {
        self.filter = filter;
    }

    /// Adds two demonstration tasks, the second completed, a draft, and a
    /// rename session on the second task.
    pub fn add_mock_data(self, id_a: u128, id_b: u128) -> (r: Model)
        requires
            self.wf(),
            id_a != id_b,
            !has_id(self.todos@, id_a),
            !has_id(self.todos@, id_b),
        ensures
            r.wf(),
            r.todos@.len() == self.todos@.len() + 2,
            r.todos@.take(self.todos@.len() as int) == self.todos@,
            r.todos@[self.todos@.len() as int].id == id_a,
            r.todos@[self.todos@.len() as int].title@ == "I'm a todo"@,
            !r.todos@[self.todos@.len() as int].completed,
            r.todos@.last().id == id_b,
            r.todos@.last().title@ == "I'm b todo"@,
            r.todos@.last().completed,
            r.new_todo_title@ == "I'm a new todo title"@,
            r.selected_todo is Some,
            r.selected_todo->Some_0.id == id_b,
            r.selected_todo->Some_0.title@ == "I'm a better B todo"@,
            r.filter == self.filter,
    {
        let mut m = self;
        let ghost pre = m.todos@;
        m.todos.push(Todo { id: id_a, title: "I'm a todo".to_string(), completed: false });
        m.todos.push(Todo { id: id_b, title: "I'm b todo".to_string(), completed: true });
        m.new_todo_title = "I'm a new todo title".to_string();
        m.selected_todo = Some(SelectedTodo { id: id_b, title: "I'm a better B todo".to_string() });
        proof {
            let n = pre.len() as int;
            assert(m.todos@.take(n) =~= pre);
            assert(m.todos@[n + 1].id == id_b);
            assert forall|a: int, b: int|
                0 <= a < m.todos@.len() && 0 <= b < m.todos@.len() && a != b
                implies m.todos@[a].id != m.todos@[b].id by {
                if a < n && b < n {
                    assert(pre[a].id != pre[b].id);
                } else if a < n {
                    assert(pre[a].id != id_a && pre[a].id != id_b);
                } else if b < n {
                    assert(pre[b].id != id_a && pre[b].id != id_b);
                }
            }
        }
        m
    }
}

/// The state at start: no task, an empty draft, no rename session, all shown.
pub fn init() -> (r: Model)
    ensures
        r.wf(),
        r.todos@.len() == 0,
        r.new_todo_title@.len() == 0,
        r.selected_todo is None,
        r.filter == Filter::All,
{
    Model { todos: Vec::new(), new_todo_title: String::new(), selected_todo: None, filter: Filter::All }
}

/// Applies one event to the state.
pub fn update(msg: Msg, model: &mut Model)
    requires
        old(model).wf(),
    ensures
        final(model).wf(),
        Model::update_step(*old(model), *final(model), msg),
{
    match msg {
        Msg::NewTodoTitleChanged(title) => model.set_new_todo_title(title),
        Msg::CreateTodo => {
            model.create_todo();
        },
        Msg::ToggleTodo(id) => model.toggle_todo(id),
        Msg::RemoveTodo(id) => model.remove_todo(id),
        Msg::CheckOrUncheckAll => model.check_or_uncheck_all(),
        Msg::ClearCompleted => model.clear_completed(),
        Msg::SelectTodo(id) => model.select_todo(id),
        Msg::SelectedTodoTitleChanged(title) => model.set_selected_todo_title(title),
        Msg::SaveSelectedTodo => model.save_selected_todo(),
        Msg::FilterChanged(filter) => model.set_filter(filter),
    }
}

} // verus!
