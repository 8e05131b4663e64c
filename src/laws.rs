//! Properties that relate several events.

use vstd::prelude::*;

use crate::model::{
    active_count_of, all_set, completed_count_of, every_completed, is_active, is_done,
    selection_kept, toggled, Model,
};
use crate::outside::trimmed;

verus! {

/// A filter whose predicate holds of every element keeps the sequence whole.
proof fn lemma_filter_keeps_all<A>(s: Seq<A>, p: spec_fn(A) -> bool)
    requires
        forall|i: int| 0 <= i < s.len() ==> p(s[i]),
    ensures
        s.filter(p) == s,
    decreases s.len(),
{
    reveal(Seq::filter);
    if s.len() > 0 {
        lemma_filter_keeps_all(s.drop_last(), p);
        assert(s.drop_last().push(s.last()) =~= s);
    }
}

/// A filter whose predicate holds of no element leaves nothing.
proof fn lemma_filter_keeps_none<A>(s: Seq<A>, p: spec_fn(A) -> bool)
    requires
        forall|i: int| 0 <= i < s.len() ==> !p(s[i]),
    ensures
        s.filter(p).len() == 0,
    decreases s.len(),
{
    reveal(Seq::filter);
    if s.len() > 0 {
        lemma_filter_keeps_none(s.drop_last(), p);
    }
}

/// Filtering twice by the same predicate is filtering once.
proof fn lemma_filter_twice<A>(s: Seq<A>, p: spec_fn(A) -> bool)
    ensures
        s.filter(p).filter(p) == s.filter(p),
{
    broadcast use vstd::seq_lib::group_filter_ensures;

    let f = s.filter(p);
    assert forall|i: int| 0 <= i < f.len() implies p(f[i]) by {
        s.lemma_filter_pred(p, i);
    }
    lemma_filter_keeps_all(f, p);
}

/// Typing a text whose trimmed form is not empty, then creating a task under
/// an identifier not in use, adds exactly one task at the end: open, titled
/// with the trimmed text. The draft is then empty.
pub proof fn create_after_draft(m0: Model, m1: Model, m2: Model, t: Seq<char>, id: u128)
    requires
        m0.wf(),
        Model::draft_step(m0, m1, t),
        Model::create_step(m1, m2, id),
        trimmed(t).len() > 0,
        !crate::model::has_id(m0.todos@, id),
    ensures
        m2.todos@.len() == m0.todos@.len() + 1,
        m2.todos@.drop_last() == m0.todos@,
        m2.todos@.last().id == id,
        m2.todos@.last().title@ == trimmed(t),
        !m2.todos@.last().completed,
        m2.new_todo_title@.len() == 0,
{
}

/// Creating a task from a draft that trims to nothing changes neither the
/// tasks nor the draft.
pub proof fn create_from_blank_draft(m0: Model, m1: Model)
    requires
        Model::update_step(m0, m1, crate::model::Msg::CreateTodo),
        trimmed(m0.new_todo_title@).len() == 0,
    ensures
        m1.todos@ == m0.todos@,
        m1.new_todo_title == m0.new_todo_title,
{
}

/// Toggling the same task twice gives back the tasks as they were.
pub proof fn toggle_twice(m0: Model, m1: Model, m2: Model, id: u128)
    requires
        Model::toggle_step(m0, m1, id),
        Model::toggle_step(m1, m2, id),
    ensures
        m2.todos@ == m0.todos@,
        m2.rest_same(m0),
{
    assert(toggled(toggled(m0.todos@, id), id) =~= m0.todos@);
}

/// Removing the same task twice leaves the state that removing it once gave.
pub proof fn remove_twice(m0: Model, m1: Model, m2: Model, id: u128)
    requires
        Model::remove_step(m0, m1, id),
        Model::remove_step(m1, m2, id),
    ensures
        m2.todos@ == m1.todos@,
        m2.new_todo_title == m1.new_todo_title,
        m2.selected_todo == m1.selected_todo,
        m2.filter == m1.filter,
{
    lemma_filter_twice(m0.todos@, crate::model::other_than(id));
}

/// The first check-or-uncheck-all sets every flag to "not all were completed";
/// the second sets every flag back to "all were completed" at the start.
pub proof fn toggle_all_twice(m0: Model, m1: Model, m2: Model)
    requires
        Model::toggle_all_step(m0, m1),
        Model::toggle_all_step(m1, m2),
    ensures
        m1.todos@ == all_set(m0.todos@, !every_completed(m0.todos@)),
        m2.todos@ == all_set(m0.todos@, every_completed(m0.todos@)),
        m2.rest_same(m0),
{
    let s0 = m0.todos@;
    let c0 = every_completed(s0);
    if s0.len() > 0 {
        assert(m1.todos@[0].completed == !c0);
        assert(every_completed(m1.todos@) == !c0);
    }
    assert(m2.todos@ =~= all_set(s0, c0));
}

/// Clearing completed tasks keeps exactly the open ones, in order: the number
/// of open tasks is unchanged and no completed task is left.
pub proof fn clear_completed_keeps_active(m0: Model, m1: Model)
    requires
        Model::clear_completed_step(m0, m1),
    ensures
        m1.todos@ == m0.todos@.filter(is_active()),
        active_count_of(m1.todos@) == active_count_of(m0.todos@),
        completed_count_of(m1.todos@) == 0,
        m1.selected_todo == selection_kept(m0.selected_todo, m1.todos@),
{
    lemma_filter_twice(m0.todos@, is_active());
    let s1 = m1.todos@;
    assert forall|i: int| 0 <= i < s1.len() implies !is_done()(s1[i]) by {
        m0.todos@.lemma_filter_pred(is_active(), i);
    }
    lemma_filter_keeps_none(s1, is_done());
}

} // verus!
