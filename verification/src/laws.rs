//! The store's governing laws, stated over the transitions that the layers'
//! contracts use, and proved once for every store and every input.

use vstd::prelude::*;

use crate::database::{with_list, with_todo, without_list, StoreView};
use crate::uid::Uid;

verus! {

/// Creating a list makes its identifier present, so a second creation under
/// the same explicit identifier meets the conflict condition, whatever name
/// either attempt carries.
pub proof fn lemma_create_list_twice_conflicts(s: StoreView, id: Uid, name: Seq<char>)
    requires
        !s.lists.dom().contains(id),
    ensures
        with_list(s, id, name).lists.dom().contains(id),
{
}

/// Updating a list rewrites only its name: the set of lists is unchanged, the
/// list keeps its identifier, every other list keeps its name, and the todos
/// are untouched.
pub proof fn lemma_update_changes_only_name(s: StoreView, id: Uid, name: Seq<char>)
    requires
        s.lists.dom().contains(id),
    ensures
        with_list(s, id, name).lists.dom() =~= s.lists.dom(),
        with_list(s, id, name).lists[id] == name,
        forall|j: Uid|
            j != id && s.lists.dom().contains(j) ==> with_list(s, id, name).lists[j] == s.lists[j],
        with_list(s, id, name).todos == s.todos,
{
}

/// Deleting a list removes it, removes every todo that referenced it, and
/// keeps every other todo unchanged.
pub proof fn lemma_remove_list_cascades(s: StoreView, id: Uid)
    ensures
        !without_list(s, id).lists.dom().contains(id),
        forall|t: Uid|
            s.todos.dom().contains(t) && s.todos[t].list_id == id ==> !without_list(
                s,
                id,
            ).todos.dom().contains(t),
        forall|t: Uid|
            s.todos.dom().contains(t) && s.todos[t].list_id != id ==> (without_list(
                s,
                id,
            ).todos.dom().contains(t) && without_list(s, id).todos[t] == s.todos[t]),
{
}

/// A newly created todo starts not done.
pub proof fn lemma_new_todo_not_done(s: StoreView, list_id: Uid, id: Uid, description: Seq<char>)
    ensures
        with_todo(s, list_id, id, description, false).todos[id].done == false,
{
}

/// Two todos created in turn, each insertion finding its identifier free,
/// carry distinct identifiers, whatever their lists and descriptions —
/// repeated descriptions included.
pub proof fn lemma_created_todo_ids_distinct(
    s: StoreView,
    first_list: Uid,
    first_id: Uid,
    first_description: Seq<char>,
    second_id: Uid,
)
    requires
        !s.todos.dom().contains(first_id),
        !with_todo(s, first_list, first_id, first_description, false).todos.dom().contains(
            second_id,
        ),
    ensures
        second_id != first_id,
{
}

} // verus!
