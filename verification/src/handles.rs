//! Lists of handles into the arena.

use vstd::prelude::*;
use crate::entity::Entity;

verus! {

/// Whether the slot under `handle` is live: it exists and is not marked.
pub open spec fn live(arena: Seq<Entity>, handle: usize) -> bool {
    handle < arena.len() && !arena[handle as int].marked()
}

/// Whether every handle in `handles` names a slot of an arena of `slots`
/// slots.
pub open spec fn in_range(handles: Seq<usize>, slots: nat) -> bool {
    forall|i: int| 0 <= i < handles.len() ==> (#[trigger] handles[i]) < slots
}

/// `handles` without the handles whose entity is marked for deletion.
pub open spec fn kept(handles: Seq<usize>, arena: Seq<Entity>) -> Seq<usize> {
    handles.filter(|h: usize| live(arena, h))
}

/// `kept` of a list with one more handle.
pub proof fn lemma_kept_push(handles: Seq<usize>, handle: usize, arena: Seq<Entity>)
    ensures
        kept(handles.push(handle), arena) == if live(arena, handle) {
            kept(handles, arena).push(handle)
        } else {
            kept(handles, arena)
        },
{
    reveal(Seq::filter);
    assert(handles.push(handle).drop_last() =~= handles);
}

/// What `kept` keeps was in the list and is live.
pub proof fn lemma_kept_members(handles: Seq<usize>, arena: Seq<Entity>)
    ensures
        forall|i: int|
            0 <= i < kept(handles, arena).len() ==> live(arena, #[trigger] kept(handles, arena)[i])
                && handles.contains(kept(handles, arena)[i]),
    decreases handles.len(),
{
    reveal(Seq::filter);
    if handles.len() > 0 {
        lemma_kept_members(handles.drop_last(), arena);
        let before = kept(handles.drop_last(), arena);
        assert forall|i: int| 0 <= i < kept(handles, arena).len() implies live(
            arena,
            #[trigger] kept(handles, arena)[i],
        ) && handles.contains(kept(handles, arena)[i]) by {
            if i < before.len() {
                let h = before[i];
                assert(handles.drop_last().contains(h));
                let j = choose|j: int| 0 <= j < handles.drop_last().len() && handles.drop_last()[j] == h;
                assert(handles[j] == h);
            } else {
                assert(handles[handles.len() - 1] == handles.last());
            }
        }
    }
}

/// `handles` without the handles whose entity is marked for deletion.
pub fn retain_live(handles: &mut Vec<usize>, arena: &Vec<Entity>)
    ensures
        final(handles)@ == kept(old(handles)@, arena@),
        in_range(final(handles)@, arena@.len()),
{
    let mut out: Vec<usize> = Vec::new();
    let mut i: usize = 0;
    assert(handles@.take(0) =~= Seq::<usize>::empty());
    assert(kept(Seq::<usize>::empty(), arena@) =~= Seq::<usize>::empty()) by {
        reveal(Seq::filter);
    }
    while i < handles.len()
        invariant
            i <= handles@.len(),
            handles@ == old(handles)@,
            out@ == kept(handles@.take(i as int), arena@),
        decreases handles@.len() - i,
    {
        let h = handles[i];
        proof {
            assert(handles@.take(i + 1) =~= handles@.take(i as int).push(h));
            lemma_kept_push(handles@.take(i as int), h, arena@);
        }
        if h < arena.len() && !arena[h].get_should_delete() {
            out.push(h);
        }
        i += 1;
    }
    proof {
        assert(handles@.take(i as int) =~= handles@);
        lemma_kept_members(handles@, arena@);
    }
    *handles = out;
}

/// Whether every handle of `handles` is below `slots`.
pub fn all_below(handles: &Vec<usize>, slots: usize) -> (r: bool)
    ensures
        r == in_range(handles@, slots as nat),
{
    let mut i: usize = 0;
    while i < handles.len()
        invariant
            i <= handles@.len(),
            forall|j: int| 0 <= j < i ==> (#[trigger] handles@[j]) < slots,
        decreases handles@.len() - i,
    {
        if handles[i] >= slots {
            return false;
        }
        i += 1;
    }
    true
}

/// Whether `handle` is in `handles`.
pub fn contains_handle(handles: &Vec<usize>, handle: usize) -> (r: bool)
    ensures
        r == handles@.contains(handle),
{
    let mut i: usize = 0;
    while i < handles.len()
        invariant
            i <= handles@.len(),
            forall|j: int| 0 <= j < i ==> handles@[j] != handle,
        decreases handles@.len() - i,
    {
        if handles[i] == handle {
            return true;
        }
        i += 1;
    }
    false
}

} // verus!
