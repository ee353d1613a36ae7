//! The in-memory call store: call records keyed by their identifier.
//! Sharing between request handlers (a mutex around the store) is the
//! caller's concern; every operation here takes the store directly.
use std::collections::HashMap;
use vstd::prelude::*;
use vstd::std_specs::hash::spec_hash_map_iter;
use vstd::std_specs::iter::IteratorSpec;

use crate::error::CoreError;
use crate::models::{Call, CallStatus};
use crate::text::{str_equal, uuid_string, uuid_text};

verus! {

broadcast use vstd::std_specs::hash::group_hash_axioms;

/// Call records keyed by `Call::id`.
pub struct CallStore {
    calls: HashMap<u128, Call>,
}

impl View for CallStore {
    type V = Map<u128, Call>;

    closed spec fn view(&self) -> Map<u128, Call> {
        self.calls@
    }
}

/// Every record is filed under its own identifier.
pub open spec fn keyed_by_id(m: Map<u128, Call>) -> bool {
    forall|k: u128| #[trigger] m.contains_key(k) ==> m[k].id == k
}

/// `e` reports that no call is known under `key`.
pub open spec fn not_found(e: CoreError, key: Seq<char>) -> bool {
    match e {
        CoreError::CallNotFound(s) => s@ == key,
        _ => false,
    }
}

/// Some record of `m` has the control id `cc`.
pub open spec fn has_control_id(m: Map<u128, Call>, cc: Seq<char>) -> bool {
    exists|k: u128| #[trigger] m.contains_key(k) && m[k].call_control_id@ == cc
}

/// `m` with the status of the record under `id` replaced.
pub open spec fn with_status(m: Map<u128, Call>, id: u128, status: CallStatus) -> Map<u128, Call> {
    m.insert(id, Call { status, ..m[id] })
}

/// `calls` lists each record of `m` exactly once, in some order.
pub open spec fn lists_exactly(calls: Seq<Call>, m: Map<u128, Call>) -> bool {
    &&& calls.len() == m.len()
    &&& forall|i: int| 0 <= i < calls.len() ==> #[trigger] m.contains_key(calls[i].id) && m[calls[i].id] == calls[i]
    &&& forall|i: int, j: int| 0 <= i < j < calls.len() ==> calls[i].id != calls[j].id
    &&& forall|k: u128| #[trigger] m.contains_key(k) ==> calls.contains(m[k])
}

impl CallStore {
    /// The store keeps every record under its own identifier.
    pub open spec fn wf(&self) -> bool {
        keyed_by_id(self@)
    }
}

/// Creates an empty store.
pub fn new_call_store() -> (store: CallStore)
    ensures
        store.wf(),
        store@ == Map::<u128, Call>::empty(),
{
    CallStore { calls: HashMap::new() }
}

/// Files `call` under its identifier, replacing any record already there.
pub fn insert_call(store: &mut CallStore, call: Call) -> (r: Result<(), CoreError>)
    requires
        old(store).wf(),
    ensures
        final(store).wf(),
        r is Ok,
        final(store)@ == old(store)@.insert(call.id, call),
{
    let id = call.id;
    store.calls.insert(id, call);
    Ok(())
}

/// The record filed under `id`; `CallNotFound` with the identifier's
/// hyphenated text when there is none.
pub fn get_call(store: &CallStore, id: u128) -> (r: Result<Call, CoreError>)
    requires
        store.wf(),
    ensures
        match r {
            Ok(c) => store@.contains_key(id) && c == store@[id],
            Err(e) => !store@.contains_key(id) && not_found(e, uuid_text(id)),
        },
{
    match store.calls.get(&id) {
        Some(c) => Ok(c.clone()),
        None => Err(CoreError::CallNotFound(uuid_string(id))),
    }
}

/// A record whose control id is `call_control_id`; `CallNotFound` with that
/// control id when no record has it. When several records share the control
/// id, which of them is returned is not fixed.
pub fn get_call_by_control_id(store: &CallStore, call_control_id: &str) -> (r: Result<
    Call,
    CoreError,
>)
    requires
        store.wf(),
    ensures
        match r {
            Ok(c) => store@.contains_key(c.id) && store@[c.id] == c && c.call_control_id@
                == call_control_id@,
            Err(e) => !has_control_id(store@, call_control_id@) && not_found(e, call_control_id@),
        },
{
    let ghost sq = spec_hash_map_iter(&store.calls).remaining();
    for (k, v) in it: store.calls.iter()
        invariant
            store.wf(),
            it.seq() == sq,
            forall|i: int|
                0 <= i < it.index() ==> (#[trigger] it.seq()[i]).1.call_control_id@
                    != call_control_id@,
    {
        proof {
            let i = it.index() as int;
            assert(sq[i] == (k, v));
            assert(store@.contains_key(*sq[i].0) && store@[*sq[i].0] == *sq[i].1);
        }
        if str_equal(v.call_control_id.as_str(), call_control_id) {
            return Ok(v.clone());
        }
    }
    proof {
        assert forall|k: u128| #[trigger] store@.contains_key(k) implies store@[k].call_control_id@
            != call_control_id@ by {
            assert(sq.contains((&k, &store@[k])));
        }
    }
    Err(CoreError::CallNotFound(String::from_str(call_control_id)))
}

/// Every record, each once, in no particular order.
pub fn list_calls(store: &CallStore) -> (calls: Vec<Call>)
    requires
        store.wf(),
    ensures
        lists_exactly(calls@, store@),
{
    let mut calls: Vec<Call> = Vec::new();
    let ghost sq = spec_hash_map_iter(&store.calls).remaining();
    for (k, v) in it: store.calls.iter()
        invariant
            store.wf(),
            it.seq() == sq,
            calls.len() == it.index(),
            forall|i: int|
                0 <= i < it.index() ==> calls@[i] == *(#[trigger] it.seq()[i]).1,
    {
        calls.push(v.clone());
    }
    proof {
        let m = store@;
        assert(sq.len() == m.len());
        assert forall|i: int| 0 <= i < calls.len() implies #[trigger] m.contains_key(calls@[i].id)
            && m[calls@[i].id] == calls@[i] by {
            assert(m.contains_key(*sq[i].0) && m[*sq[i].0] == *sq[i].1);
        }
        assert forall|i: int, j: int| 0 <= i < j < calls.len() implies calls@[i].id
            != calls@[j].id by {
            assert(m.contains_key(*sq[i].0) && m[*sq[i].0] == *sq[i].1);
            assert(m.contains_key(*sq[j].0) && m[*sq[j].0] == *sq[j].1);
            assert(sq[i] != sq[j]);
        }
        assert forall|k: u128| #[trigger] m.contains_key(k) implies calls@.contains(m[k]) by {
            assert(sq.contains((&k, &m[k])));
            let i = choose|i: int| 0 <= i < sq.len() && sq[i] == (&k, &m[k]);
            assert(calls@[i] == m[k]);
        }
    }
    calls
}

/// Sets the status of the record filed under `id`; `CallNotFound` with the
/// identifier's text, and the store unchanged, when there is none.
pub fn update_call_status(store: &mut CallStore, id: u128, status: CallStatus) -> (r: Result<
    (),
    CoreError,
>)
    requires
        old(store).wf(),
    ensures
        final(store).wf(),
        match r {
            Ok(()) => old(store)@.contains_key(id) && final(store)@ == with_status(
                old(store)@,
                id,
                status,
            ),
            Err(e) => !old(store)@.contains_key(id) && final(store)@ == old(store)@
                && not_found(e, uuid_text(id)),
        },
{
    match store.calls.remove(&id) {
        Some(mut call) => {
            call.status = status;
            store.calls.insert(id, call);
            Ok(())
        },
        None => Err(CoreError::CallNotFound(uuid_string(id))),
    }
}

/// Removes the record filed under `id`; `CallNotFound` with the identifier's
/// text, and the store unchanged, when there is none.
pub fn remove_call(store: &mut CallStore, id: u128) -> (r: Result<(), CoreError>)
    requires
        old(store).wf(),
    ensures
        final(store).wf(),
        final(store)@ == old(store)@.remove(id),
        match r {
            Ok(()) => old(store)@.contains_key(id),
            Err(e) => !old(store)@.contains_key(id) && not_found(e, uuid_text(id)),
        },
{
    match store.calls.remove(&id) {
        Some(_) => Ok(()),
        None => Err(CoreError::CallNotFound(uuid_string(id))),
    }
}

} // verus!
