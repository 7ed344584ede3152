//! Sessions: what holds of a registry over a whole run of operations.
//!
//! A session is a sequence of operations on one registry. The laws below are
//! stated over the same functions of [`RegistryState`] by which the
//! operations of the registry say what they do.

use crate::registry::{successor, RegistryState};
use vstd::prelude::*;
use vstd::utf8::{encode_utf8, encode_utf8_decode_utf8, encode_utf8_valid_utf8};

verus! {

/// One operation, by what it does to the registry: an allocation takes bytes
/// under the next handle; a consumption or a release gives a handle up.
pub enum Operation {
    Allocate(Seq<u8>),
    GiveUp(i32),
}

/// The registry after one operation.
pub open spec fn step(state: RegistryState, operation: Operation) -> RegistryState {
    match operation {
        Operation::Allocate(bytes) => state.allocate(bytes),
        Operation::GiveUp(handle) => state.remove(handle),
    }
}

/// The registry after a session that started from `state`.
pub open spec fn run(state: RegistryState, session: Seq<Operation>) -> RegistryState
    decreases session.len(),
{
    if session.len() == 0 {
        state
    } else {
        step(run(state, session.drop_last()), session.last())
    }
}

/// The handles that a session issues from `state` on, in the order of their
/// allocations.
pub open spec fn issued(state: RegistryState, session: Seq<Operation>) -> Seq<i32>
    decreases session.len(),
{
    if session.len() == 0 {
        Seq::empty()
    } else {
        let earlier = issued(state, session.drop_last());
        match session.last() {
            Operation::Allocate(_) => earlier.push(run(state, session.drop_last()).next),
            Operation::GiveUp(_) => earlier,
        }
    }
}

/// Whether the counter has room for every allocation of the session: none of
/// them is issued a handle after the greatest one.
pub open spec fn in_range(state: RegistryState, session: Seq<Operation>) -> bool {
    state.next + issued(state, session).len() <= i32::MAX + 1
}

/// The handle that stands `count` places after `handle`, where the counter
/// has room for it; the least handle where `handle` was the greatest.
pub open spec fn successor_by(handle: i32, count: nat) -> i32 {
    if handle + count <= i32::MAX {
        (handle + count) as i32
    } else {
        i32::MIN
    }
}

/// Whether every live handle lies below the counter: all of them were issued
/// before, and none will be issued again while the counter has room.
pub open spec fn below_counter(state: RegistryState) -> bool {
    forall|handle: i32| state.live(handle) ==> handle < state.next
}

/// Consuming what was just allocated returns the bytes that were allocated,
/// and leaves the registry without the handle.
pub proof fn law_consume_returns_allocated(state: RegistryState, bytes: Seq<u8>)
    ensures
        state.allocate(bytes).live(state.next),
        state.allocate(bytes).bytes(state.next) == bytes,
        !state.allocate(bytes).remove(state.next).live(state.next),
{
}

/// Consuming as a string the buffer of a string's UTF-8 bytes returns that
/// string.
pub proof fn law_string_round_trip(state: RegistryState, string: Seq<char>)
    ensures
        state.allocate(encode_utf8(string)).live(state.next),
        state.allocate(encode_utf8(string)).text(state.next) == Some(string),
{
    encode_utf8_valid_utf8(string);
    encode_utf8_decode_utf8(string);
}

/// A buffer reserved with a length reports that length.
pub proof fn law_reserved_length(state: RegistryState, bytes: Seq<u8>, len: i32)
    requires
        bytes.len() == len,
    ensures
        state.allocate(bytes).live(state.next),
        state.allocate(bytes).length(state.next) == len,
{
}

/// A handle that was given up is not live, whether or not it was before.
pub proof fn law_given_up_is_unknown(state: RegistryState, handle: i32)
    ensures
        !state.remove(handle).live(handle),
        state.remove(handle).remove(handle) == state.remove(handle),
{
}

/// The counter after a session stands as many handles further as the session
/// has issued, while it has room for them.
pub proof fn law_counter_counts(state: RegistryState, session: Seq<Operation>)
    requires
        in_range(state, session),
    ensures
        run(state, session).next == successor_by(state.next, issued(state, session).len()),
    decreases session.len(),
{
    if session.len() > 0 {
        law_counter_counts(state, session.drop_last());
    }
}

/// The handles that a session issues are consecutive from the counter on, so
/// each is greater than all before it and none comes twice.
pub proof fn law_handles_increase(state: RegistryState, session: Seq<Operation>)
    requires
        in_range(state, session),
    ensures
        forall|i: int|
            0 <= i < issued(state, session).len() ==> #[trigger] issued(state, session)[i]
                == state.next + i,
        forall|i: int, j: int|
            0 <= i < j < issued(state, session).len() ==> issued(state, session)[i] < issued(
                state,
                session,
            )[j],
    decreases session.len(),
{
    if session.len() > 0 {
        law_handles_increase(state, session.drop_last());
        law_counter_counts(state, session.drop_last());
    }
}

/// Every live handle stays below the counter through a session that leaves
/// the counter within the handles, so no allocation after it takes the place
/// of a live buffer.
pub proof fn law_live_below_counter(state: RegistryState, session: Seq<Operation>)
    requires
        below_counter(state),
        state.next + issued(state, session).len() <= i32::MAX,
    ensures
        below_counter(run(state, session)),
        !run(state, session).live(run(state, session).next),
    decreases session.len(),
{
    if session.len() > 0 {
        let earlier = session.drop_last();
        let before = run(state, earlier);
        let after = run(state, session);
        law_live_below_counter(state, earlier);
        law_counter_counts(state, earlier);
        law_counter_counts(state, session);
        assert forall|handle: i32| after.live(handle) implies handle < after.next by {
            if handle != before.next {
                assert(before.live(handle));
            }
        }
    }
    assert(!run(state, session).live(run(state, session).next)) by {
        let last = run(state, session);
        if last.live(last.next) {
            assert(last.next < last.next);
        }
    }
}

/// A handle that was issued and given up stays unknown: nothing that a
/// session does makes it live again, while the counter has room.
pub proof fn law_retired_stays_unknown(state: RegistryState, handle: i32, session: Seq<Operation>)
    requires
        handle < state.next,
        !state.live(handle),
        in_range(state, session),
    ensures
        !run(state, session).live(handle),
    decreases session.len(),
{
    if session.len() > 0 {
        law_retired_stays_unknown(state, handle, session.drop_last());
        law_counter_counts(state, session.drop_last());
    }
}

} // verus!
