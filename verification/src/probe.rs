//! What the guest asks of its host, and the round-trip probes by which a host
//! finds out whether the handle protocol works before real traffic flows.
//!
//! Nothing here reaches the host. Each function does the registry's part and
//! returns the call that is then to be made across the boundary.

use crate::registry::{
    membrane_buffer, membrane_consume_buffer, membrane_consume_string_utf8, membrane_string_utf8,
    BufferRegistry, RegistryState,
};
use crate::{ERROR, OK};
use vstd::prelude::*;
use vstd::utf8::encode_utf8;

verus! {

/// A call into the host, with the handle of the buffer that it hands over.
#[derive(Clone, Copy, Debug, PartialEq, Eq, Structural)]
pub enum HostCall {
    /// The host's logging sink, with a message.
    Log(i32),
    /// The host's sink for abnormal termination, with a message.
    Panic(i32),
    /// The acknowledgement of the buffer echo, with the echoed bytes.
    TestBufferCallback(i32),
    /// The acknowledgement of the string echo, with the echoed string.
    TestStringCallback(i32),
}

/// The guest's answer to a probe: the status code that goes back in band, and
/// the call into the host that goes with it, if there is one.
#[derive(Clone, Copy, Debug, PartialEq, Eq)]
pub struct Reply {
    pub status: i32,
    pub call: Option<HostCall>,
}

/// The registry after the buffer under `handle` was consumed and `bytes` were
/// allocated in its place, under the next handle.
pub open spec fn echoed(state: RegistryState, handle: i32, bytes: Seq<u8>) -> RegistryState {
    state.remove(handle).allocate(bytes)
}

/// The buffer echo: consumes `buffer_id`, allocates the same bytes anew and
/// reports the new handle. A handle that is not live fails the probe.
pub fn membrane_guest_test_buffer_callback(registry: &mut BufferRegistry, buffer_id: i32) -> (reply:
    Reply)
    ensures
        old(registry)@.live(buffer_id) ==> reply.status == OK && reply.call == Some(
            HostCall::TestBufferCallback(old(registry)@.next),
        ) && final(registry)@ == echoed(
            old(registry)@,
            buffer_id,
            old(registry)@.bytes(buffer_id),
        ),
        !old(registry)@.live(buffer_id) ==> reply.status == ERROR && reply.call is None
            && final(registry)@ == old(registry)@,
{
    let buffer = match membrane_consume_buffer(registry, buffer_id) {
        Ok(buffer) => buffer,
        Err(_) => {
            assert(registry@ =~= old(registry)@);
            return Reply { status: ERROR, call: None };
        },
    };
    let handle = membrane_buffer(registry, buffer);
    Reply { status: OK, call: Some(HostCall::TestBufferCallback(handle)) }
}

/// The string echo: consumes `buffer_id` as a string, encodes the string
/// anew and reports the new handle. A handle that is not live, or bytes that
/// are not UTF-8, fail the probe; the buffer is given up all the same.
pub fn membrane_guest_test_string_callback(registry: &mut BufferRegistry, buffer_id: i32) -> (reply:
    Reply)
    ensures
        match old(registry)@.text(buffer_id) {
            Some(text) if old(registry)@.live(buffer_id) => reply.status == OK && reply.call
                == Some(HostCall::TestStringCallback(old(registry)@.next)) && final(registry)@
                == echoed(old(registry)@, buffer_id, encode_utf8(text)),
            _ => reply.status == ERROR && reply.call is None && final(registry)@
                == old(registry)@.remove(buffer_id),
        },
{
    let string = match membrane_consume_string_utf8(registry, buffer_id) {
        Ok(string) => string,
        Err(_) => {
            return Reply { status: ERROR, call: None };
        },
    };
    let handle = membrane_string_utf8(registry, string);
    Reply { status: OK, call: Some(HostCall::TestStringCallback(handle)) }
}

/// The log relay: consumes `buffer_id` as a string and hands the string to
/// the host's logging sink. Fails as the string echo does.
pub fn membrane_guest_test_log_callback(registry: &mut BufferRegistry, buffer_id: i32) -> (reply:
    Reply)
    ensures
        match old(registry)@.text(buffer_id) {
            Some(text) if old(registry)@.live(buffer_id) => reply.status == OK && reply.call
                == Some(HostCall::Log(old(registry)@.next)) && final(registry)@ == echoed(
                old(registry)@,
                buffer_id,
                encode_utf8(text),
            ),
            _ => reply.status == ERROR && reply.call is None && final(registry)@
                == old(registry)@.remove(buffer_id),
        },
{
    let message = match membrane_consume_string_utf8(registry, buffer_id) {
        Ok(message) => message,
        Err(_) => {
            return Reply { status: ERROR, call: None };
        },
    };
    Reply { status: OK, call: Some(crate::log(registry, message)) }
}

/// The panic relay: consumes `buffer_id` as a string and hands the string to
/// the host's sink for abnormal termination. Fails as the string echo does.
pub fn membrane_guest_test_panic_callback(registry: &mut BufferRegistry, buffer_id: i32) -> (reply:
    Reply)
    ensures
        match old(registry)@.text(buffer_id) {
            Some(text) if old(registry)@.live(buffer_id) => reply.status == OK && reply.call
                == Some(HostCall::Panic(old(registry)@.next)) && final(registry)@ == echoed(
                old(registry)@,
                buffer_id,
                encode_utf8(text),
            ),
            _ => reply.status == ERROR && reply.call is None && final(registry)@
                == old(registry)@.remove(buffer_id),
        },
{
    let message = match membrane_consume_string_utf8(registry, buffer_id) {
        Ok(message) => message,
        Err(_) => {
            return Reply { status: ERROR, call: None };
        },
    };
    Reply { status: OK, call: Some(crate::panic(registry, message)) }
}

} // verus!
