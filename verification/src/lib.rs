//! A handle-table buffer registry for exchanging bytes between a guest module
//! and its host, which share nothing but integers and a flat memory.

use vstd::prelude::*;
use vstd::utf8::encode_utf8;

pub mod boundary;
pub mod error;
pub mod extensions;
pub mod probe;
pub mod registry;
pub mod session;
pub mod text;
mod trusted;

pub use boundary::{address_or_null, reply_of, status_of};
pub use error::{Error, ErrorKind};
pub use extensions::{membrane_get_extensions, membrane_init_add_ext, ExtensionRegistry};
pub use probe::{
    membrane_guest_test_buffer_callback, membrane_guest_test_log_callback,
    membrane_guest_test_panic_callback, membrane_guest_test_string_callback, HostCall, Reply,
};
pub use registry::{
    membrane_alloc_buffer, membrane_buffer, membrane_consume_buffer,
    membrane_consume_string_utf8, membrane_dealloc_buffer, membrane_get_buffer_len,
    membrane_get_buffer_ptr, membrane_string_utf8, BufferRegistry, RegistryState,
};

verus! {

/// Status code of a boundary call that succeeded.
pub const OK: i32 = 0;

/// Status code of a boundary call that failed.
pub const ERROR: i32 = -1;

/// Status code of a boundary call that had nothing to hand over.
pub const EMPTY: i32 = -2;

/// The version of the boundary protocol that this guest speaks.
pub fn membrane_guest_version() -> (version: i32)
    ensures
        version == 0,
{
    0
}

/// Puts `message` into a new buffer for the host's sink for abnormal
/// termination.
pub fn panic(registry: &mut BufferRegistry, message: String) -> (call: HostCall)
    ensures
        call == HostCall::Panic(old(registry)@.next),
        final(registry)@ == old(registry)@.allocate(encode_utf8(message@)),
{
    HostCall::Panic(membrane_string_utf8(registry, message))
}

/// Puts `message` into a new buffer for the host's logging sink.
pub fn log(registry: &mut BufferRegistry, message: String) -> (call: HostCall)
    ensures
        call == HostCall::Log(old(registry)@.next),
        final(registry)@ == old(registry)@.allocate(encode_utf8(message@)),
{
    HostCall::Log(membrane_string_utf8(registry, message))
}

} // verus!
