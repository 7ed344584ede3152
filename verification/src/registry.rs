//! The buffer registry: byte buffers held under integer handles, each handed
//! out by a counter and given up exactly once.

use crate::error::{Error, ErrorKind};
use crate::trusted::{storage_address, string_from_utf8};
use std::collections::HashMap;
use vstd::prelude::*;
use vstd::string::StrSliceExecFns;
use vstd::utf8::{decode_utf8, encode_utf8, valid_utf8};

verus! {

broadcast use vstd::std_specs::hash::group_hash_axioms;

/// The handle that the counter issues after `handle`: the next integer, and
/// the least one after the greatest.
pub open spec fn successor(handle: i32) -> i32 {
    if handle == i32::MAX {
        i32::MIN
    } else {
        (handle + 1) as i32
    }
}

/// What a registry holds, as mathematics: the bytes under each live handle,
/// and the handle that the next allocation will issue.
#[verifier::ext_equal]
pub struct RegistryState {
    pub buffers: Map<i32, Seq<u8>>,
    pub next: i32,
}

impl RegistryState {
    /// The registry at start: no buffer, and zero as the first handle.
    pub open spec fn empty() -> RegistryState {
        RegistryState { buffers: Map::empty(), next: 0 }
    }

    /// Whether `handle` denotes a buffer that is held now.
    pub open spec fn live(self, handle: i32) -> bool {
        self.buffers.contains_key(handle)
    }

    /// The bytes held under a live handle.
    pub open spec fn bytes(self, handle: i32) -> Seq<u8> {
        self.buffers[handle]
    }

    /// The registry after it has taken `bytes` under the handle that was next.
    pub open spec fn allocate(self, bytes: Seq<u8>) -> RegistryState {
        RegistryState {
            buffers: self.buffers.insert(self.next, bytes),
            next: successor(self.next),
        }
    }

    /// The registry after `handle` was given up; the same registry where the
    /// handle was not live.
    pub open spec fn remove(self, handle: i32) -> RegistryState {
        RegistryState { buffers: self.buffers.remove(handle), next: self.next }
    }

    /// The length of the buffer under a live handle, as the boundary reports
    /// it: in 32 bits, so exact up to `i32::MAX` and its low 32 bits beyond.
    pub open spec fn length(self, handle: i32) -> i32 {
        self.buffers[handle].len() as i32
    }

    /// The string that the bytes under a live handle encode, if they are
    /// well-formed UTF-8.
    pub open spec fn text(self, handle: i32) -> Option<Seq<char>> {
        if valid_utf8(self.buffers[handle]) {
            Some(decode_utf8(self.buffers[handle]))
        } else {
            None
        }
    }
}

/// The buffers of one guest, each under the handle it was issued.
pub struct BufferRegistry {
    buffers: HashMap<i32, Vec<u8>>,
    next: i32,
}

impl View for BufferRegistry {
    type V = RegistryState;

    closed spec fn view(&self) -> RegistryState {
        RegistryState {
            buffers: Map::new(
                |handle: i32| self.buffers@.contains_key(handle),
                |handle: i32| self.buffers@[handle]@,
            ),
            next: self.next,
        }
    }
}

impl BufferRegistry {
    /// A registry that holds nothing and has issued no handle.
    pub fn new() -> (registry: BufferRegistry)
        ensures
            registry@ == RegistryState::empty(),
    {
        BufferRegistry { buffers: HashMap::new(), next: 0 }
    }
}

/// Takes ownership of `bytes` and returns the handle under which the registry
/// now holds them: the one that was next.
pub fn membrane_buffer(registry: &mut BufferRegistry, bytes: Vec<u8>) -> (handle: i32)
    ensures
        handle == old(registry)@.next,
        final(registry)@ == old(registry)@.allocate(bytes@),
{
    let handle: i32 = registry.next;
    registry.next = if handle == i32::MAX {
        i32::MIN
    } else {
        handle + 1
    };
    registry.buffers.insert(handle, bytes);
    handle
}

/// Gives up `buffer_id` and returns the bytes that were held under it. A
/// handle that is not live is reported, and the registry stays as it was.
pub fn membrane_consume_buffer(registry: &mut BufferRegistry, buffer_id: i32) -> (result: Result<
    Vec<u8>,
    Error,
>)
    ensures
        final(registry)@ == old(registry)@.remove(buffer_id),
        match result {
            Ok(bytes) => old(registry)@.live(buffer_id) && bytes@ == old(registry)@.bytes(
                buffer_id,
            ),
            Err(e) => !old(registry)@.live(buffer_id) && e.kind == ErrorKind::UnknownHandle
                && e.message@ == Error::unknown_handle_message(buffer_id),
        },
{
    match registry.buffers.remove(&buffer_id) {
        Some(bytes) => Ok(bytes),
        None => Err(Error::unknown_handle(buffer_id)),
    }
}

/// Gives up `buffer_id` and returns the string that its bytes encode. The
/// buffer is given up first and read after: bytes that are not UTF-8 are
/// reported, and their handle is gone all the same.
pub fn membrane_consume_string_utf8(registry: &mut BufferRegistry, buffer_id: i32) -> (result:
    Result<String, Error>)
    ensures
        final(registry)@ == old(registry)@.remove(buffer_id),
        match result {
            Ok(string) => old(registry)@.live(buffer_id) && old(registry)@.text(buffer_id) == Some(
                string@,
            ),
            Err(e) => if old(registry)@.live(buffer_id) {
                old(registry)@.text(buffer_id) is None && e.kind == ErrorKind::InvalidEncoding
                    && e.message@ == Error::invalid_encoding_message(buffer_id)
            } else {
                e.kind == ErrorKind::UnknownHandle && e.message@ == Error::unknown_handle_message(
                    buffer_id,
                )
            },
        },
{
    let bytes = match registry.buffers.remove(&buffer_id) {
        Some(bytes) => bytes,
        None => {
            return Err(Error::unknown_handle(buffer_id));
        },
    };
    match string_from_utf8(bytes) {
        Some(string) => {
            proof {
                vstd::utf8::encode_utf8_decode_utf8(string@);
            }
            Ok(string)
        },
        None => Err(Error::invalid_encoding(buffer_id)),
    }
}

/// Takes `string` as a buffer of its UTF-8 bytes and returns the handle.
pub fn membrane_string_utf8(registry: &mut BufferRegistry, string: String) -> (handle: i32)
    ensures
        handle == old(registry)@.next,
        final(registry)@ == old(registry)@.allocate(encode_utf8(string@)),
{
    membrane_buffer(registry, string.as_str().as_bytes_vec())
}

/// The address at which the storage of the buffer under `id` starts, for the
/// host to read from. It is never zero, so zero is free to stand for failure
/// at the boundary. A handle that is not live is reported.
pub fn membrane_get_buffer_ptr(registry: &BufferRegistry, id: i32) -> (result: Result<usize, Error>)
    ensures
        result is Ok <==> registry@.live(id),
        result matches Ok(address) ==> address != 0,
        result matches Err(e) ==> e.kind == ErrorKind::UnknownHandle && e.message@
            == Error::unknown_handle_message(id),
{
    match registry.buffers.get(&id) {
        Some(buffer) => Ok(storage_address(buffer)),
        None => Err(Error::unknown_handle(id)),
    }
}

/// The length in bytes of the buffer under `id`. A handle that is not live is
/// reported.
pub fn membrane_get_buffer_len(registry: &BufferRegistry, id: i32) -> (result: Result<i32, Error>)
    ensures
        match result {
            Ok(len) => registry@.live(id) && len == registry@.length(id),
            Err(e) => !registry@.live(id) && e.kind == ErrorKind::UnknownHandle && e.message@
                == Error::unknown_handle_message(id),
        },
{
    match registry.buffers.get(&id) {
        Some(buffer) => Ok(#[verifier::truncate] (buffer.len() as i32)),
        None => Err(Error::unknown_handle(id)),
    }
}

/// Reserves a buffer of exactly `len` bytes for the host to fill in by
/// address, and returns its handle. What the bytes hold until then is not
/// specified. A negative length is reported, and nothing changes.
pub fn membrane_alloc_buffer(registry: &mut BufferRegistry, len: i32) -> (result: Result<
    i32,
    Error,
>)
    ensures
        match result {
            Ok(handle) => len >= 0 && handle == old(registry)@.next && final(registry)@.bytes(
                handle,
            ).len() == len && final(registry)@ == old(registry)@.allocate(
                final(registry)@.bytes(handle),
            ),
            Err(e) => len < 0 && final(registry)@ == old(registry)@ && e.kind
                == ErrorKind::NegativeLength && e.message@ == Error::negative_length_message(len),
        },
{
    if len < 0 {
        return Err(Error::negative_length(len));
    }
    let bytes: Vec<u8> = vec![0u8; len as usize];
    Ok(membrane_buffer(registry, bytes))
}

/// Gives up `id` and discards its bytes. A handle that is not live is
/// reported, and the registry stays as it was: releasing twice frees once.
pub fn membrane_dealloc_buffer(registry: &mut BufferRegistry, id: i32) -> (result: Result<
    (),
    Error,
>)
    ensures
        final(registry)@ == old(registry)@.remove(id),
        result is Ok <==> old(registry)@.live(id),
        result matches Err(e) ==> e.kind == ErrorKind::UnknownHandle && e.message@
            == Error::unknown_handle_message(id),
{
    match registry.buffers.remove(&id) {
        Some(_) => Ok(()),
        None => Err(Error::unknown_handle(id)),
    }
}

} // verus!
