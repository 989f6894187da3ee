//! Locating the native host runtime library.
//!
//! The platform probe that asks the OS for the runtime's path is foreign
//! code: it fills a byte buffer with a nul-terminated path and reports a
//! status word. The embedding binary performs that call; this module holds
//! the verified part — mapping the status word to an error and decoding the
//! buffer into a path.

use vstd::prelude::*;

verus! {

/// Why loading the host runtime failed.
#[derive(Clone, Copy, PartialEq, Eq, Structural, Debug)]
pub enum CoreHostError {
    /// The probe reported that the path buffer was too small.
    BufferTooSmall,
    /// The probe's buffer did not hold exactly one nul, at the end.
    MissingNulTerminator,
    /// The probe reported a status this loader does not know.
    UnknownError,
}

/// The status word the probe uses for a too-small buffer.
pub const STATUS_BUFFER_TOO_SMALL: u32 = 0x80008098;

impl From<u32> for CoreHostError {
    /// Maps a probe status word to an error.
    fn from(value: u32) -> (r: CoreHostError) {
        if value == STATUS_BUFFER_TOO_SMALL {
            CoreHostError::BufferTooSmall
        } else {
            CoreHostError::UnknownError
        }
    }
}

impl vstd::std_specs::convert::FromSpecImpl<u32> for CoreHostError {
    open spec fn obeys_from_spec() -> bool {
        true
    }

    open spec fn from_spec(value: u32) -> CoreHostError {
        if value == STATUS_BUFFER_TOO_SMALL {
            CoreHostError::BufferTooSmall
        } else {
            CoreHostError::UnknownError
        }
    }
}

/// A loaded host runtime: for this core, the path it was resolved from.
#[derive(Debug)]
pub struct HostFxr {
    pub path: Vec<u8>,
}

/// Whether `bytes` is a well-formed probe answer: nonempty, ending in nul,
/// with no nul anywhere before the end.
pub open spec fn nul_terminated(bytes: Seq<u8>) -> bool {
    &&& bytes.len() >= 1
    &&& bytes[bytes.len() - 1] == 0u8
    &&& forall|i: int| 0 <= i < bytes.len() - 1 ==> bytes[i] != 0u8
}

impl HostFxr {
    /// Decodes the outcome of the platform probe: a nonzero status means the
    /// buffer was too small; otherwise the first `len` bytes of `buffer` must
    /// be a nul-terminated path, which becomes the loaded runtime's path
    /// (without its terminator).
    #[verifier::loop_isolation(false)]
    pub fn load(status: u32, buffer: Vec<u8>, len: usize) -> (r: Result<HostFxr, CoreHostError>)
        ensures
            status != 0 ==> r == Err::<HostFxr, CoreHostError>(CoreHostError::BufferTooSmall),
            status == 0 && (len > buffer@.len() || !nul_terminated(buffer@.take(len as int)))
                ==> r == Err::<HostFxr, CoreHostError>(CoreHostError::MissingNulTerminator),
            status == 0 && len <= buffer@.len() && nul_terminated(buffer@.take(len as int))
                ==> (r matches Ok(h) && h.path@ == buffer@.take(len - 1)),
    {
        if status != 0 {
            return Err(CoreHostError::BufferTooSmall);
        }
        if len == 0 || len > buffer.len() {
            return Err(CoreHostError::MissingNulTerminator);
        }
        if buffer[len - 1] != 0 {
            proof {
                assert(buffer@.take(len as int)[len - 1] == buffer@[len - 1]);
            }
            return Err(CoreHostError::MissingNulTerminator);
        }
        let mut path: Vec<u8> = Vec::new();
        let mut i: usize = 0;
        while i < len - 1
            invariant
                i <= len - 1,
                len <= buffer@.len(),
                path@ == buffer@.take(i as int),
                forall|j: int| 0 <= j < i ==> buffer@[j] != 0u8,
            decreases len - 1 - i,
        {
            let b = buffer[i];
            if b == 0 {
                proof {
                    assert(buffer@.take(len as int)[i as int] == buffer@[i as int]);
                }
                return Err(CoreHostError::MissingNulTerminator);
            }
            path.push(b);
            i = i + 1;
        }
        proof {
            assert(buffer@.take(len as int)[len - 1] == 0u8);
            assert(forall|j: int|
                0 <= j < len - 1 ==> #[trigger] buffer@.take(len as int)[j] == buffer@[j]);
            assert(path@ =~= buffer@.take(len - 1));
        }
        Ok(HostFxr { path })
    }

    /// Wraps an already-resolved runtime path.
    pub fn load_from_path(path: Vec<u8>) -> (r: Result<HostFxr, CoreHostError>)
        ensures
            r matches Ok(h) && h.path@ == path@,
    {
        Ok(HostFxr { path })
    }
}

} // verus!
