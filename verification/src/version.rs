//! Firmware version identifiers, held in a buffer of fixed capacity.
use vstd::prelude::*;

verus! {

/// The largest number of bytes that a version identifier may have.
pub const MAX_VERSION_LEN: usize = 32;

/// `heapless::Vec`, a vector of fixed capacity that lives where it stands.
/// Nothing of its inside is known here: what a buffer holds is
/// [`buffer_bytes`].
#[verifier::external_type_specification]
#[verifier::external_body]
#[verifier::reject_recursive_types(T)]
pub struct ExBoundedVec<T, const N: usize>(heapless::Vec<T, N>);

/// The bytes that a buffer of `heapless::Vec` holds, first to last.
pub uninterp spec fn buffer_bytes(buffer: heapless::Vec<u8, MAX_VERSION_LEN>) -> Seq<u8>;

/// `heapless::Vec::from_slice`: the buffer is made exactly when the slice is
/// no longer than the capacity of the buffer, and then holds the bytes of the
/// slice in their order. A longer slice is refused, never cut short.
#[verifier::external_body]
fn buffer_from_slice(bytes: &[u8]) -> (made: Result<heapless::Vec<u8, MAX_VERSION_LEN>, ()>)
    ensures
        made is Ok <==> bytes@.len() <= MAX_VERSION_LEN,
        made matches Ok(buffer) ==> buffer_bytes(buffer) == bytes@,
{
    heapless::Vec::from_slice(bytes)
}

/// `heapless::Vec::as_slice`: the slice over the bytes that the buffer holds.
#[verifier::external_body]
fn buffer_as_slice(buffer: &heapless::Vec<u8, MAX_VERSION_LEN>) -> (bytes: &[u8])
    ensures
        bytes@ == buffer_bytes(*buffer),
{
    buffer.as_slice()
}

/// A version identifier: a byte sequence of at most [`MAX_VERSION_LEN`] bytes.
pub struct Version {
    buffer: heapless::Vec<u8, MAX_VERSION_LEN>,
}

impl View for Version {
    type V = Seq<u8>;

    closed spec fn view(&self) -> Seq<u8> {
        buffer_bytes(self.buffer)
    }
}

/// Whether a byte sequence is short enough to be a version identifier.
pub open spec fn fits(bytes: Seq<u8>) -> bool {
    bytes.len() <= MAX_VERSION_LEN
}

impl Version {
    #[verifier::type_invariant]
    spec fn bounded(self) -> bool {
        fits(buffer_bytes(self.buffer))
    }

    /// Copies `bytes` into a version identifier. A sequence that is too long
    /// gives `None`.
    pub fn from_bytes(bytes: &[u8]) -> (version: Option<Version>)
        ensures
            version is Some <==> fits(bytes@),
            version matches Some(v) ==> v@ == bytes@,
    {
        match buffer_from_slice(bytes) {
            Ok(buffer) => Some(Version { buffer }),
            Err(_) => None,
        }
    }

    /// The bytes of the identifier.
    pub fn as_bytes(&self) -> (bytes: &[u8])
        ensures
            bytes@ == self@,
            fits(bytes@),
    {
        proof {
            use_type_invariant(self);
        }
        buffer_as_slice(&self.buffer)
    }
}

} // verus!
