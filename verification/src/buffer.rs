//! The rules for a byte buffer that changes owner at the boundary.
//!
//! A buffer goes out as an address and a length. No bytes means the null
//! address and length zero; anything else is an allocation of exactly that
//! length, which the caller gives back once, with the same length.

use vstd::prelude::*;
use crate::error::QueryError;

verus! {

/// What is handed out for a byte result: the allocation, which stands for the
/// address and is `None` for the null address, and the length.
#[derive(Clone, Debug, PartialEq, Eq)]
pub struct ByteBuffer {
    pub data: Option<Vec<u8>>,
    pub len: usize,
}

impl ByteBuffer {
    /// The invariant of a buffer: the null address goes with length zero and
    /// with nothing else, and an allocation is as long as the length says.
    pub open spec fn wf(self) -> bool {
        &&& self.data is None <==> self.len == 0
        &&& self.data matches Some(bytes) ==> bytes@.len() == self.len
    }

    /// The bytes that the buffer holds.
    pub open spec fn contents(self) -> Seq<u8> {
        match self.data {
            Some(bytes) => bytes@,
            None => Seq::empty(),
        }
    }

    /// The buffer that stands for a failure or for no payload: the null
    /// address and length zero.
    pub fn null() -> (buffer: ByteBuffer)
        ensures
            buffer == (ByteBuffer { data: None, len: 0 }),
            buffer.wf(),
    {
        ByteBuffer { data: None, len: 0 }
    }
}

/// The buffer that goes out for some bytes.
pub open spec fn handed_out(bytes: Vec<u8>) -> ByteBuffer {
    if bytes.len() == 0 {
        ByteBuffer { data: None, len: 0 }
    } else {
        ByteBuffer { data: Some(bytes), len: bytes.len() }
    }
}

/// Whether a release frees anything: only an address that is not null, with
/// a length above zero, stands for an allocation.
pub open spec fn frees(is_null: bool, len: usize) -> bool {
    !is_null && len > 0
}

/// Prepares bytes for the hand-over: the null address and length zero for no
/// bytes, else the bytes themselves with their length.
pub fn vec_to_raw(bytes: Vec<u8>) -> (buffer: ByteBuffer)
    ensures
        buffer == handed_out(bytes),
        buffer.wf(),
        buffer.contents() == bytes@,
{
    if bytes.len() == 0 {
        return ByteBuffer { data: None, len: 0 };
    }
    let len: usize = bytes.len();
    ByteBuffer { data: Some(bytes), len }
}

/// What crosses the boundary for a result: the bytes and no failure, or the
/// null buffer and the failure to report.
pub fn hand_over(result: Result<Vec<u8>, QueryError>) -> (out: (ByteBuffer, Option<QueryError>))
    ensures
        out.0.wf(),
        match result {
            Ok(bytes) => out.0 == handed_out(bytes) && out.1 is None,
            Err(error) => out.0 == (ByteBuffer { data: None, len: 0 }) && out.1 == Some(error),
        },
{
    match result {
        Ok(bytes) => (vec_to_raw(bytes), None),
        Err(error) => (ByteBuffer::null(), Some(error)),
    }
}

/// Decides a release: whether the address and the length that came back stand
/// for an allocation to free.
pub fn typedb_free_bytes(is_null: bool, len: usize) -> (release: bool)
    ensures
        release == frees(is_null, len),
{
    !is_null && len > 0
}

/// Release matches hand-over. A buffer that went out, coming back with the
/// address and the length it went out with, is freed exactly if it holds
/// bytes; what is freed then is an allocation of exactly that length, holding
/// exactly those bytes. The null buffer frees nothing.
pub proof fn lemma_release_matches_hand_over(bytes: Vec<u8>)
    ensures
        handed_out(bytes).wf(),
        handed_out(bytes).contents() == bytes@,
        frees(handed_out(bytes).data is None, handed_out(bytes).len) <==> bytes@.len() > 0,
        frees(handed_out(bytes).data is None, handed_out(bytes).len) ==> handed_out(bytes).data
            == Some(bytes) && handed_out(bytes).len == bytes@.len(),
        !frees(true, 0),
{
}

} // verus!
