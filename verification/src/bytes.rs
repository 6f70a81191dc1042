//! A bounded byte container for packet payloads.
//!
//! Payloads carried through the transport are capped at a fixed capacity;
//! appending past it fails instead of growing, so the embedded side can
//! plan its buffers.

use crate::errors::TransError;
use crate::widgets::WidgetId;
use vstd::prelude::*;

verus! {

/// Capacity of a [`ByteArray`], in bytes.
pub const BYTE_ARRAY_CAPACITY: usize = 256;

/// A byte vector that never holds more than [`BYTE_ARRAY_CAPACITY`] bytes.
#[derive(Debug, PartialEq, Eq)]
pub struct ByteArray {
    bytes: Vec<u8>,
}

impl View for ByteArray {
    type V = Seq<u8>;

    closed spec fn view(&self) -> Seq<u8> {
        self.bytes@
    }
}

impl Clone for ByteArray {
    fn clone(&self) -> (r: Self)
        ensures
            r@ == self@,
    {
        let copied = vstd::slice::slice_to_vec(self.bytes.as_slice());
        ByteArray { bytes: copied }
    }
}

impl Default for ByteArray {
    /// The empty payload.
    fn default() -> (r: Self)
        ensures
            r@ == Seq::<u8>::empty(),
            r.inv(),
    {
        ByteArray { bytes: Vec::new() }
    }
}

impl ByteArray {
    /// The container never exceeds its capacity.
    pub open spec fn inv(&self) -> bool {
        self@.len() <= BYTE_ARRAY_CAPACITY
    }

    /// The empty payload.
    pub fn new() -> (r: ByteArray)
        ensures
            r@ == Seq::<u8>::empty(),
            r.inv(),
    {
        ByteArray { bytes: Vec::new() }
    }

    /// Take ownership of `bytes` if they fit the capacity; reject them
    /// otherwise.
    pub fn from_vec(bytes: Vec<u8>) -> (r: Result<ByteArray, TransError>)
        ensures
            bytes@.len() <= BYTE_ARRAY_CAPACITY <==> r is Ok,
            r matches Ok(a) ==> a@ == bytes@ && a.inv(),
            r matches Err(e) ==> e == TransError::InternalError,
    {
        if bytes.len() <= BYTE_ARRAY_CAPACITY {
            Ok(ByteArray { bytes })
        } else {
            Err(TransError::InternalError)
        }
    }

    /// Number of bytes held.
    pub fn len(&self) -> (r: usize)
        ensures
            r == self@.len(),
    {
        self.bytes.len()
    }

    /// Append one byte; fails, changing nothing, when the container is full.
    pub fn push(&mut self, b: u8) -> (r: Result<(), TransError>)
        requires
            old(self).inv(),
        ensures
            final(self).inv(),
            old(self)@.len() < BYTE_ARRAY_CAPACITY <==> r is Ok,
            r is Ok ==> final(self)@ == old(self)@.push(b),
            r is Err ==> final(self)@ == old(self)@ && r == Err::<(), TransError>(
                TransError::InternalError,
            ),
    {
        if self.bytes.len() < BYTE_ARRAY_CAPACITY {
            self.bytes.push(b);
            Ok(())
        } else {
            Err(TransError::InternalError)
        }
    }

    /// Append a run of bytes; fails, changing nothing, when they would not
    /// all fit.
    pub fn extend_from_slice(&mut self, other: &[u8]) -> (r: Result<(), TransError>)
        requires
            old(self).inv(),
        ensures
            final(self).inv(),
            old(self)@.len() + other@.len() <= BYTE_ARRAY_CAPACITY <==> r is Ok,
            r is Ok ==> final(self)@ == old(self)@ + other@,
            r is Err ==> final(self)@ == old(self)@ && r == Err::<(), TransError>(
                TransError::InternalError,
            ),
    {
        if other.len() <= BYTE_ARRAY_CAPACITY - self.bytes.len() {
            self.bytes.extend_from_slice(other);
            assert(self@ =~= old(self)@ + other@);
            Ok(())
        } else {
            Err(TransError::InternalError)
        }
    }

    /// Borrow the bytes held.
    pub fn as_slice(&self) -> (r: &[u8])
        ensures
            r@ == self@,
    {
        self.bytes.as_slice()
    }
}

/// An opaque widget payload as the upper layer hands it to the transport:
/// an identifier and serialized widget data.
#[derive(Debug, PartialEq, Eq)]
pub struct Widget {
    pub id: WidgetId,
    pub data: ByteArray,
}

impl Clone for Widget {
    fn clone(&self) -> (r: Self)
        ensures
            r.id == self.id,
            r.data@ == self.data@,
    {
        Widget { id: self.id, data: self.data.clone() }
    }
}

impl Widget {
    pub fn new(id: WidgetId, data: ByteArray) -> (r: Self)
        ensures
            r.id == id,
            r.data == data,
    {
        Self { id, data }
    }
}

} // verus!
