//! The two loaders of the chain: the file loader that turns the reserved file
//! tag into a stream over the memory buffer, and the collection loader that
//! turns the reserved collection tag into an enumerator over the one font
//! file.
//!
//! Each loader recognizes exactly one reserved byte-string tag. A callback
//! with any other reference key fails with exactly `InvalidArgument`, the
//! category the engine's control flow depends on.

use vstd::prelude::*;

use crate::ComError;
use crate::enumerator::FontFileEnumerator;
use crate::object::{InterfaceId, ObjectControl};
use crate::stream::FontFileStream;

verus! {

/// The reserved tag that identifies "the in-memory font resource" to the file
/// loader: the bytes of `MEMORY_FILE`.
pub open spec fn memory_file_tag() -> Seq<u8> {
    seq![77u8, 69u8, 77u8, 79u8, 82u8, 89u8, 95u8, 70u8, 73u8, 76u8, 69u8]
}

/// The reserved tag that identifies "the in-memory collection" to the
/// collection loader: the bytes of `MEMORY_COLLECTION`.
pub open spec fn memory_collection_tag() -> Seq<u8> {
    seq![
        77u8, 69u8, 77u8, 79u8, 82u8, 89u8, 95u8, 67u8, 79u8, 76u8, 76u8, 69u8, 67u8, 84u8, 73u8,
        79u8, 78u8,
    ]
}

/// The file tag as bytes, for registering the resource with the engine.
pub fn memory_file_tag_bytes() -> (r: Vec<u8>)
    ensures
        r@ == memory_file_tag(),
{
    let mut v: Vec<u8> = Vec::new();
    v.push(77);
    v.push(69);
    v.push(77);
    v.push(79);
    v.push(82);
    v.push(89);
    v.push(95);
    v.push(70);
    v.push(73);
    v.push(76);
    v.push(69);
    assert(v@ =~= memory_file_tag());
    v
}

/// The collection tag as bytes, for registering the collection with the
/// engine.
pub fn memory_collection_tag_bytes() -> (r: Vec<u8>)
    ensures
        r@ == memory_collection_tag(),
{
    let mut v: Vec<u8> = Vec::new();
    v.push(77);
    v.push(69);
    v.push(77);
    v.push(79);
    v.push(82);
    v.push(89);
    v.push(95);
    v.push(67);
    v.push(79);
    v.push(76);
    v.push(76);
    v.push(69);
    v.push(67);
    v.push(84);
    v.push(73);
    v.push(79);
    v.push(78);
    assert(v@ =~= memory_collection_tag());
    v
}

/// Byte-for-byte equality of two slices.
pub fn bytes_eq(a: &[u8], b: &[u8]) -> (r: bool)
    ensures
        r <==> a@ =~= b@,
{
    if a.len() != b.len() {
        return false;
    }
    let mut i: usize = 0;
    while i < a.len()
        invariant
            a@.len() == b@.len(),
            0 <= i <= a@.len(),
            forall|k: int| 0 <= k < i ==> a@[k] == b@[k],
        decreases a@.len() - i,
    {
        if a[i] != b[i] {
            return false;
        }
        i = i + 1;
    }
    true
}

/// A copy of a byte buffer. Each loader-chain object holds its own copy of
/// the shared memory font buffer; since the buffer is never mutated, the
/// copies stand for the one shared value.
pub fn copy_bytes(src: &Vec<u8>) -> (r: Vec<u8>)
    ensures
        r@ == src@,
{
    let mut out: Vec<u8> = Vec::new();
    let mut i: usize = 0;
    while i < src.len()
        invariant
            0 <= i <= src@.len(),
            out@ =~= src@.take(i as int),
        decreases src@.len() - i,
    {
        out.push(src[i]);
        i = i + 1;
    }
    assert(src@.take(src@.len() as int) =~= src@);
    out
}

/// A plugin object that wraps the memory font buffer and hands out streams
/// over it when the engine presents the reserved file tag.
pub struct FontFileLoader {
    /// The shared plugin-object runtime state.
    pub control: ObjectControl,
    /// The font bytes this loader serves. Never mutated after construction.
    pub buffer: Vec<u8>,
}

impl FontFileLoader {
    /// Wraps a buffer.
    pub fn new(buffer: Vec<u8>) -> (r: FontFileLoader)
        ensures
            r.buffer@ == buffer@,
            r.control.ref_count == 1,
    {
        FontFileLoader { control: ObjectControl::new(), buffer }
    }

    /// The capabilities a file loader can be addressed through.
    pub open spec fn supports(iid: InterfaceId) -> bool {
        iid is Unknown || iid is FontFileLoader
    }

    /// Capability query: a supported interface yields a newly incremented
    /// reference, any other leaves the object untouched.
    pub fn query_interface(&mut self, iid: InterfaceId) -> (r: Result<(), ComError>)
        requires
            1 <= old(self).control.ref_count < u64::MAX,
        ensures
            Self::supports(iid) ==> r is Ok && final(self).control.ref_count == old(self).control.ref_count + 1,
            !Self::supports(iid) ==> r == Err::<(), ComError>(ComError::NoInterface) && *final(self)
                == *old(self),
            final(self).buffer@ == old(self).buffer@,
    {
        self.control.query(iid == InterfaceId::Unknown || iid == InterfaceId::FontFileLoader)
    }

    /// The loader callback: a reference key that exactly equals the reserved
    /// file tag yields a fresh stream over the buffer; any other key fails
    /// with exactly `InvalidArgument`. `creation_time` is the host clock's
    /// "now", stamped onto the stream.
    pub fn create_stream_from_key(&self, key: &[u8], creation_time: u64) -> (r: Result<
        FontFileStream,
        ComError,
    >)
        ensures
            r is Ok <==> key@ =~= memory_file_tag(),
            r matches Ok(s) ==> s.buffer@ == self.buffer@ && s.creation_time == creation_time
                && s.control.ref_count == 1,
            r is Err ==> r == Err::<FontFileStream, ComError>(ComError::InvalidArgument),
    {
        let tag = memory_file_tag_bytes();
        if !bytes_eq(key, tag.as_slice()) {
            return Err(ComError::InvalidArgument);
        }
        Ok(FontFileStream::new(copy_bytes(&self.buffer), creation_time))
    }
}

/// A plugin object that builds the enumerator of the one-file in-memory
/// collection when the engine presents the reserved collection tag.
pub struct FontCollectionLoader {
    /// The shared plugin-object runtime state.
    pub control: ObjectControl,
    /// The host-engine handle of the one font file the collection holds.
    pub font_file: u64,
}

impl FontCollectionLoader {
    /// Wraps the one font file.
    pub fn new(font_file: u64) -> (r: FontCollectionLoader)
        ensures
            r.font_file == font_file,
            r.control.ref_count == 1,
    {
        FontCollectionLoader { control: ObjectControl::new(), font_file }
    }

    /// The capabilities a collection loader can be addressed through.
    pub open spec fn supports(iid: InterfaceId) -> bool {
        iid is Unknown || iid is FontCollectionLoader
    }

    /// Capability query: a supported interface yields a newly incremented
    /// reference, any other leaves the object untouched.
    pub fn query_interface(&mut self, iid: InterfaceId) -> (r: Result<(), ComError>)
        requires
            1 <= old(self).control.ref_count < u64::MAX,
        ensures
            Self::supports(iid) ==> r is Ok && final(self).control.ref_count == old(self).control.ref_count + 1,
            !Self::supports(iid) ==> r == Err::<(), ComError>(ComError::NoInterface) && *final(self)
                == *old(self),
            final(self).font_file == old(self).font_file,
    {
        self.control.query(iid == InterfaceId::Unknown || iid == InterfaceId::FontCollectionLoader)
    }

    /// The loader callback: a reference key that exactly equals the reserved
    /// collection tag yields a fresh enumerator wired to the one font file;
    /// any other key fails with exactly `InvalidArgument`.
    pub fn create_enumerator_from_key(&self, key: &[u8]) -> (r: Result<
        FontFileEnumerator,
        ComError,
    >)
        ensures
            r is Ok <==> key@ =~= memory_collection_tag(),
            r matches Ok(e) ==> e.font_file == self.font_file && e.state is Start
                && e.control.ref_count == 1,
            r is Err ==> r == Err::<FontFileEnumerator, ComError>(ComError::InvalidArgument),
    {
        let tag = memory_collection_tag_bytes();
        if !bytes_eq(key, tag.as_slice()) {
            return Err(ComError::InvalidArgument);
        }
        Ok(FontFileEnumerator::new(self.font_file))
    }
}

} // verus!
