//! The file stream: presents one immutable memory buffer to the host engine
//! as a readable, file-like resource.
//!
//! A fragment read hands out a byte range of the buffer and pins the stream by
//! taking one extra reference for the duration of host access; the matching
//! release drops it. The pin is a [`FileFragment`] token: minted by the read,
//! consumed exactly once by the release, so a release without a prior read or
//! a read without an eventual release cannot be written.

use vstd::prelude::*;

use crate::ComError;
use crate::object::{InterfaceId, ObjectControl};

verus! {

/// The ephemeral pin minted by a fragment read and retired by the matching
/// release. Deliberately neither copyable nor clonable: each read is paired
/// with exactly one release.
#[derive(Debug)]
pub struct FileFragment {
    /// Where the fragment starts in the buffer.
    pub offset: u64,
    /// How many bytes it spans.
    pub length: u64,
}

/// A plugin object that answers the engine's stream protocol over one
/// immutable memory font buffer.
pub struct FontFileStream {
    /// The shared plugin-object runtime state.
    pub control: ObjectControl,
    /// The font bytes. Never mutated after construction.
    pub buffer: Vec<u8>,
    /// A logical timestamp captured once at construction, constant
    /// thereafter.
    pub creation_time: u64,
}

impl FontFileStream {
    /// Wraps a buffer. `creation_time` is the moment of construction on the
    /// host's clock; the stream only ever replays it.
    pub fn new(buffer: Vec<u8>, creation_time: u64) -> (r: FontFileStream)
        ensures
            r.buffer@ == buffer@,
            r.creation_time == creation_time,
            r.control.ref_count == 1,
    {
        FontFileStream { control: ObjectControl::new(), buffer, creation_time }
    }

    /// The capabilities a stream can be addressed through.
    pub open spec fn supports(iid: InterfaceId) -> bool {
        iid is Unknown || iid is FontFileStream
    }

    /// Capability query: a supported interface yields a newly incremented
    /// reference, any other leaves the object untouched.
    pub fn query_interface(&mut self, iid: InterfaceId) -> (r: Result<(), ComError>)
        requires
            1 <= old(self).control.ref_count < u64::MAX,
        ensures
            Self::supports(iid) ==> r is Ok && final(self).control.ref_count == old(self).control.ref_count + 1,
            !Self::supports(iid) ==> r == Err::<(), ComError>(ComError::NoInterface) && *final(self)
                == *old(self),
            final(self).buffer@ == old(self).buffer@,
            final(self).creation_time == old(self).creation_time,
    {
        self.control.query(iid == InterfaceId::Unknown || iid == InterfaceId::FontFileStream)
    }

    /// The buffer length, in bytes.
    pub fn get_file_size(&self) -> (r: u64)
        ensures
            r == self.buffer@.len(),
    {
        self.buffer.len() as u64
    }

    /// The logical timestamp captured at construction.
    pub fn get_last_write_time(&self) -> (r: u64)
        ensures
            r == self.creation_time,
    {
        self.creation_time
    }

    /// The half-open-interval rule a fragment read is held to: the start may
    /// sit anywhere up to and including the end of the buffer, and the range
    /// must not run past it. A zero-length read at the very end succeeds; one
    /// byte further is out of bounds.
    pub open spec fn read_in_bounds(self, offset: u64, length: u64) -> bool {
        offset <= self.buffer@.len() && offset + length <= self.buffer@.len()
    }

    /// Reads a byte range: in bounds, mints a fragment token and pins the
    /// stream with one extra reference; out of bounds, reports exactly
    /// `OutOfBounds` and changes nothing.
    pub fn read_file_fragment(&mut self, offset: u64, length: u64) -> (r: Result<
        FileFragment,
        ComError,
    >)
        requires
            1 <= old(self).control.ref_count < u64::MAX,
        ensures
            r is Ok <==> old(self).read_in_bounds(offset, length),
            r matches Ok(f) ==> f.offset == offset && f.length == length && final(self).control.ref_count == old(self).control.ref_count + 1,
            r is Err ==> r == Err::<FileFragment, ComError>(ComError::OutOfBounds) && *final(self)
                == *old(self),
            final(self).buffer@ == old(self).buffer@,
            final(self).creation_time == old(self).creation_time,
    {
        let size = self.buffer.len() as u64;
        if offset > size || length > size - offset {
            Err(ComError::OutOfBounds)
        } else {
            self.control.add_ref();
            Ok(FileFragment { offset, length })
        }
    }

    /// A copy of the bytes a fragment spans. (The host reads them in place;
    /// the copy is the verifiable view of that access.)
    pub fn fragment_bytes(&self, fragment: &FileFragment) -> (r: Vec<u8>)
        requires
            self.read_in_bounds(fragment.offset, fragment.length),
        ensures
            r@ == self.buffer@.subrange(
                fragment.offset as int,
                fragment.offset + fragment.length,
            ),
    {
        let size: usize = self.buffer.len();
        let off: usize = fragment.offset as usize;
        let cnt: usize = fragment.length as usize;
        let mut out: Vec<u8> = Vec::new();
        let mut i: usize = 0;
        while i < cnt
            invariant
                0 <= i <= cnt,
                off == fragment.offset,
                cnt == fragment.length,
                size == self.buffer@.len(),
                off + cnt <= size,
                out@ =~= self.buffer@.subrange(off as int, off + i),
            decreases cnt - i,
        {
            proof {
                assert(self.buffer@.subrange(off as int, off + i + 1) =~= self.buffer@.subrange(
                    off as int,
                    off + i,
                ).push(self.buffer@[off + i]));
            }
            out.push(self.buffer[off + i]);
            i = i + 1;
        }
        out
    }

    /// Retires a fragment token, dropping the pinning reference taken by the
    /// read that minted it. Returns the new count; the caller that receives
    /// zero destroys the stream.
    pub fn release_file_fragment(&mut self, fragment: FileFragment) -> (r: u64)
        requires
            old(self).control.ref_count >= 1,
        ensures
            final(self).control.ref_count == old(self).control.ref_count - 1,
            r == final(self).control.ref_count,
            final(self).buffer@ == old(self).buffer@,
            final(self).creation_time == old(self).creation_time,
    {
        let _ = fragment;
        self.control.release()
    }
}

} // verus!
