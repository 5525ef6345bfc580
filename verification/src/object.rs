//! The shared runtime of every plugin object: a reference count plus a
//! capability query.
//!
//! Every loader-chain or geometry-sink instance carries an [`ObjectControl`].
//! The count starts at one when the object is constructed; `add_ref`
//! increments it and `release` decrements it. The holder that observes the
//! count reach zero destroys the object, so both operations demand a live
//! object (a call after the count reached zero is a contract violation of the
//! caller, not a recoverable error). A capability query on an implemented
//! interface returns a newly incremented reference; on any other interface it
//! reports `NoInterface` and leaves the count untouched.

use vstd::prelude::*;

use crate::ComError;

verus! {

/// A logical capability identifier: one per interface that a plugin object
/// can be addressed through.
#[derive(Clone, Copy, Debug, PartialEq, Eq, Structural)]
pub enum InterfaceId {
    /// The base capability that every plugin object implements.
    Unknown,
    /// The loader that turns a reserved key into a byte stream.
    FontFileLoader,
    /// The stream view of one memory font buffer.
    FontFileStream,
    /// The one-file cursor handed to the collection builder.
    FontFileEnumerator,
    /// The loader that turns a reserved key into a file enumerator.
    FontCollectionLoader,
    /// The sink that receives outline-tessellation callbacks.
    GeometrySink,
}

/// The reference count shared by every plugin object.
pub struct ObjectControl {
    /// How many references are outstanding. The object is alive exactly while
    /// this is at least one.
    pub ref_count: u64,
}

impl ObjectControl {
    /// A freshly constructed object starts with one reference, owned by its
    /// creator.
    pub fn new() -> (r: ObjectControl)
        ensures
            r.ref_count == 1,
    {
        ObjectControl { ref_count: 1 }
    }

    /// Takes one more reference and returns the new count.
    pub fn add_ref(&mut self) -> (r: u64)
        requires
            1 <= old(self).ref_count < u64::MAX,
        ensures
            final(self).ref_count == old(self).ref_count + 1,
            r == final(self).ref_count,
    {
        self.ref_count = self.ref_count + 1;
        self.ref_count
    }

    /// Drops one reference and returns the new count. The caller that
    /// receives zero is the last holder and must destroy the object.
    pub fn release(&mut self) -> (r: u64)
        requires
            old(self).ref_count >= 1,
        ensures
            final(self).ref_count == old(self).ref_count - 1,
            r == final(self).ref_count,
    {
        self.ref_count = self.ref_count - 1;
        self.ref_count
    }

    /// Answers a capability query: if the concrete object implements the
    /// requested interface, a new reference is taken and the query succeeds;
    /// otherwise nothing changes and `NoInterface` is reported.
    pub fn query(&mut self, implemented: bool) -> (r: Result<(), ComError>)
        requires
            1 <= old(self).ref_count < u64::MAX,
        ensures
            implemented ==> r is Ok && final(self).ref_count == old(self).ref_count + 1,
            !implemented ==> r == Err::<(), ComError>(ComError::NoInterface)
                && *final(self) == *old(self),
    {
        if implemented {
            self.ref_count = self.ref_count + 1;
            Ok(())
        } else {
            Err(ComError::NoInterface)
        }
    }
}

} // verus!
