//! The file enumerator: a three-state cursor over the single font file of one
//! in-memory collection.
//!
//! The engine walks it as `move_next` / `get_current_font_file` pairs. The
//! first `move_next` lands on the one file and reports it available; the
//! second moves past it; after that the cursor stays at the end. The current
//! file can be taken only while the cursor is on it.

use vstd::prelude::*;

use crate::ComError;
use crate::object::{InterfaceId, ObjectControl};

verus! {

/// Where the cursor stands.
#[derive(Clone, Copy, Debug, PartialEq, Eq, Structural)]
pub enum EnumeratorState {
    /// Before the one file; nothing current yet.
    Start,
    /// On the one file; it is current.
    AtFontFile,
    /// Past the one file; nothing is current any more.
    End,
}

/// A plugin object enumerating the one font file of an in-memory collection.
pub struct FontFileEnumerator {
    /// The shared plugin-object runtime state.
    pub control: ObjectControl,
    /// The host-engine handle of the one wrapped font file.
    pub font_file: u64,
    /// Where the cursor stands.
    pub state: EnumeratorState,
}

impl FontFileEnumerator {
    /// A fresh cursor, before its one file.
    pub fn new(font_file: u64) -> (r: FontFileEnumerator)
        ensures
            r.font_file == font_file,
            r.state is Start,
            r.control.ref_count == 1,
    {
        FontFileEnumerator {
            control: ObjectControl::new(),
            font_file,
            state: EnumeratorState::Start,
        }
    }

    /// The capabilities an enumerator can be addressed through.
    pub open spec fn supports(iid: InterfaceId) -> bool {
        iid is Unknown || iid is FontFileEnumerator
    }

    /// Capability query: a supported interface yields a newly incremented
    /// reference, any other leaves the object untouched.
    pub fn query_interface(&mut self, iid: InterfaceId) -> (r: Result<(), ComError>)
        requires
            1 <= old(self).control.ref_count < u64::MAX,
        ensures
            Self::supports(iid) ==> r is Ok && final(self).control.ref_count == old(self).control.ref_count + 1,
            !Self::supports(iid) ==> r == Err::<(), ComError>(ComError::NoInterface) && *final(self)
                == *old(self),
            final(self).font_file == old(self).font_file,
            final(self).state == old(self).state,
    {
        self.control.query(iid == InterfaceId::Unknown || iid == InterfaceId::FontFileEnumerator)
    }

    /// Advances the cursor and reports whether a current file is available:
    /// true exactly on the step that lands on the one file.
    pub fn move_next(&mut self) -> (has_current: bool)
        ensures
            old(self).state is Start ==> final(self).state is AtFontFile && has_current,
            old(self).state is AtFontFile ==> final(self).state is End && !has_current,
            old(self).state is End ==> final(self).state is End && !has_current,
            final(self).font_file == old(self).font_file,
            final(self).control == old(self).control,
    {
        match self.state {
            EnumeratorState::Start => {
                self.state = EnumeratorState::AtFontFile;
                true
            },
            EnumeratorState::AtFontFile => {
                self.state = EnumeratorState::End;
                false
            },
            EnumeratorState::End => false,
        }
    }

    /// The current file's handle: available exactly while the cursor is on
    /// the one file; in any other state the protocol was misused and the
    /// report is exactly `OutOfBounds`.
    pub fn get_current_font_file(&self) -> (r: Result<u64, ComError>)
        ensures
            self.state is AtFontFile ==> r == Ok::<u64, ComError>(self.font_file),
            !(self.state is AtFontFile) ==> r == Err::<u64, ComError>(ComError::OutOfBounds),
    {
        if let EnumeratorState::AtFontFile = self.state {
            Ok(self.font_file)
        } else {
            Err(ComError::OutOfBounds)
        }
    }
}

} // verus!
