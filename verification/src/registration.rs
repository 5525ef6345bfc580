//! The fixed call sequence of one memory-font registration, as a step
//! machine.
//!
//! Materializing a face from a memory buffer takes nine engine calls in a
//! fixed order: register the file loader, create the file reference, register
//! the collection loader, create the collection, take family 0, font 0,
//! create the face, then unregister the collection loader and the file
//! loader. The shell performs each call and reports whether it succeeded; the
//! machine here decides what follows. Any failure aborts the whole operation
//! at once — loaders already registered by the attempt are not rolled back, a
//! documented resource-accounting limitation — and only a run of nine
//! successes completes it.

use vstd::prelude::*;

verus! {

/// Where one registration stands: the engine call to make next, or its final
/// outcome.
#[derive(Clone, Copy, Debug, PartialEq, Eq, Structural)]
pub enum RegistrationStep {
    /// Register the file loader with the engine's global loader table.
    RegisterFileLoader,
    /// Create the font file reference for the reserved file tag.
    CreateFileReference,
    /// Register the collection loader with the global loader table.
    RegisterCollectionLoader,
    /// Create the custom collection for the reserved collection tag.
    CreateCollection,
    /// Take font family 0 of the collection.
    GetFontFamily,
    /// Take font 0 of the family.
    GetFont,
    /// Create the font face from the font.
    CreateFontFace,
    /// Unregister the collection loader.
    UnregisterCollectionLoader,
    /// Unregister the file loader.
    UnregisterFileLoader,
    /// A face was materialized.
    Complete,
    /// Some step failed; the operation is abandoned.
    Aborted,
}

/// The step after a successful engine call.
pub open spec fn registration_successor(step: RegistrationStep) -> RegistrationStep {
    match step {
        RegistrationStep::RegisterFileLoader => RegistrationStep::CreateFileReference,
        RegistrationStep::CreateFileReference => RegistrationStep::RegisterCollectionLoader,
        RegistrationStep::RegisterCollectionLoader => RegistrationStep::CreateCollection,
        RegistrationStep::CreateCollection => RegistrationStep::GetFontFamily,
        RegistrationStep::GetFontFamily => RegistrationStep::GetFont,
        RegistrationStep::GetFont => RegistrationStep::CreateFontFace,
        RegistrationStep::CreateFontFace => RegistrationStep::UnregisterCollectionLoader,
        RegistrationStep::UnregisterCollectionLoader => RegistrationStep::UnregisterFileLoader,
        RegistrationStep::UnregisterFileLoader => RegistrationStep::Complete,
        RegistrationStep::Complete => RegistrationStep::Complete,
        RegistrationStep::Aborted => RegistrationStep::Aborted,
    }
}

/// How many successful engine calls the step still needs to complete.
pub open spec fn steps_remaining(step: RegistrationStep) -> nat {
    match step {
        RegistrationStep::RegisterFileLoader => 9,
        RegistrationStep::CreateFileReference => 8,
        RegistrationStep::RegisterCollectionLoader => 7,
        RegistrationStep::CreateCollection => 6,
        RegistrationStep::GetFontFamily => 5,
        RegistrationStep::GetFont => 4,
        RegistrationStep::CreateFontFace => 3,
        RegistrationStep::UnregisterCollectionLoader => 2,
        RegistrationStep::UnregisterFileLoader => 1,
        RegistrationStep::Complete => 0,
        RegistrationStep::Aborted => 0,
    }
}

/// Where one engine call's outcome takes the registration: success moves to
/// the next step of the fixed sequence, any failure aborts the operation at
/// once.
pub fn advance_registration(step: RegistrationStep, succeeded: bool) -> (r: RegistrationStep)
    requires
        !(step is Complete),
        !(step is Aborted),
    ensures
        succeeded ==> r == registration_successor(step),
        !succeeded ==> r is Aborted,
{
    if !succeeded {
        RegistrationStep::Aborted
    } else {
        match step {
            RegistrationStep::RegisterFileLoader => RegistrationStep::CreateFileReference,
            RegistrationStep::CreateFileReference => RegistrationStep::RegisterCollectionLoader,
            RegistrationStep::RegisterCollectionLoader => RegistrationStep::CreateCollection,
            RegistrationStep::CreateCollection => RegistrationStep::GetFontFamily,
            RegistrationStep::GetFontFamily => RegistrationStep::GetFont,
            RegistrationStep::GetFont => RegistrationStep::CreateFontFace,
            RegistrationStep::CreateFontFace => RegistrationStep::UnregisterCollectionLoader,
            RegistrationStep::UnregisterCollectionLoader => RegistrationStep::UnregisterFileLoader,
            RegistrationStep::UnregisterFileLoader => RegistrationStep::Complete,
            RegistrationStep::Complete => RegistrationStep::Complete,
            RegistrationStep::Aborted => RegistrationStep::Aborted,
        }
    }
}

/// Where a whole run of call outcomes, applied in order from `step`, ends.
pub open spec fn run_registration(step: RegistrationStep, outcomes: Seq<bool>) -> RegistrationStep
    decreases outcomes.len(),
{
    if step is Complete || step is Aborted || outcomes.len() == 0 {
        step
    } else {
        run_registration(
            if outcomes[0] {
                registration_successor(step)
            } else {
                RegistrationStep::Aborted
            },
            outcomes.skip(1),
        )
    }
}

/// Registration is all or nothing: a run of engine-call outcomes completes it
/// exactly when the calls it still needs all succeeded, and one failure
/// anywhere before that leaves it aborted.
pub proof fn lemma_registration_all_or_nothing(step: RegistrationStep, outcomes: Seq<bool>)
    ensures
        run_registration(step, outcomes) is Complete <==> (steps_remaining(step)
            <= outcomes.len() && (forall|i: int|
            0 <= i < steps_remaining(step) ==> #[trigger] outcomes[i]) && (step is Complete
            || !(step is Aborted))),
    decreases outcomes.len(),
{
    if step is Complete || step is Aborted || outcomes.len() == 0 {
    } else {
        let next = if outcomes[0] {
            registration_successor(step)
        } else {
            RegistrationStep::Aborted
        };
        lemma_registration_all_or_nothing(next, outcomes.skip(1));
        assert(forall|i: int| 0 <= i < outcomes.len() - 1 ==> #[trigger] outcomes.skip(1)[i]
            == outcomes[i + 1]);
        if run_registration(step, outcomes) is Complete {
            assert(outcomes[0]);
            assert forall|i: int| 0 <= i < steps_remaining(step) implies #[trigger] outcomes[i] by {
                if i > 0 {
                    assert(outcomes.skip(1)[i - 1]);
                }
            }
        } else {
            if steps_remaining(step) <= outcomes.len() && (forall|i: int|
                0 <= i < steps_remaining(step) ==> #[trigger] outcomes[i]) {
                assert(outcomes[0]);
                assert(steps_remaining(next) == steps_remaining(step) - 1);
                assert(forall|i: int| 0 <= i < steps_remaining(next) ==> #[trigger] outcomes.skip(
                    1,
                )[i]);
                assert(run_registration(next, outcomes.skip(1)) is Complete);
            }
        }
    }
}

} // verus!
