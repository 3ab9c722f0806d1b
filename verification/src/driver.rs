//! The driver: validates that the input function is suspending, deep-copies
//! it, and packages the suspending original together with the rewritten
//! blocking copy as two mutually exclusive emissions.

use vstd::prelude::*;

use crate::ast::{clone_fn_def, FnDef, FnDefModel};
use crate::rewrite::{
    body_has_suspension, lemma_strip_body_idempotent, lemma_strip_body_no_suspension,
    rewrite_body, strip_body,
};

verus! {

/// The blocking variant derived from a function definition: the suspending
/// marker cleared, the signature otherwise unchanged, and every suspension
/// point removed from the body.
pub open spec fn blocking_of(m: FnDefModel) -> FnDefModel {
    FnDefModel { suspending: false, sig: m.sig, body: strip_body(m.body) }
}

/// The same definition with the suspending marker set again, as when a
/// blocking variant is fed back into the transform.
pub open spec fn resuspended(m: FnDefModel) -> FnDefModel {
    FnDefModel { suspending: true, sig: m.sig, body: m.body }
}

/// The two conditionally compiled emissions that replace the annotated
/// function: the untouched suspending original, and the rewritten blocking
/// copy.  The build configuration makes exactly one of them visible.
#[derive(Debug, PartialEq, Eq)]
pub struct Emission {
    pub suspending_variant: FnDef,
    pub blocking_variant: FnDef,
}

/// Mathematical model of an emission pair.
pub struct EmissionModel {
    pub suspending_variant: FnDefModel,
    pub blocking_variant: FnDefModel,
}

impl View for Emission {
    type V = EmissionModel;

    open spec fn view(&self) -> EmissionModel {
        EmissionModel {
            suspending_variant: self.suspending_variant@,
            blocking_variant: self.blocking_variant@,
        }
    }
}

/// The one error of the transform: the annotation was applied to a
/// function that is not suspending.  It is fatal at build time; the caller
/// aborts compilation with [`MacroError::message`] as the diagnostic.
#[derive(Debug, PartialEq, Eq)]
pub enum MacroError {
    NotSuspending,
}

/// The diagnostic for the misuse error.
pub open spec fn misuse_diagnostic() -> Seq<char> {
    "The gemini macro requires that you put the attribute on an async function"@
}

impl MacroError {
    /// The diagnostic text to abort compilation with.
    pub fn message(&self) -> (s: String)
        ensures
            s@ == misuse_diagnostic(),
    {
        String::from_str(
            "The gemini macro requires that you put the attribute on an async function",
        )
    }
}

/// Expands one annotated function definition.  Any arguments given to the
/// annotation itself are ignored, so none are taken here.
///
/// A suspending definition yields the emission pair: the original exactly
/// as given, and the blocking variant with the marker cleared and every
/// suspension point removed.  A non-suspending definition is a misuse and
/// yields the error, and nothing is emitted.
pub fn expand(f: &FnDef) -> (r: Result<Emission, MacroError>)
    ensures
        match r {
            Ok(em) => f@.suspending && em@.suspending_variant == f@ && em@.blocking_variant
                == blocking_of(f@),
            Err(err) => !f@.suspending && err == MacroError::NotSuspending,
        },
{
    if !f.suspending {
        return Err(MacroError::NotSuspending);
    }
    let original = clone_fn_def(f);
    let copy = clone_fn_def(f);
    let blocking = FnDef { suspending: false, sig: copy.sig, body: rewrite_body(copy.body) };
    Ok(Emission { suspending_variant: original, blocking_variant: blocking })
}

/// Law: the transform is idempotent.  One pass leaves no suspension point,
/// so feeding the blocking variant back in, with the suspending marker
/// artificially set, derives the very same blocking variant again.
pub proof fn lemma_expand_idempotent(m: FnDefModel)
    ensures
        blocking_of(resuspended(blocking_of(m))) == blocking_of(m),
{
    lemma_strip_body_idempotent(m.body);
}

/// Law: the emitted blocking body never contains a suspension expression
/// or a suspension block.
pub proof fn lemma_blocking_variant_no_suspension(m: FnDefModel)
    ensures
        !body_has_suspension(blocking_of(m).body),
{
    lemma_strip_body_no_suspension(m.body);
}

} // verus!
