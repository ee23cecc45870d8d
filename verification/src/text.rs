//! Rendering models and tactics to text through the engine's pretty-printer.

use vstd::prelude::*;

verus! {

/// What the engine's pretty-printer handed back for a model or a tactic.
pub enum PrinterOutput {
    /// The printer returned no string at all.
    Null,
    /// The printer returned bytes that are not valid text.
    NotText,
    /// The printed text.
    Text(String),
}

/// A formatting failure: the engine could not render the object to text.
/// Distinct from an absent value and from a tactic-application failure.
#[derive(Clone, Copy, Debug, PartialEq, Eq, Structural)]
pub struct RenderError;

/// Rendering a model or a tactic to text fails exactly when the printer
/// returned no string or bytes that are not valid text; otherwise it is the
/// printed text, unchanged.
pub fn render_text(p: PrinterOutput) -> (r: Result<String, RenderError>)
    ensures
        p is Null ==> r is Err,
        p is NotText ==> r is Err,
        p matches PrinterOutput::Text(s) ==> r matches Ok(t) && t@ == s@,
{
    match p {
        PrinterOutput::Text(s) => Ok(s),
        PrinterOutput::Null => Err(RenderError),
        PrinterOutput::NotText => Err(RenderError),
    }
}

} // verus!
