//! How the text of `rename = ".."` is read as an identifier.

use vstd::prelude::*;

use crate::reading::readable;

verus! {

/// Parses `text` with `syn::parse_str::<syn::Ident>`.
///
/// Not verified, and nothing is claimed of what comes back: `syn` may read
/// one text differently inside a macro expansion and outside of one. The
/// identifier is handed on as the text that `Ident` displays, an error as the
/// text that `syn::Error` displays. A text of many brackets is kept away,
/// since `syn` descends once for each that is open.
#[verifier::external_body]
pub(crate) fn read_ident(text: &str) -> Result<String, String>
    requires
        readable(text),
{
    match syn::parse_str::<syn::Ident>(text) {
        Ok(ident) => Ok(ident.to_string()),
        Err(e) => Err(e.to_string()),
    }
}

} // verus!
