//! The visibility of the generated `dissolve` method: the five levels that
//! `visibility = ".."` can ask for, and how its text is read.

use vstd::prelude::*;
use vstd::string::*;
use vstd::utf8::*;

use crate::reading::{brackets, lemma_brackets_bounded, readable, MAX_BRACKETS};
use crate::syntax::{MetaPath, MetaPathModel};

verus! {

/// The visibility of the generated method: one of the five that the derive
/// supports.
#[derive(Debug, Clone, Copy, PartialEq, Eq)]
pub enum Visibility {
    /// `"pub"`: public.
    Public,
    /// `"pub(crate)"`: within the crate.
    Crate,
    /// `"pub(super)"`: within the parent module.
    Super,
    /// `"pub(self)"`: within the module, written out.
    Module,
    /// `""`: nothing written, private to the module.
    Inherited,
}

impl View for Visibility {
    type V = Visibility;

    open spec fn view(&self) -> Visibility {
        *self
    }
}

/// A visibility as Rust's grammar has it, and as the parser reads it.
#[derive(Debug, Clone, PartialEq, Eq)]
pub enum VisibilitySyntax {
    /// `pub`
    Public,
    /// `pub(path)`, or `pub(in path)` where `in_token` is set.
    Restricted { in_token: bool, path: MetaPath },
    /// Nothing written.
    Inherited,
}

/// The mathematical value of a [`VisibilitySyntax`].
pub enum VisibilitySyntaxModel {
    Public,
    Restricted { in_token: bool, path: MetaPathModel },
    Inherited,
}

impl View for VisibilitySyntax {
    type V = VisibilitySyntaxModel;

    open spec fn view(&self) -> VisibilitySyntaxModel {
        match self {
            VisibilitySyntax::Public => VisibilitySyntaxModel::Public,
            VisibilitySyntax::Restricted { in_token, path } => VisibilitySyntaxModel::Restricted {
                in_token: *in_token,
                path: path@,
            },
            VisibilitySyntax::Inherited => VisibilitySyntaxModel::Inherited,
        }
    }
}

impl VisibilitySyntax {
    /// A copy of what was read.
    pub fn duplicate(&self) -> (r: VisibilitySyntax)
        ensures
            r@ == self@,
    {
        match self {
            VisibilitySyntax::Public => VisibilitySyntax::Public,
            VisibilitySyntax::Restricted { in_token, path } => VisibilitySyntax::Restricted {
                in_token: *in_token,
                path: path.duplicate(),
            },
            VisibilitySyntax::Inherited => VisibilitySyntax::Inherited,
        }
    }
}

/// The supported visibility that `syntax` writes, if it writes one: `pub`,
/// nothing, or a restriction without `in` to the one word `crate`, `super`
/// or `self`. A restriction to any other path is none of the five.
pub open spec fn recognised(syntax: VisibilitySyntaxModel) -> Option<Visibility> {
    match syntax {
        VisibilitySyntaxModel::Public => Some(Visibility::Public),
        VisibilitySyntaxModel::Inherited => Some(Visibility::Inherited),
        VisibilitySyntaxModel::Restricted { in_token, path } => if in_token {
            None
        } else if path.is_ident("crate"@) {
            Some(Visibility::Crate)
        } else if path.is_ident("super"@) {
            Some(Visibility::Super)
        } else if path.is_ident("self"@) {
            Some(Visibility::Module)
        } else {
            None
        },
    }
}

impl Visibility {
    /// The supported visibility that `syntax` writes, or `None` where it
    /// writes none of the five.
    pub fn recognise(syntax: &VisibilitySyntax) -> (r: Option<Visibility>)
        ensures
            r == recognised(syntax@),
    {
        match syntax {
            VisibilitySyntax::Public => Some(Visibility::Public),
            VisibilitySyntax::Inherited => Some(Visibility::Inherited),
            VisibilitySyntax::Restricted { in_token, path } => {
                if *in_token {
                    None
                } else if path.is_ident("crate") {
                    Some(Visibility::Crate)
                } else if path.is_ident("super") {
                    Some(Visibility::Super)
                } else if path.is_ident("self") {
                    Some(Visibility::Module)
                } else {
                    None
                }
            },
        }
    }
}

/// `pub(keyword)` as the parser reads it: a restriction without `in` to the
/// one word `keyword`.
pub open spec fn restricted_to(keyword: Seq<char>) -> VisibilitySyntaxModel {
    VisibilitySyntaxModel::Restricted {
        in_token: false,
        path: MetaPathModel { leading_colon: false, segments: seq![keyword] },
    }
}

/// The visibility that `text` asks for where it is one of the five supported
/// spellings, letter for letter.
pub open spec fn supported(text: Seq<char>) -> Option<Visibility> {
    if text == "pub"@ {
        Some(Visibility::Public)
    } else if text == "pub(crate)"@ {
        Some(Visibility::Crate)
    } else if text == "pub(super)"@ {
        Some(Visibility::Super)
    } else if text == "pub(self)"@ {
        Some(Visibility::Module)
    } else if text == ""@ {
        Some(Visibility::Inherited)
    } else {
        None
    }
}

/// What holds of every answer of the parser for `text`: each of the five
/// supported spellings is read as what it writes. Of any other text nothing
/// is known.
pub open spec fn known_reading(text: Seq<char>, reading: Result<VisibilitySyntaxModel, Seq<char>>)
    -> bool {
    &&& text == "pub"@ ==> reading == Ok::<VisibilitySyntaxModel, Seq<char>>(
        VisibilitySyntaxModel::Public,
    )
    &&& text == "pub(crate)"@ ==> reading == Ok::<VisibilitySyntaxModel, Seq<char>>(
        restricted_to("crate"@),
    )
    &&& text == "pub(super)"@ ==> reading == Ok::<VisibilitySyntaxModel, Seq<char>>(
        restricted_to("super"@),
    )
    &&& text == "pub(self)"@ ==> reading == Ok::<VisibilitySyntaxModel, Seq<char>>(
        restricted_to("self"@),
    )
    &&& text == ""@ ==> reading == Ok::<VisibilitySyntaxModel, Seq<char>>(
        VisibilitySyntaxModel::Inherited,
    )
}

/// Each of the five supported spellings may be handed to the parser.
pub proof fn lemma_supported_is_readable(text: Seq<char>)
    requires
        supported(text) is Some,
    ensures
        brackets(encode_utf8(text)) <= MAX_BRACKETS,
{
    reveal_strlit("pub");
    reveal_strlit("pub(crate)");
    reveal_strlit("pub(super)");
    reveal_strlit("pub(self)");
    reveal_strlit("");
    assert(text.len() <= 10);
    assert(is_ascii_chars(text));
    is_ascii_chars_encode_utf8(text);
    lemma_brackets_bounded(encode_utf8(text));
}

/// A supported spelling that is read as what it writes is recognised as the
/// visibility that it asks for.
pub proof fn lemma_supported_is_recognised(
    text: Seq<char>,
    reading: Result<VisibilitySyntaxModel, Seq<char>>,
)
    requires
        supported(text) is Some,
        known_reading(text, reading),
    ensures
        reading matches Ok(syntax) && recognised(syntax) == supported(text),
{
    reveal_strlit("pub");
    reveal_strlit("pub(crate)");
    reveal_strlit("pub(super)");
    reveal_strlit("pub(self)");
    reveal_strlit("");
    reveal_strlit("crate");
    reveal_strlit("super");
    reveal_strlit("self");
    assert("crate"@[0] != "super"@[0]);
    assert("crate"@.len() != "self"@.len());
    assert("super"@.len() != "self"@.len());
    assert("pub"@.len() != "pub(crate)"@.len());
    assert("pub(crate)"@[4] != "pub(super)"@[4]);
    assert(seq!["crate"@][0] == "crate"@);
    assert(seq!["super"@][0] == "super"@);
    assert(seq!["self"@][0] == "self"@);
}

/// Parses `text` with `syn::parse_str::<syn::Visibility>`.
///
/// Not verified. The contract claims what `syn`'s parser shows for five
/// texts of plain letters and brackets: `pub` is read as public, the empty
/// text as inherited, and `pub(crate)`, `pub(super)` and `pub(self)` as a
/// restriction without `in` to that one word. Of any other text nothing is
/// claimed: `syn` may read it differently inside a macro expansion and
/// outside of one. The three variants of `syn::Visibility` are handed on as
/// those of [`VisibilitySyntax`], the path of a restriction segment by
/// segment; an error is handed on as the text that `syn::Error` displays. A
/// text of many brackets is kept away, since `syn` descends once for each
/// that is open.
#[verifier::external_body]
pub(crate) fn read_visibility(text: &str) -> (r: Result<VisibilitySyntax, String>)
    requires
        readable(text),
    ensures
        known_reading(text@, crate::reading::outcome_of(r)),
{
    match syn::parse_str::<syn::Visibility>(text) {
        Ok(syn::Visibility::Public(_)) => Ok(VisibilitySyntax::Public),
        Ok(syn::Visibility::Inherited) => Ok(VisibilitySyntax::Inherited),
        Ok(syn::Visibility::Restricted(r)) => Ok(VisibilitySyntax::Restricted {
            in_token: r.in_token.is_some(),
            path: MetaPath {
                leading_colon: r.path.leading_colon.is_some(),
                segments: r.path.segments.iter().map(|s| s.ident.to_string()).collect(),
            },
        }),
        Err(e) => Err(e.to_string()),
    }
}

} // verus!
