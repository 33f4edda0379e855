//! Executable lexical units, range-free token views, and owned decoded
//! tokens materialized from them on demand.

use vstd::prelude::*;
use crate::machine::{AttrV, TokenViewS, LexUnitS};
use crate::encoding::{utf8_decode_of, decode_utf8};

verus! {

/// One attribute occurrence of the tag under construction, in source
/// order; duplicates are preserved verbatim.
pub struct Attribute {
    pub name: Vec<u8>,
    pub value: Vec<u8>,
}

impl View for Attribute {
    type V = AttrV;

    open spec fn view(&self) -> AttrV {
        AttrV { name: self.name@, value: self.value@ }
    }
}

/// Range-free, undecoded description of a parsed construct.
#[allow(inconsistent_fields)]
pub enum TokenView {
    Character,
    Comment(Vec<u8>),
    StartTag { name: Vec<u8>, attributes: Vec<Attribute>, self_closing: bool },
    EndTag { name: Vec<u8> },
    Doctype {
        name: Option<Vec<u8>>,
        public_id: Option<Vec<u8>>,
        system_id: Option<Vec<u8>>,
        force_quirks: bool,
    },
    Eof,
}

pub open spec fn attrs_view(s: Seq<Attribute>) -> Seq<AttrV> {
    s.map_values(|a: Attribute| a@)
}

pub open spec fn opt_bytes_view(o: Option<Vec<u8>>) -> Option<Seq<u8>> {
    match o {
        Some(v) => Some(v@),
        None => None,
    }
}

impl View for TokenView {
    type V = TokenViewS;

    open spec fn view(&self) -> TokenViewS {
        match self {
            TokenView::Character => TokenViewS::Character,
            TokenView::Comment(d) => TokenViewS::Comment(d@),
            TokenView::StartTag { name, attributes, self_closing } => TokenViewS::StartTag {
                name: name@,
                attributes: attrs_view(attributes@),
                self_closing: *self_closing,
            },
            TokenView::EndTag { name } => TokenViewS::EndTag { name: name@ },
            TokenView::Doctype { name, public_id, system_id, force_quirks } => TokenViewS::Doctype {
                name: opt_bytes_view(*name),
                public_id: opt_bytes_view(*public_id),
                system_id: opt_bytes_view(*system_id),
                force_quirks: *force_quirks,
            },
            TokenView::Eof => TokenViewS::Eof,
        }
    }
}

pub open spec fn opt_tok_view(o: Option<TokenView>) -> Option<TokenViewS> {
    match o {
        Some(v) => Some(v.view()),
        None => None,
    }
}

/// One emitted lexical unit: an optional token view paired with the raw
/// bytes it was parsed from. A unit carries no raw bytes only for the
/// final Eof view.
pub struct LexUnit {
    pub token_view: Option<TokenView>,
    pub raw: Vec<u8>,
}

impl View for LexUnit {
    type V = LexUnitS;

    open spec fn view(&self) -> LexUnitS {
        LexUnitS { token: opt_tok_view(self.token_view), raw: self.raw@ }
    }
}

/// One attribute of an owned, decoded start-tag token.
pub struct TokenAttr {
    pub name: String,
    pub value: String,
}

/// An owned, decoded projection of a token view: the only form safe to
/// retain after the lexical unit it came from is gone.
#[allow(inconsistent_fields)]
pub enum Token {
    Character(String),
    Comment(String),
    StartTag { name: String, attributes: Vec<TokenAttr>, self_closing: bool },
    EndTag { name: String },
    Doctype {
        name: Option<String>,
        public_id: Option<String>,
        system_id: Option<String>,
        force_quirks: bool,
    },
    Eof,
}

pub open spec fn opt_decoded(t: Option<String>, b: Option<Seq<u8>>) -> bool {
    match (t, b) {
        (Some(s), Some(bytes)) => s@ == utf8_decode_of(bytes),
        (None, None) => true,
        _ => false,
    }
}

/// What it means for an owned token to be the decoded form of a view:
/// every recorded byte range is UTF-8-decoded, field for field, with
/// attribute order and multiplicity preserved. A `Character` view decodes
/// its unit's raw bytes.
pub open spec fn token_matches(t: Token, v: TokenViewS, raw: Seq<u8>) -> bool {
    match (t, v) {
        (Token::Character(s), TokenViewS::Character) => s@ == utf8_decode_of(raw),
        (Token::Comment(s), TokenViewS::Comment(d)) => s@ == utf8_decode_of(d),
        (
            Token::StartTag { name: tn, attributes: ta, self_closing: tsc },
            TokenViewS::StartTag { name: vn, attributes: va, self_closing: vsc },
        ) => tn@ == utf8_decode_of(vn) && tsc == vsc && ta@.len() == va.len()
            && forall|i: int| 0 <= i < va.len() ==> ta@[i].name@ == utf8_decode_of(va[i].name)
                && ta@[i].value@ == utf8_decode_of(va[i].value),
        (Token::EndTag { name: tn }, TokenViewS::EndTag { name: vn }) => tn@ == utf8_decode_of(vn),
        (
            Token::Doctype { name: tn, public_id: tp, system_id: ts, force_quirks: tq },
            TokenViewS::Doctype { name: vn, public_id: vp, system_id: vs, force_quirks: vq },
        ) => opt_decoded(tn, vn) && opt_decoded(tp, vp) && opt_decoded(ts, vs) && tq == vq,
        (Token::Eof, TokenViewS::Eof) => true,
        _ => false,
    }
}

fn decode_opt(o: &Option<Vec<u8>>) -> (r: Option<String>)
    ensures
        opt_decoded(r, opt_bytes_view(*o)),
{
    match o {
        Some(v) => Some(decode_utf8(v.as_slice()).0),
        None => None,
    }
}

impl LexUnit {
    /// Pair a token view with its raw byte range.
    pub fn new(token_view: Option<TokenView>, raw: Vec<u8>) -> (r: Self)
        ensures
            r@ == (LexUnitS { token: opt_tok_view(token_view), raw: raw@ }),
    {
        LexUnit { token_view, raw }
    }

    /// The exact raw bytes of the unit, or nothing if the unit carries no
    /// raw representation (the Eof unit).
    pub fn get_raw(&self) -> (r: Option<&Vec<u8>>)
        ensures
            self@.raw.len() == 0 ==> r is None,
            self@.raw.len() > 0 ==> r is Some && r->0@ == self@.raw,
    {
        if self.raw.len() > 0 {
            Some(&self.raw)
        } else {
            None
        }
    }

    /// The unresolved, range-free view of the parsed construct.
    pub fn get_token_view(&self) -> (r: Option<&TokenView>)
        ensures
            r is Some <==> self@.token is Some,
            r is Some ==> r->0@ == self@.token->0,
    {
        self.token_view.as_ref()
    }

    /// Lazily materialize an owned, decoded token from the view: names
    /// were already lower-cased during tokenization; every stored byte
    /// range is decoded, attributes in original order with duplicates
    /// intact; DOCTYPE fields never recorded stay absent.
    pub fn get_token(&self) -> (r: Option<Token>)
        ensures
            r is Some <==> self@.token is Some,
            r is Some ==> token_matches(r->0, self@.token->0, self@.raw),
    {
        match &self.token_view {
            None => None,
            Some(TokenView::Character) => Some(Token::Character(decode_utf8(self.raw.as_slice()).0)),
            Some(TokenView::Comment(d)) => Some(Token::Comment(decode_utf8(d.as_slice()).0)),
            Some(TokenView::StartTag { name, attributes, self_closing }) => {
                let mut ats: Vec<TokenAttr> = Vec::new();
                let mut i: usize = 0;
                while i < attributes.len()
                    invariant
                        0 <= i <= attributes@.len(),
                        ats@.len() == i,
                        forall|j: int| 0 <= j < i ==> ats@[j].name@ == utf8_decode_of(attributes@[j].name@)
                            && ats@[j].value@ == utf8_decode_of(attributes@[j].value@),
                    decreases attributes@.len() - i,
                {
                    let a = &attributes[i];
                    ats.push(TokenAttr {
                        name: decode_utf8(a.name.as_slice()).0,
                        value: decode_utf8(a.value.as_slice()).0,
                    });
                    i = i + 1;
                }
                Some(Token::StartTag {
                    name: decode_utf8(name.as_slice()).0,
                    attributes: ats,
                    self_closing: *self_closing,
                })
            },
            Some(TokenView::EndTag { name }) => Some(Token::EndTag {
                name: decode_utf8(name.as_slice()).0,
            }),
            Some(TokenView::Doctype { name, public_id, system_id, force_quirks }) => Some(Token::Doctype {
                name: decode_opt(name),
                public_id: decode_opt(public_id),
                system_id: decode_opt(system_id),
                force_quirks: *force_quirks,
            }),
            Some(TokenView::Eof) => Some(Token::Eof),
        }
    }
}

} // verus!
