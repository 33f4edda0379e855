//! The tokenizer's state machine, as a mathematical model.
//!
//! The whole machine is a pure byte-at-a-time transition function `step`
//! over a machine state `TokSt`; feeding a chunk is folding `step` over its
//! bytes (`run`), and finishing is one application of `eof_step`. Multi-byte
//! literal matching (comment/DOCTYPE/CDATA openers, the DOCTYPE PUBLIC and
//! SYSTEM keywords) is an explicit progress index `match_pos` inside the
//! state, so a literal split across chunk boundaries resumes exactly where
//! it paused. Because a chunk is just a fold over its bytes, independence of
//! the chunking is a law of `run` (`lemma_chunk_independence`), and the
//! round-trip law (`lemma_run_round_trip`) says the emitted raw byte ranges
//! concatenate to exactly the consumed input.

use vstd::prelude::*;
use crate::lower_byte;
use crate::hash::hash_of;

verus! {

/// The closed set of tokenizer states.
///
/// `MarkupDeclarationDoctype`, `MarkupDeclarationCdata`,
/// `DoctypePublicKeyword` and `DoctypeSystemKeyword` consume a fixed
/// literal byte-by-byte, tracking progress in `TokSt::match_pos`.
#[derive(Clone, Copy, PartialEq, Eq, Structural, Debug)]
pub enum State {
    Data,
    Plaintext,
    Rcdata,
    Rawtext,
    ScriptData,
    TagOpen,
    EndTagOpen,
    TagName,
    RcdataLessThan,
    RcdataEndTagOpen,
    RcdataEndTagName,
    RawtextLessThan,
    RawtextEndTagOpen,
    RawtextEndTagName,
    ScriptDataLessThan,
    ScriptDataEndTagOpen,
    ScriptDataEndTagName,
    ScriptDataEscapeStart,
    ScriptDataEscapeStartDash,
    ScriptDataEscaped,
    ScriptDataEscapedDash,
    ScriptDataEscapedDashDash,
    ScriptDataEscapedLessThan,
    ScriptDataEscapedEndTagOpen,
    ScriptDataEscapedEndTagName,
    ScriptDataDoubleEscapeStart,
    ScriptDataDoubleEscaped,
    ScriptDataDoubleEscapedDash,
    ScriptDataDoubleEscapedDashDash,
    ScriptDataDoubleEscapedLessThan,
    ScriptDataDoubleEscapeEnd,
    BeforeAttributeName,
    AttributeName,
    AfterAttributeName,
    BeforeAttributeValue,
    AttributeValueDouble,
    AttributeValueSingle,
    AttributeValueUnquoted,
    AfterAttributeValueQuoted,
    SelfClosingStartTag,
    BogusComment,
    MarkupDeclarationOpen,
    MarkupDeclarationDash,
    MarkupDeclarationDoctype,
    MarkupDeclarationCdata,
    CommentStart,
    CommentStartDash,
    Comment,
    CommentEndDash,
    CommentEnd,
    CommentEndBang,
    Doctype,
    BeforeDoctypeName,
    DoctypeName,
    AfterDoctypeName,
    DoctypePublicKeyword,
    DoctypeSystemKeyword,
    AfterDoctypePublicKeyword,
    BeforeDoctypePublicId,
    DoctypePublicIdDouble,
    DoctypePublicIdSingle,
    AfterDoctypePublicId,
    BetweenDoctypePublicSystem,
    AfterDoctypeSystemKeyword,
    BeforeDoctypeSystemId,
    DoctypeSystemIdDouble,
    DoctypeSystemIdSingle,
    AfterDoctypeSystemId,
    BogusDoctype,
    CdataSection,
    CdataSectionBracket,
    CdataSectionEnd,
}

/// One attribute occurrence: name and value bytes, in source order.
#[verifier::ext_equal]
pub struct AttrV {
    pub name: Seq<u8>,
    pub value: Seq<u8>,
}

/// Range-free description of a parsed construct. A `Character` token's
/// text is exactly the raw bytes of its lexical unit.
#[verifier::ext_equal]
#[allow(inconsistent_fields)]
pub enum TokenViewS {
    Character,
    Comment(Seq<u8>),
    StartTag { name: Seq<u8>, attributes: Seq<AttrV>, self_closing: bool },
    EndTag { name: Seq<u8> },
    Doctype {
        name: Option<Seq<u8>>,
        public_id: Option<Seq<u8>>,
        system_id: Option<Seq<u8>>,
        force_quirks: bool,
    },
    Eof,
}

/// One emitted lexical unit: an optional token view plus the raw bytes it
/// was parsed from. A unit with no token carries bytes that produce no
/// token (a dropped `</>` or a construct cut off by end of input).
#[verifier::ext_equal]
pub struct LexUnitS {
    pub token: Option<TokenViewS>,
    pub raw: Seq<u8>,
}

/// The machine state that persists between chunks.
#[verifier::ext_equal]
pub struct TokSt {
    pub state: State,
    /// Pending character data not yet emitted.
    pub text: Seq<u8>,
    /// Raw bytes of the construct currently being parsed.
    pub raw: Seq<u8>,
    /// Tag name (lower-cased) or DOCTYPE name being accumulated.
    pub name: Seq<u8>,
    /// Whether a DOCTYPE name was recorded.
    pub has_name: bool,
    /// Comment (or bogus-comment) text being accumulated.
    pub data: Seq<u8>,
    /// Temporary buffer for script-data double-escape detection.
    pub temp: Seq<u8>,
    pub attr_name: Seq<u8>,
    pub attr_value: Seq<u8>,
    /// Whether an attribute is currently under construction.
    pub has_attr: bool,
    /// Completed attributes of the tag under construction.
    pub attrs: Seq<AttrV>,
    /// Whether the tag under construction is an end tag.
    pub is_end: bool,
    pub self_closing: bool,
    pub force_quirks: bool,
    pub public_id: Seq<u8>,
    pub has_public: bool,
    pub system_id: Seq<u8>,
    pub has_system: bool,
    /// Progress inside a fixed literal being matched.
    pub match_pos: usize,
    /// Hash of the last emitted (or caller-seeded) start tag name.
    pub last_hash: Option<u64>,
}

/// Result of one transition: the successor state and the units emitted.
#[verifier::ext_equal]
pub struct Step {
    pub st: TokSt,
    pub out: Seq<LexUnitS>,
}

pub open spec fn initial(state: State, last_hash: Option<u64>) -> TokSt {
    TokSt {
        state,
        text: Seq::empty(),
        raw: Seq::empty(),
        name: Seq::empty(),
        has_name: false,
        data: Seq::empty(),
        temp: Seq::empty(),
        attr_name: Seq::empty(),
        attr_value: Seq::empty(),
        has_attr: false,
        attrs: Seq::empty(),
        is_end: false,
        self_closing: false,
        force_quirks: false,
        public_id: Seq::empty(),
        has_public: false,
        system_id: Seq::empty(),
        has_system: false,
        match_pos: 0usize,
        last_hash,
    }
}

pub open spec fn is_ws(b: u8) -> bool {
    b == 0x20 || b == 0x09 || b == 0x0a || b == 0x0c || b == 0x0d
}

pub open spec fn is_alpha(b: u8) -> bool {
    (0x41 <= b && b <= 0x5a) || (0x61 <= b && b <= 0x7a)
}

/// Byte of the literal `doctype` at position `i` (1 to 6; position 0 is
/// the `d` that selected the literal).
pub open spec fn doctype_lit(i: int) -> u8 {
    if i == 1 { 0x6f } else if i == 2 { 0x63 } else if i == 3 { 0x74 }
    else if i == 4 { 0x79 } else if i == 5 { 0x70 } else { 0x65 }
}

/// Byte of the literal `[CDATA[` at position `i` (1 to 6).
pub open spec fn cdata_lit(i: int) -> u8 {
    if i == 1 { 0x43 } else if i == 2 { 0x44 } else if i == 3 { 0x41 }
    else if i == 4 { 0x54 } else if i == 5 { 0x41 } else { 0x5b }
}

/// Byte of the literal `public` at position `i` (1 to 5).
pub open spec fn public_lit(i: int) -> u8 {
    if i == 1 { 0x75 } else if i == 2 { 0x62 } else if i == 3 { 0x6c }
    else if i == 4 { 0x69 } else { 0x63 }
}

/// Byte of the literal `system` at position `i` (1 to 5).
pub open spec fn system_lit(i: int) -> u8 {
    if i == 1 { 0x79 } else if i == 2 { 0x73 } else if i == 3 { 0x74 }
    else if i == 4 { 0x65 } else { 0x6d }
}

/// The lower-cased bytes of `script`.
pub open spec fn script_name() -> Seq<u8> {
    seq![0x73u8, 0x63u8, 0x72u8, 0x69u8, 0x70u8, 0x74u8]
}

pub const TITLE_HASH: u64 = 337986309;
pub const TEXTAREA_HASH: u64 = 88330633290049;
pub const STYLE_HASH: u64 = 324113157;
pub const XMP_HASH: u64 = 99152;
pub const IFRAME_HASH: u64 = 9769063237;
pub const NOEMBED_HASH: u64 = 978266104132;
pub const NOFRAMES_HASH: u64 = 62610188063059;
pub const NOSCRIPT_HASH: u64 = 62623899489300;
pub const SCRIPT_HASH: u64 = 20456182804;
pub const PLAINTEXT_HASH: u64 = 4556454808802836;

/// State entered after emitting a start tag: built-in raw-text elements
/// switch the tokenizer out of the Data state, recognized by name hash.
pub open spec fn dest_state_for(h: Option<u64>) -> State {
    if h == Some(TITLE_HASH) || h == Some(TEXTAREA_HASH) {
        State::Rcdata
    } else if h == Some(STYLE_HASH) || h == Some(XMP_HASH) || h == Some(IFRAME_HASH)
        || h == Some(NOEMBED_HASH) || h == Some(NOFRAMES_HASH) || h == Some(NOSCRIPT_HASH) {
        State::Rawtext
    } else if h == Some(SCRIPT_HASH) {
        State::ScriptData
    } else if h == Some(PLAINTEXT_HASH) {
        State::Plaintext
    } else {
        State::Data
    }
}

/// A pending character-data unit, if any text is pending.
pub open spec fn flush_out(s: TokSt) -> Seq<LexUnitS> {
    if s.text.len() > 0 {
        seq![LexUnitS { token: Some(TokenViewS::Character), raw: s.text }]
    } else {
        Seq::empty()
    }
}

/// The attributes of the tag under construction, including the one still
/// being accumulated. Every occurrence is kept, in source order.
pub open spec fn attrs_now(s: TokSt) -> Seq<AttrV> {
    if s.has_attr {
        s.attrs.push(AttrV { name: s.attr_name, value: s.attr_value })
    } else {
        s.attrs
    }
}

/// Clear all per-token accumulation (buffers and flags); the state label
/// and the last-start-tag hash survive.
pub open spec fn clear_token(s: TokSt) -> TokSt {
    TokSt {
        text: Seq::empty(),
        raw: Seq::empty(),
        name: Seq::empty(),
        has_name: false,
        data: Seq::empty(),
        temp: Seq::empty(),
        attr_name: Seq::empty(),
        attr_value: Seq::empty(),
        has_attr: false,
        attrs: Seq::empty(),
        is_end: false,
        self_closing: false,
        force_quirks: false,
        public_id: Seq::empty(),
        has_public: false,
        system_id: Seq::empty(),
        has_system: false,
        match_pos: 0usize,
        ..s
    }
}

/// Units emitted by a mid-stream emission: pending text first, then one
/// unit with the given token and raw range.
pub open spec fn emit1(s: TokSt, tok: Option<TokenViewS>, raw: Seq<u8>) -> Seq<LexUnitS> {
    flush_out(s) + seq![LexUnitS { token: tok, raw }]
}

/// Units emitted by an end-of-input emission: pending text, one unit, then
/// the Eof unit.
pub open spec fn emit2(s: TokSt, tok: Option<TokenViewS>, raw: Seq<u8>) -> Seq<LexUnitS> {
    emit1(s, tok, raw) + seq![eof_unit()]
}

/// Units emitted at end of input from a content state: the pending text
/// (if any) and the Eof unit.
pub open spec fn flush_eof(t: Seq<u8>) -> Seq<LexUnitS> {
    (if t.len() > 0 {
        seq![LexUnitS { token: Some(TokenViewS::Character), raw: t }]
    } else {
        Seq::empty()
    }) + seq![eof_unit()]
}

pub open spec fn tag_view(s: TokSt) -> TokenViewS {
    if s.is_end {
        TokenViewS::EndTag { name: s.name }
    } else {
        TokenViewS::StartTag { name: s.name, attributes: attrs_now(s), self_closing: s.self_closing }
    }
}

/// Emit the tag under construction; `b` is the closing `>`. A start tag
/// records its name hash and may switch into a raw-text state; an end tag
/// returns to Data.
pub open spec fn emit_tag(s: TokSt, b: u8) -> Step {
    let raw = s.raw.push(b);
    let unit = LexUnitS { token: Some(tag_view(s)), raw };
    let nh = if s.is_end { s.last_hash } else { hash_of(s.name) };
    let ns = if s.is_end { State::Data } else { dest_state_for(hash_of(s.name)) };
    Step {
        st: TokSt { state: ns, last_hash: nh, ..clear_token(s) },
        out: emit1(s, Some(tag_view(s)), raw),
    }
}

/// Emit a comment with text `data`; `raw` is the unit's full raw range.
pub open spec fn emit_comment(s: TokSt, data: Seq<u8>, raw: Seq<u8>) -> Step {
    Step {
        st: TokSt { state: State::Data, ..clear_token(s) },
        out: emit1(s, Some(TokenViewS::Comment(data)), raw),
    }
}

pub open spec fn doctype_view(s: TokSt) -> TokenViewS {
    TokenViewS::Doctype {
        name: if s.has_name { Some(s.name) } else { None },
        public_id: if s.has_public { Some(s.public_id) } else { None },
        system_id: if s.has_system { Some(s.system_id) } else { None },
        force_quirks: s.force_quirks,
    }
}

/// Emit the DOCTYPE under construction; `quirks` forces the flag on.
pub open spec fn emit_doctype(s: TokSt, b: u8, quirks: bool) -> Step {
    let s1 = TokSt { force_quirks: s.force_quirks || quirks, ..s };
    Step {
        st: TokSt { state: State::Data, ..clear_token(s) },
        out: emit1(s, Some(doctype_view(s1)), s.raw.push(b)),
    }
}

/// A transition that emits nothing.
pub open spec fn go(st: TokSt) -> Step {
    Step { st, out: Seq::empty() }
}

/// Start accumulating a tag name; shared by start tags, end tags and the
/// raw-text end-tag candidates.
pub open spec fn start_tag(s: TokSt, b: u8, end: bool, st: State) -> TokSt {
    TokSt {
        state: st,
        raw: s.raw.push(b),
        name: seq![lower_byte(b)],
        is_end: end,
        self_closing: false,
        has_attr: false,
        attr_name: Seq::empty(),
        attr_value: Seq::empty(),
        attrs: Seq::empty(),
        ..s
    }
}

/// Finish the attribute under construction (if any) and start a new one
/// whose name begins with `b`.
pub open spec fn new_attr(s: TokSt, b: u8) -> TokSt {
    TokSt {
        state: State::AttributeName,
        raw: s.raw.push(b),
        attrs: attrs_now(s),
        has_attr: true,
        attr_name: seq![lower_byte(b)],
        attr_value: Seq::empty(),
        ..s
    }
}

/// Abandon a `<`-prefixed candidate inside a content state: its raw bytes
/// fall back to character data and `b` is reprocessed as content.
pub open spec fn back_to_content(s: TokSt, b: u8, content: State, lt: State) -> TokSt {
    let t = s.text + s.raw;
    if b == 0x3c {
        TokSt { state: lt, text: t, raw: seq![b], ..s }
    } else {
        TokSt { state: content, text: t.push(b), raw: Seq::empty(), ..s }
    }
}

/// Same, for the script-data escaped states, where `-` is also special.
pub open spec fn back_to_escaped(s: TokSt, b: u8) -> TokSt {
    let t = s.text + s.raw;
    if b == 0x3c {
        TokSt { state: State::ScriptDataEscapedLessThan, text: t, raw: seq![b], ..s }
    } else if b == 0x2d {
        TokSt { state: State::ScriptDataEscapedDash, text: t.push(b), raw: Seq::empty(), ..s }
    } else {
        TokSt { state: State::ScriptDataEscaped, text: t.push(b), raw: Seq::empty(), ..s }
    }
}

/// Reprocess `b` as script-data double-escaped content.
pub open spec fn to_double_escaped(s: TokSt, b: u8) -> TokSt {
    if b == 0x2d {
        TokSt { state: State::ScriptDataDoubleEscapedDash, text: s.text.push(b), ..s }
    } else if b == 0x3c {
        TokSt { state: State::ScriptDataDoubleEscapedLessThan, text: s.text.push(b), ..s }
    } else {
        TokSt { state: State::ScriptDataDoubleEscaped, text: s.text.push(b), ..s }
    }
}

/// Whether the end-tag candidate name matches the last start tag: both
/// hashes must exist and be equal. An unhashable name never matches.
pub open spec fn is_appropriate(s: TokSt) -> bool {
    s.last_hash is Some && hash_of(s.name) == s.last_hash
}

/// Shared transition of the three raw-text end-tag-name states.
/// `content`/`lt` describe the state family to fall back into.
pub open spec fn end_tag_name_step(s: TokSt, b: u8, content: State, lt: State, esc: bool) -> Step {
    if is_alpha(b) {
        go(TokSt { name: s.name.push(lower_byte(b)), raw: s.raw.push(b), ..s })
    } else if (is_ws(b) || b == 0x2f || b == 0x3e) && is_appropriate(s) {
        if b == 0x3e {
            emit_tag(s, b)
        } else if b == 0x2f {
            go(TokSt { state: State::SelfClosingStartTag, raw: s.raw.push(b), ..s })
        } else {
            go(TokSt { state: State::BeforeAttributeName, raw: s.raw.push(b), ..s })
        }
    } else {
        if esc {
            go(back_to_escaped(s, b))
        } else {
            go(back_to_content(s, b, content, lt))
        }
    }
}

/// One byte of input in the given machine state: the successor state and
/// whatever lexical units that byte caused to be emitted.
pub open spec fn step(s: TokSt, b: u8) -> Step {
    match s.state {
        State::Data => if b == 0x3c {
            go(TokSt { state: State::TagOpen, raw: s.raw.push(b), ..s })
        } else {
            go(TokSt { text: s.text.push(b), ..s })
        },
        State::Plaintext => go(TokSt { text: s.text.push(b), ..s }),
        State::Rcdata => if b == 0x3c {
            go(TokSt { state: State::RcdataLessThan, raw: s.raw.push(b), ..s })
        } else {
            go(TokSt { text: s.text.push(b), ..s })
        },
        State::Rawtext => if b == 0x3c {
            go(TokSt { state: State::RawtextLessThan, raw: s.raw.push(b), ..s })
        } else {
            go(TokSt { text: s.text.push(b), ..s })
        },
        State::ScriptData => if b == 0x3c {
            go(TokSt { state: State::ScriptDataLessThan, raw: s.raw.push(b), ..s })
        } else {
            go(TokSt { text: s.text.push(b), ..s })
        },
        State::TagOpen => if b == 0x21 {
            go(TokSt { state: State::MarkupDeclarationOpen, raw: s.raw.push(b), ..s })
        } else if b == 0x2f {
            go(TokSt { state: State::EndTagOpen, raw: s.raw.push(b), ..s })
        } else if is_alpha(b) {
            go(start_tag(s, b, false, State::TagName))
        } else if b == 0x3f {
            go(TokSt { state: State::BogusComment, raw: s.raw.push(b), data: seq![b], ..s })
        } else {
            go(back_to_content(s, b, State::Data, State::TagOpen))
        },
        State::EndTagOpen => if is_alpha(b) {
            go(start_tag(s, b, true, State::TagName))
        } else if b == 0x3e {
            Step {
                st: TokSt { state: State::Data, ..clear_token(s) },
                out: emit1(s, None, s.raw.push(b)),
            }
        } else {
            go(TokSt { state: State::BogusComment, raw: s.raw.push(b), data: seq![b], ..s })
        },
        State::TagName => if is_ws(b) {
            go(TokSt { state: State::BeforeAttributeName, raw: s.raw.push(b), ..s })
        } else if b == 0x2f {
            go(TokSt { state: State::SelfClosingStartTag, raw: s.raw.push(b), ..s })
        } else if b == 0x3e {
            emit_tag(s, b)
        } else {
            go(TokSt { name: s.name.push(lower_byte(b)), raw: s.raw.push(b), ..s })
        },
        State::BeforeAttributeName => if is_ws(b) {
            go(TokSt { raw: s.raw.push(b), ..s })
        } else if b == 0x2f {
            go(TokSt { state: State::SelfClosingStartTag, raw: s.raw.push(b), ..s })
        } else if b == 0x3e {
            emit_tag(s, b)
        } else {
            go(new_attr(s, b))
        },
        State::AttributeName => if is_ws(b) {
            go(TokSt { state: State::AfterAttributeName, raw: s.raw.push(b), ..s })
        } else if b == 0x2f {
            go(TokSt { state: State::SelfClosingStartTag, raw: s.raw.push(b), ..s })
        } else if b == 0x3e {
            emit_tag(s, b)
        } else if b == 0x3d {
            go(TokSt { state: State::BeforeAttributeValue, raw: s.raw.push(b), ..s })
        } else {
            go(TokSt { attr_name: s.attr_name.push(lower_byte(b)), raw: s.raw.push(b), ..s })
        },
        State::AfterAttributeName => if is_ws(b) {
            go(TokSt { raw: s.raw.push(b), ..s })
        } else if b == 0x2f {
            go(TokSt { state: State::SelfClosingStartTag, raw: s.raw.push(b), ..s })
        } else if b == 0x3d {
            go(TokSt { state: State::BeforeAttributeValue, raw: s.raw.push(b), ..s })
        } else if b == 0x3e {
            emit_tag(s, b)
        } else {
            go(new_attr(s, b))
        },
        State::BeforeAttributeValue => if is_ws(b) {
            go(TokSt { raw: s.raw.push(b), ..s })
        } else if b == 0x22 {
            go(TokSt { state: State::AttributeValueDouble, raw: s.raw.push(b), ..s })
        } else if b == 0x27 {
            go(TokSt { state: State::AttributeValueSingle, raw: s.raw.push(b), ..s })
        } else if b == 0x3e {
            emit_tag(s, b)
        } else {
            go(TokSt {
                state: State::AttributeValueUnquoted,
                attr_value: s.attr_value.push(b),
                raw: s.raw.push(b),
                ..s
            })
        },
        State::AttributeValueDouble => if b == 0x22 {
            go(TokSt { state: State::AfterAttributeValueQuoted, raw: s.raw.push(b), ..s })
        } else {
            go(TokSt { attr_value: s.attr_value.push(b), raw: s.raw.push(b), ..s })
        },
        State::AttributeValueSingle => if b == 0x27 {
            go(TokSt { state: State::AfterAttributeValueQuoted, raw: s.raw.push(b), ..s })
        } else {
            go(TokSt { attr_value: s.attr_value.push(b), raw: s.raw.push(b), ..s })
        },
        State::AttributeValueUnquoted => if is_ws(b) {
            go(TokSt { state: State::BeforeAttributeName, raw: s.raw.push(b), ..s })
        } else if b == 0x3e {
            emit_tag(s, b)
        } else {
            go(TokSt { attr_value: s.attr_value.push(b), raw: s.raw.push(b), ..s })
        },
        State::AfterAttributeValueQuoted => if is_ws(b) {
            go(TokSt { state: State::BeforeAttributeName, raw: s.raw.push(b), ..s })
        } else if b == 0x2f {
            go(TokSt { state: State::SelfClosingStartTag, raw: s.raw.push(b), ..s })
        } else if b == 0x3e {
            emit_tag(s, b)
        } else {
            go(new_attr(s, b))
        },
        State::SelfClosingStartTag => if b == 0x3e {
            emit_tag(TokSt { self_closing: true, ..s }, b)
        } else if is_ws(b) {
            go(TokSt { state: State::BeforeAttributeName, raw: s.raw.push(b), ..s })
        } else if b == 0x2f {
            go(TokSt { raw: s.raw.push(b), ..s })
        } else {
            go(new_attr(s, b))
        },
        State::BogusComment => if b == 0x3e {
            emit_comment(s, s.data, s.raw.push(b))
        } else {
            go(TokSt { data: s.data.push(b), raw: s.raw.push(b), ..s })
        },
        State::MarkupDeclarationOpen => if b == 0x2d {
            go(TokSt { state: State::MarkupDeclarationDash, raw: s.raw.push(b), ..s })
        } else if b == 0x64 || b == 0x44 {
            go(TokSt { state: State::MarkupDeclarationDoctype, match_pos: 1usize, raw: s.raw.push(b), ..s })
        } else if b == 0x5b {
            go(TokSt { state: State::MarkupDeclarationCdata, match_pos: 1usize, raw: s.raw.push(b), ..s })
        } else if b == 0x3e {
            emit_comment(s, Seq::empty(), s.raw.push(b))
        } else {
            go(TokSt { state: State::BogusComment, raw: s.raw.push(b), data: seq![b], ..s })
        },
        State::MarkupDeclarationDash => if b == 0x2d {
            go(TokSt { state: State::CommentStart, data: Seq::empty(), raw: s.raw.push(b), ..s })
        } else if b == 0x3e {
            emit_comment(s, seq![0x2du8], s.raw.push(b))
        } else {
            go(TokSt { state: State::BogusComment, raw: s.raw.push(b), data: seq![0x2du8, b], ..s })
        },
        State::MarkupDeclarationDoctype => if s.match_pos < 7 && lower_byte(b) == doctype_lit(s.match_pos as int) {
            if s.match_pos == 6 {
                go(TokSt { state: State::Doctype, match_pos: 0usize, raw: s.raw.push(b), ..s })
            } else {
                go(TokSt { match_pos: (s.match_pos + 1) as usize, raw: s.raw.push(b), ..s })
            }
        } else if b == 0x3e {
            emit_comment(s, s.raw.skip(2), s.raw.push(b))
        } else {
            go(TokSt {
                state: State::BogusComment,
                data: s.raw.skip(2).push(b),
                raw: s.raw.push(b),
                match_pos: 0usize,
                ..s
            })
        },
        State::MarkupDeclarationCdata => if s.match_pos < 7 && b == cdata_lit(s.match_pos as int) {
            if s.match_pos == 6 {
                Step {
                    st: TokSt { state: State::CdataSection, match_pos: 0usize, ..clear_token(s) },
                    out: emit1(s, None, s.raw.push(b)),
                }
            } else {
                go(TokSt { match_pos: (s.match_pos + 1) as usize, raw: s.raw.push(b), ..s })
            }
        } else if b == 0x3e {
            emit_comment(s, s.raw.skip(2), s.raw.push(b))
        } else {
            go(TokSt {
                state: State::BogusComment,
                data: s.raw.skip(2).push(b),
                raw: s.raw.push(b),
                match_pos: 0usize,
                ..s
            })
        },
        State::CommentStart => if b == 0x2d {
            go(TokSt { state: State::CommentStartDash, raw: s.raw.push(b), ..s })
        } else if b == 0x3e {
            emit_comment(s, s.data, s.raw.push(b))
        } else {
            go(TokSt { state: State::Comment, data: s.data.push(b), raw: s.raw.push(b), ..s })
        },
        State::CommentStartDash => if b == 0x2d {
            go(TokSt { state: State::CommentEnd, raw: s.raw.push(b), ..s })
        } else if b == 0x3e {
            emit_comment(s, s.data, s.raw.push(b))
        } else {
            go(TokSt { state: State::Comment, data: s.data.push(0x2d).push(b), raw: s.raw.push(b), ..s })
        },
        State::Comment => if b == 0x2d {
            go(TokSt { state: State::CommentEndDash, raw: s.raw.push(b), ..s })
        } else {
            go(TokSt { data: s.data.push(b), raw: s.raw.push(b), ..s })
        },
        State::CommentEndDash => if b == 0x2d {
            go(TokSt { state: State::CommentEnd, raw: s.raw.push(b), ..s })
        } else {
            go(TokSt { state: State::Comment, data: s.data.push(0x2d).push(b), raw: s.raw.push(b), ..s })
        },
        State::CommentEnd => if b == 0x3e {
            emit_comment(s, s.data, s.raw.push(b))
        } else if b == 0x21 {
            go(TokSt { state: State::CommentEndBang, raw: s.raw.push(b), ..s })
        } else if b == 0x2d {
            go(TokSt { data: s.data.push(0x2d), raw: s.raw.push(b), ..s })
        } else {
            go(TokSt { state: State::Comment, data: s.data.push(0x2d).push(0x2d).push(b), raw: s.raw.push(b), ..s })
        },
        State::CommentEndBang => if b == 0x2d {
            go(TokSt {
                state: State::CommentEndDash,
                data: s.data.push(0x2d).push(0x2d).push(0x21),
                raw: s.raw.push(b),
                ..s
            })
        } else if b == 0x3e {
            emit_comment(s, s.data, s.raw.push(b))
        } else {
            go(TokSt {
                state: State::Comment,
                data: s.data.push(0x2d).push(0x2d).push(0x21).push(b),
                raw: s.raw.push(b),
                ..s
            })
        },
        State::Doctype => if is_ws(b) {
            go(TokSt { state: State::BeforeDoctypeName, raw: s.raw.push(b), ..s })
        } else if b == 0x3e {
            emit_doctype(s, b, true)
        } else {
            go(TokSt {
                state: State::DoctypeName,
                name: seq![lower_byte(b)],
                has_name: true,
                raw: s.raw.push(b),
                ..s
            })
        },
        State::BeforeDoctypeName => if is_ws(b) {
            go(TokSt { raw: s.raw.push(b), ..s })
        } else if b == 0x3e {
            emit_doctype(s, b, true)
        } else {
            go(TokSt {
                state: State::DoctypeName,
                name: seq![lower_byte(b)],
                has_name: true,
                raw: s.raw.push(b),
                ..s
            })
        },
        State::DoctypeName => if is_ws(b) {
            go(TokSt { state: State::AfterDoctypeName, raw: s.raw.push(b), ..s })
        } else if b == 0x3e {
            emit_doctype(s, b, false)
        } else {
            go(TokSt { name: s.name.push(lower_byte(b)), raw: s.raw.push(b), ..s })
        },
        State::AfterDoctypeName => if is_ws(b) {
            go(TokSt { raw: s.raw.push(b), ..s })
        } else if b == 0x3e {
            emit_doctype(s, b, false)
        } else if b == 0x70 || b == 0x50 {
            go(TokSt { state: State::DoctypePublicKeyword, match_pos: 1usize, raw: s.raw.push(b), ..s })
        } else if b == 0x73 || b == 0x53 {
            go(TokSt { state: State::DoctypeSystemKeyword, match_pos: 1usize, raw: s.raw.push(b), ..s })
        } else {
            go(TokSt { state: State::BogusDoctype, force_quirks: true, raw: s.raw.push(b), ..s })
        },
        State::DoctypePublicKeyword => if s.match_pos < 6 && lower_byte(b) == public_lit(s.match_pos as int) {
            if s.match_pos == 5 {
                go(TokSt { state: State::AfterDoctypePublicKeyword, match_pos: 0usize, raw: s.raw.push(b), ..s })
            } else {
                go(TokSt { match_pos: (s.match_pos + 1) as usize, raw: s.raw.push(b), ..s })
            }
        } else if b == 0x3e {
            emit_doctype(s, b, true)
        } else {
            go(TokSt { state: State::BogusDoctype, force_quirks: true, match_pos: 0usize, raw: s.raw.push(b), ..s })
        },
        State::DoctypeSystemKeyword => if s.match_pos < 6 && lower_byte(b) == system_lit(s.match_pos as int) {
            if s.match_pos == 5 {
                go(TokSt { state: State::AfterDoctypeSystemKeyword, match_pos: 0usize, raw: s.raw.push(b), ..s })
            } else {
                go(TokSt { match_pos: (s.match_pos + 1) as usize, raw: s.raw.push(b), ..s })
            }
        } else if b == 0x3e {
            emit_doctype(s, b, true)
        } else {
            go(TokSt { state: State::BogusDoctype, force_quirks: true, match_pos: 0usize, raw: s.raw.push(b), ..s })
        },
        State::AfterDoctypePublicKeyword => if is_ws(b) {
            go(TokSt { state: State::BeforeDoctypePublicId, raw: s.raw.push(b), ..s })
        } else if b == 0x22 {
            go(TokSt { state: State::DoctypePublicIdDouble, has_public: true, public_id: Seq::empty(), raw: s.raw.push(b), ..s })
        } else if b == 0x27 {
            go(TokSt { state: State::DoctypePublicIdSingle, has_public: true, public_id: Seq::empty(), raw: s.raw.push(b), ..s })
        } else if b == 0x3e {
            emit_doctype(s, b, true)
        } else {
            go(TokSt { state: State::BogusDoctype, force_quirks: true, raw: s.raw.push(b), ..s })
        },
        State::BeforeDoctypePublicId => if is_ws(b) {
            go(TokSt { raw: s.raw.push(b), ..s })
        } else if b == 0x22 {
            go(TokSt { state: State::DoctypePublicIdDouble, has_public: true, public_id: Seq::empty(), raw: s.raw.push(b), ..s })
        } else if b == 0x27 {
            go(TokSt { state: State::DoctypePublicIdSingle, has_public: true, public_id: Seq::empty(), raw: s.raw.push(b), ..s })
        } else if b == 0x3e {
            emit_doctype(s, b, true)
        } else {
            go(TokSt { state: State::BogusDoctype, force_quirks: true, raw: s.raw.push(b), ..s })
        },
        State::DoctypePublicIdDouble => if b == 0x22 {
            go(TokSt { state: State::AfterDoctypePublicId, raw: s.raw.push(b), ..s })
        } else if b == 0x3e {
            emit_doctype(s, b, true)
        } else {
            go(TokSt { public_id: s.public_id.push(b), raw: s.raw.push(b), ..s })
        },
        State::DoctypePublicIdSingle => if b == 0x27 {
            go(TokSt { state: State::AfterDoctypePublicId, raw: s.raw.push(b), ..s })
        } else if b == 0x3e {
            emit_doctype(s, b, true)
        } else {
            go(TokSt { public_id: s.public_id.push(b), raw: s.raw.push(b), ..s })
        },
        State::AfterDoctypePublicId => if is_ws(b) {
            go(TokSt { state: State::BetweenDoctypePublicSystem, raw: s.raw.push(b), ..s })
        } else if b == 0x3e {
            emit_doctype(s, b, false)
        } else if b == 0x22 {
            go(TokSt { state: State::DoctypeSystemIdDouble, has_system: true, system_id: Seq::empty(), raw: s.raw.push(b), ..s })
        } else if b == 0x27 {
            go(TokSt { state: State::DoctypeSystemIdSingle, has_system: true, system_id: Seq::empty(), raw: s.raw.push(b), ..s })
        } else {
            go(TokSt { state: State::BogusDoctype, force_quirks: true, raw: s.raw.push(b), ..s })
        },
        State::BetweenDoctypePublicSystem => if is_ws(b) {
            go(TokSt { raw: s.raw.push(b), ..s })
        } else if b == 0x3e {
            emit_doctype(s, b, false)
        } else if b == 0x22 {
            go(TokSt { state: State::DoctypeSystemIdDouble, has_system: true, system_id: Seq::empty(), raw: s.raw.push(b), ..s })
        } else if b == 0x27 {
            go(TokSt { state: State::DoctypeSystemIdSingle, has_system: true, system_id: Seq::empty(), raw: s.raw.push(b), ..s })
        } else {
            go(TokSt { state: State::BogusDoctype, force_quirks: true, raw: s.raw.push(b), ..s })
        },
        State::AfterDoctypeSystemKeyword => if is_ws(b) {
            go(TokSt { state: State::BeforeDoctypeSystemId, raw: s.raw.push(b), ..s })
        } else if b == 0x22 {
            go(TokSt { state: State::DoctypeSystemIdDouble, has_system: true, system_id: Seq::empty(), raw: s.raw.push(b), ..s })
        } else if b == 0x27 {
            go(TokSt { state: State::DoctypeSystemIdSingle, has_system: true, system_id: Seq::empty(), raw: s.raw.push(b), ..s })
        } else if b == 0x3e {
            emit_doctype(s, b, true)
        } else {
            go(TokSt { state: State::BogusDoctype, force_quirks: true, raw: s.raw.push(b), ..s })
        },
        State::BeforeDoctypeSystemId => if is_ws(b) {
            go(TokSt { raw: s.raw.push(b), ..s })
        } else if b == 0x22 {
            go(TokSt { state: State::DoctypeSystemIdDouble, has_system: true, system_id: Seq::empty(), raw: s.raw.push(b), ..s })
        } else if b == 0x27 {
            go(TokSt { state: State::DoctypeSystemIdSingle, has_system: true, system_id: Seq::empty(), raw: s.raw.push(b), ..s })
        } else if b == 0x3e {
            emit_doctype(s, b, true)
        } else {
            go(TokSt { state: State::BogusDoctype, force_quirks: true, raw: s.raw.push(b), ..s })
        },
        State::DoctypeSystemIdDouble => if b == 0x22 {
            go(TokSt { state: State::AfterDoctypeSystemId, raw: s.raw.push(b), ..s })
        } else if b == 0x3e {
            emit_doctype(s, b, true)
        } else {
            go(TokSt { system_id: s.system_id.push(b), raw: s.raw.push(b), ..s })
        },
        State::DoctypeSystemIdSingle => if b == 0x27 {
            go(TokSt { state: State::AfterDoctypeSystemId, raw: s.raw.push(b), ..s })
        } else if b == 0x3e {
            emit_doctype(s, b, true)
        } else {
            go(TokSt { system_id: s.system_id.push(b), raw: s.raw.push(b), ..s })
        },
        State::AfterDoctypeSystemId => if is_ws(b) {
            go(TokSt { raw: s.raw.push(b), ..s })
        } else if b == 0x3e {
            emit_doctype(s, b, false)
        } else {
            go(TokSt { state: State::BogusDoctype, raw: s.raw.push(b), ..s })
        },
        State::BogusDoctype => if b == 0x3e {
            emit_doctype(s, b, false)
        } else {
            go(TokSt { raw: s.raw.push(b), ..s })
        },
        State::CdataSection => if b == 0x5d {
            go(TokSt { state: State::CdataSectionBracket, raw: s.raw.push(b), ..s })
        } else {
            go(TokSt { text: s.text.push(b), ..s })
        },
        State::CdataSectionBracket => if b == 0x5d {
            go(TokSt { state: State::CdataSectionEnd, raw: s.raw.push(b), ..s })
        } else {
            go(TokSt {
                state: State::CdataSection,
                text: (s.text + s.raw).push(b),
                raw: Seq::empty(),
                ..s
            })
        },
        State::CdataSectionEnd => if b == 0x3e {
            Step {
                st: TokSt { state: State::Data, ..clear_token(s) },
                out: emit1(s, None, s.raw.push(b)),
            }
        } else if b == 0x5d {
            go(TokSt { text: s.text.push(0x5d), ..s })
        } else {
            go(TokSt {
                state: State::CdataSection,
                text: (s.text + s.raw).push(b),
                raw: Seq::empty(),
                ..s
            })
        },
        State::RcdataLessThan => if b == 0x2f {
            go(TokSt { state: State::RcdataEndTagOpen, raw: s.raw.push(b), ..s })
        } else {
            go(back_to_content(s, b, State::Rcdata, State::RcdataLessThan))
        },
        State::RcdataEndTagOpen => if is_alpha(b) {
            go(start_tag(s, b, true, State::RcdataEndTagName))
        } else {
            go(back_to_content(s, b, State::Rcdata, State::RcdataLessThan))
        },
        State::RcdataEndTagName => end_tag_name_step(s, b, State::Rcdata, State::RcdataLessThan, false),
        State::RawtextLessThan => if b == 0x2f {
            go(TokSt { state: State::RawtextEndTagOpen, raw: s.raw.push(b), ..s })
        } else {
            go(back_to_content(s, b, State::Rawtext, State::RawtextLessThan))
        },
        State::RawtextEndTagOpen => if is_alpha(b) {
            go(start_tag(s, b, true, State::RawtextEndTagName))
        } else {
            go(back_to_content(s, b, State::Rawtext, State::RawtextLessThan))
        },
        State::RawtextEndTagName => end_tag_name_step(s, b, State::Rawtext, State::RawtextLessThan, false),
        State::ScriptDataLessThan => if b == 0x2f {
            go(TokSt { state: State::ScriptDataEndTagOpen, raw: s.raw.push(b), ..s })
        } else if b == 0x21 {
            go(TokSt {
                state: State::ScriptDataEscapeStart,
                text: (s.text + s.raw).push(b),
                raw: Seq::empty(),
                ..s
            })
        } else {
            go(back_to_content(s, b, State::ScriptData, State::ScriptDataLessThan))
        },
        State::ScriptDataEndTagOpen => if is_alpha(b) {
            go(start_tag(s, b, true, State::ScriptDataEndTagName))
        } else {
            go(back_to_content(s, b, State::ScriptData, State::ScriptDataLessThan))
        },
        State::ScriptDataEndTagName => end_tag_name_step(s, b, State::ScriptData, State::ScriptDataLessThan, false),
        State::ScriptDataEscapeStart => if b == 0x2d {
            go(TokSt { state: State::ScriptDataEscapeStartDash, text: s.text.push(b), ..s })
        } else {
            go(back_to_content(s, b, State::ScriptData, State::ScriptDataLessThan))
        },
        State::ScriptDataEscapeStartDash => if b == 0x2d {
            go(TokSt { state: State::ScriptDataEscapedDashDash, text: s.text.push(b), ..s })
        } else {
            go(back_to_content(s, b, State::ScriptData, State::ScriptDataLessThan))
        },
        State::ScriptDataEscaped => if b == 0x2d {
            go(TokSt { state: State::ScriptDataEscapedDash, text: s.text.push(b), ..s })
        } else if b == 0x3c {
            go(TokSt { state: State::ScriptDataEscapedLessThan, raw: s.raw.push(b), ..s })
        } else {
            go(TokSt { text: s.text.push(b), ..s })
        },
        State::ScriptDataEscapedDash => if b == 0x2d {
            go(TokSt { state: State::ScriptDataEscapedDashDash, text: s.text.push(b), ..s })
        } else if b == 0x3c {
            go(TokSt { state: State::ScriptDataEscapedLessThan, raw: s.raw.push(b), ..s })
        } else {
            go(TokSt { state: State::ScriptDataEscaped, text: s.text.push(b), ..s })
        },
        State::ScriptDataEscapedDashDash => if b == 0x2d {
            go(TokSt { text: s.text.push(b), ..s })
        } else if b == 0x3c {
            go(TokSt { state: State::ScriptDataEscapedLessThan, raw: s.raw.push(b), ..s })
        } else if b == 0x3e {
            go(TokSt { state: State::ScriptData, text: s.text.push(b), ..s })
        } else {
            go(TokSt { state: State::ScriptDataEscaped, text: s.text.push(b), ..s })
        },
        State::ScriptDataEscapedLessThan => if b == 0x2f {
            go(TokSt { state: State::ScriptDataEscapedEndTagOpen, raw: s.raw.push(b), ..s })
        } else if is_alpha(b) {
            go(TokSt {
                state: State::ScriptDataDoubleEscapeStart,
                text: (s.text + s.raw).push(b),
                raw: Seq::empty(),
                temp: seq![lower_byte(b)],
                ..s
            })
        } else {
            go(back_to_escaped(s, b))
        },
        State::ScriptDataEscapedEndTagOpen => if is_alpha(b) {
            go(start_tag(s, b, true, State::ScriptDataEscapedEndTagName))
        } else {
            go(back_to_escaped(s, b))
        },
        State::ScriptDataEscapedEndTagName => end_tag_name_step(s, b, State::ScriptDataEscaped, State::ScriptDataEscapedLessThan, true),
        State::ScriptDataDoubleEscapeStart => if is_alpha(b) {
            go(TokSt { temp: s.temp.push(lower_byte(b)), text: s.text.push(b), ..s })
        } else if is_ws(b) || b == 0x2f || b == 0x3e {
            if s.temp == script_name() {
                go(TokSt { state: State::ScriptDataDoubleEscaped, text: s.text.push(b), ..s })
            } else {
                go(TokSt { state: State::ScriptDataEscaped, text: s.text.push(b), ..s })
            }
        } else {
            go(back_to_escaped(s, b))
        },
        State::ScriptDataDoubleEscaped => go(to_double_escaped(s, b)),
        State::ScriptDataDoubleEscapedDash => if b == 0x2d {
            go(TokSt { state: State::ScriptDataDoubleEscapedDashDash, text: s.text.push(b), ..s })
        } else if b == 0x3c {
            go(TokSt { state: State::ScriptDataDoubleEscapedLessThan, text: s.text.push(b), ..s })
        } else {
            go(TokSt { state: State::ScriptDataDoubleEscaped, text: s.text.push(b), ..s })
        },
        State::ScriptDataDoubleEscapedDashDash => if b == 0x2d {
            go(TokSt { text: s.text.push(b), ..s })
        } else if b == 0x3c {
            go(TokSt { state: State::ScriptDataDoubleEscapedLessThan, text: s.text.push(b), ..s })
        } else if b == 0x3e {
            go(TokSt { state: State::ScriptData, text: s.text.push(b), ..s })
        } else {
            go(TokSt { state: State::ScriptDataDoubleEscaped, text: s.text.push(b), ..s })
        },
        State::ScriptDataDoubleEscapedLessThan => if b == 0x2f {
            go(TokSt { state: State::ScriptDataDoubleEscapeEnd, text: s.text.push(b), temp: Seq::empty(), ..s })
        } else {
            go(to_double_escaped(s, b))
        },
        State::ScriptDataDoubleEscapeEnd => if is_alpha(b) {
            go(TokSt { temp: s.temp.push(lower_byte(b)), text: s.text.push(b), ..s })
        } else if is_ws(b) || b == 0x2f || b == 0x3e {
            if s.temp == script_name() {
                go(TokSt { state: State::ScriptDataEscaped, text: s.text.push(b), ..s })
            } else {
                go(TokSt { state: State::ScriptDataDoubleEscaped, text: s.text.push(b), ..s })
            }
        } else {
            go(to_double_escaped(s, b))
        },
    }
}

/// The unit that closes the stream.
pub open spec fn eof_unit() -> LexUnitS {
    LexUnitS { token: Some(TokenViewS::Eof), raw: Seq::empty() }
}

/// End-of-input actions of each state: pending character data is emitted,
/// an unterminated comment or DOCTYPE is emitted under its recovery rule,
/// an unterminated tag is dropped (its bytes emitted as a token-less
/// unit), and a final Eof unit closes the stream.
pub open spec fn eof_step(s: TokSt) -> Step {
    let done = TokSt { state: State::Data, ..clear_token(s) };
    match s.state {
        State::TagName | State::BeforeAttributeName | State::AttributeName
        | State::AfterAttributeName | State::BeforeAttributeValue | State::AttributeValueDouble
        | State::AttributeValueSingle | State::AttributeValueUnquoted
        | State::AfterAttributeValueQuoted | State::SelfClosingStartTag => Step {
            st: done,
            out: emit2(s, None, s.raw),
        },
        State::BogusComment | State::CommentStart | State::CommentStartDash | State::Comment
        | State::CommentEndDash | State::CommentEnd | State::CommentEndBang => Step {
            st: done,
            out: emit2(s, Some(TokenViewS::Comment(s.data)), s.raw),
        },
        State::MarkupDeclarationOpen | State::MarkupDeclarationDash
        | State::MarkupDeclarationDoctype | State::MarkupDeclarationCdata => Step {
            st: done,
            out: emit2(s, Some(TokenViewS::Comment(s.raw.skip(2))), s.raw),
        },
        State::Doctype | State::BeforeDoctypeName | State::DoctypeName | State::AfterDoctypeName
        | State::DoctypePublicKeyword | State::DoctypeSystemKeyword
        | State::AfterDoctypePublicKeyword | State::BeforeDoctypePublicId
        | State::DoctypePublicIdDouble | State::DoctypePublicIdSingle
        | State::AfterDoctypePublicId | State::BetweenDoctypePublicSystem
        | State::AfterDoctypeSystemKeyword | State::BeforeDoctypeSystemId
        | State::DoctypeSystemIdDouble | State::DoctypeSystemIdSingle
        | State::AfterDoctypeSystemId => Step {
            st: done,
            out: emit2(s, Some(doctype_view(TokSt { force_quirks: true, ..s })), s.raw),
        },
        State::BogusDoctype => Step {
            st: done,
            out: emit2(s, Some(doctype_view(s)), s.raw),
        },
        _ => {
            // Content-like states: any `<`-prefixed candidate falls back to
            // character data.
            let t = s.text + s.raw;
            Step {
                st: done,
                out: flush_eof(t),
            }
        },
    }
}

/// Fold `step` over a sequence of input bytes.
pub open spec fn run(s: TokSt, bytes: Seq<u8>) -> Step
    decreases bytes.len(),
{
    if bytes.len() == 0 {
        Step { st: s, out: Seq::empty() }
    } else {
        let h = step(s, bytes[0]);
        let r = run(h.st, bytes.skip(1));
        Step { st: r.st, out: h.out + r.out }
    }
}

/// `run` on a single byte is one `step`.
pub proof fn lemma_run_one(s: TokSt, b: u8)
    ensures
        run(s, seq![b]).st == step(s, b).st,
        run(s, seq![b]).out == step(s, b).out,
{
    reveal_with_fuel(run, 2);
    assert(seq![b].skip(1) =~= Seq::<u8>::empty());
    assert(run(s, seq![b]).out =~= step(s, b).out);
}

/// Fold `run` over a sequence of chunks.
pub open spec fn run_chunks(s: TokSt, chunks: Seq<Seq<u8>>) -> Step
    decreases chunks.len(),
{
    if chunks.len() == 0 {
        Step { st: s, out: Seq::empty() }
    } else {
        let h = run(s, chunks[0]);
        let r = run_chunks(h.st, chunks.skip(1));
        Step { st: r.st, out: h.out + r.out }
    }
}

/// Concatenation of a sequence of chunks.
pub open spec fn concat_chunks(chunks: Seq<Seq<u8>>) -> Seq<u8>
    decreases chunks.len(),
{
    if chunks.len() == 0 {
        Seq::empty()
    } else {
        chunks[0] + concat_chunks(chunks.skip(1))
    }
}

/// Running a document in two pieces equals running it whole.
#[verifier::rlimit(100)]
pub proof fn lemma_run_concat(s: TokSt, xs: Seq<u8>, ys: Seq<u8>)
    ensures
        run(s, xs + ys).st == run(run(s, xs).st, ys).st,
        run(s, xs + ys).out == run(s, xs).out + run(run(s, xs).st, ys).out,
    decreases xs.len(),
{
    if xs.len() == 0 {
        assert(xs + ys =~= ys);
        assert(run(s, xs).out + run(run(s, xs).st, ys).out =~= run(s, ys).out);
    } else {
        let h = step(s, xs[0]);
        assert((xs + ys)[0] == xs[0]);
        assert((xs + ys).skip(1) =~= xs.skip(1) + ys);
        lemma_run_concat(h.st, xs.skip(1), ys);
        assert(run(s, xs + ys).out =~= run(s, xs).out + run(run(s, xs).st, ys).out);
    }
}

/// Chunk-size independence: however the document's bytes are partitioned
/// into chunks, the machine reaches the same state and emits the same
/// sequence of lexical units as on the whole document at once.
pub proof fn lemma_chunk_independence(s: TokSt, chunks: Seq<Seq<u8>>)
    ensures
        run_chunks(s, chunks).st == run(s, concat_chunks(chunks)).st,
        run_chunks(s, chunks).out == run(s, concat_chunks(chunks)).out,
    decreases chunks.len(),
{
    if chunks.len() == 0 {
        assert(run_chunks(s, chunks).out =~= run(s, concat_chunks(chunks)).out);
    } else {
        let h = run(s, chunks[0]);
        lemma_chunk_independence(h.st, chunks.skip(1));
        lemma_run_concat(s, chunks[0], concat_chunks(chunks.skip(1)));
        assert(run_chunks(s, chunks).out =~= run(s, concat_chunks(chunks)).out);
    }
}

/// Splitting the input at any byte offset — in particular inside a
/// multi-byte literal under match — changes nothing: matching pauses at
/// the boundary and resumes without loss or double consumption.
pub proof fn lemma_split_independence(s: TokSt, bytes: Seq<u8>, i: int)
    requires
        0 <= i <= bytes.len(),
    ensures
        run(run(s, bytes.take(i)).st, bytes.skip(i)).st == run(s, bytes).st,
        run(s, bytes.take(i)).out + run(run(s, bytes.take(i)).st, bytes.skip(i)).out
            == run(s, bytes).out,
{
    lemma_run_concat(s, bytes.take(i), bytes.skip(i));
    assert(bytes.take(i) + bytes.skip(i) =~= bytes);
}

/// Bytes consumed but not yet emitted.
pub open spec fn pending(s: TokSt) -> Seq<u8> {
    s.text + s.raw
}

/// Well-formedness of the raw buffer: in the pure content states nothing
/// but character data is pending, and in the CDATA close states the raw
/// buffer holds exactly the brackets seen so far. `step` preserves this,
/// and every entry state starts with it.
pub open spec fn wf_raw(s: TokSt) -> bool {
    match s.state {
        State::Data | State::Plaintext | State::Rcdata | State::Rawtext | State::ScriptData
        | State::ScriptDataEscapeStart | State::ScriptDataEscapeStartDash
        | State::ScriptDataEscaped | State::ScriptDataEscapedDash
        | State::ScriptDataEscapedDashDash | State::ScriptDataDoubleEscapeStart
        | State::ScriptDataDoubleEscaped | State::ScriptDataDoubleEscapedDash
        | State::ScriptDataDoubleEscapedDashDash | State::ScriptDataDoubleEscapedLessThan
        | State::ScriptDataDoubleEscapeEnd | State::CdataSection => s.raw.len() == 0,
        State::CdataSectionBracket => s.raw.len() == 1 && s.raw[0] == 0x5d,
        State::CdataSectionEnd => s.raw.len() == 2 && s.raw[0] == 0x5d && s.raw[1] == 0x5d,
        State::TagOpen => s.raw.len() >= 1,
        State::MarkupDeclarationOpen | State::MarkupDeclarationDash
        | State::MarkupDeclarationDoctype | State::MarkupDeclarationCdata => s.raw.len() >= 2,
        _ => true,
    }
}

/// `step` keeps the raw buffer well-formed.
#[verifier::rlimit(100)]
pub proof fn lemma_step_preserves_wf(s: TokSt, b: u8)
    requires
        wf_raw(s),
    ensures
        wf_raw(step(s, b).st),
{
}

/// `run` keeps the raw buffer well-formed.
pub proof fn lemma_run_preserves_wf(s: TokSt, bytes: Seq<u8>)
    requires
        wf_raw(s),
    ensures
        wf_raw(run(s, bytes).st),
    decreases bytes.len(),
{
    if bytes.len() > 0 {
        lemma_step_preserves_wf(s, bytes[0]);
        lemma_run_preserves_wf(step(s, bytes[0]).st, bytes.skip(1));
    }
}

/// Concatenation of the raw ranges of a sequence of units.
pub open spec fn raw_concat(out: Seq<LexUnitS>) -> Seq<u8>
    decreases out.len(),
{
    if out.len() == 0 {
        Seq::empty()
    } else {
        out[0].raw + raw_concat(out.skip(1))
    }
}

pub proof fn lemma_raw_concat_concat(a: Seq<LexUnitS>, b: Seq<LexUnitS>)
    ensures
        raw_concat(a + b) == raw_concat(a) + raw_concat(b),
    decreases a.len(),
{
    if a.len() == 0 {
        assert(a + b =~= b);
        assert(raw_concat(a) + raw_concat(b) =~= raw_concat(b));
    } else {
        assert((a + b)[0] == a[0]);
        assert((a + b).skip(1) =~= a.skip(1) + b);
        lemma_raw_concat_concat(a.skip(1), b);
        assert(raw_concat(a + b) =~= raw_concat(a) + raw_concat(b));
    }
}

proof fn lemma_raw_concat_one(u: LexUnitS)
    ensures
        raw_concat(seq![u]) == u.raw,
{
    reveal_with_fuel(raw_concat, 2);
    assert(seq![u].skip(1) =~= Seq::<LexUnitS>::empty());
    assert(raw_concat(Seq::<LexUnitS>::empty()) =~= Seq::<u8>::empty());
    assert(raw_concat(seq![u]) =~= u.raw);
}

proof fn lemma_raw_concat_two(u: LexUnitS, v: LexUnitS)
    ensures
        raw_concat(seq![u, v]) == u.raw + v.raw,
{
    assert(seq![u, v].skip(1) =~= seq![v]);
    lemma_raw_concat_one(v);
    assert(raw_concat(seq![u, v]) =~= u.raw + v.raw);
}

proof fn lemma_raw_concat_flush(s: TokSt, rest: Seq<LexUnitS>)
    ensures
        raw_concat(flush_out(s) + rest) == s.text + raw_concat(rest),
{
    lemma_raw_concat_concat(flush_out(s), rest);
    if s.text.len() > 0 {
        lemma_raw_concat_one(LexUnitS { token: Some(TokenViewS::Character), raw: s.text });
    } else {
        assert(raw_concat(flush_out(s)) =~= Seq::<u8>::empty());
    }
    assert(raw_concat(flush_out(s) + rest) =~= s.text + raw_concat(rest));
}

/// `emit1` emits the pending text and then the given raw range.
pub broadcast proof fn lemma_rc_emit1(s: TokSt, tok: Option<TokenViewS>, raw: Seq<u8>)
    ensures
        #[trigger] raw_concat(emit1(s, tok, raw)) == s.text + raw,
{
    lemma_raw_concat_flush(s, seq![LexUnitS { token: tok, raw }]);
    lemma_raw_concat_one(LexUnitS { token: tok, raw });
    assert(raw_concat(emit1(s, tok, raw)) =~= s.text + raw);
}

/// `emit2` emits the pending text, the given raw range, and the raw-less
/// Eof unit.
pub broadcast proof fn lemma_rc_emit2(s: TokSt, tok: Option<TokenViewS>, raw: Seq<u8>)
    ensures
        #[trigger] raw_concat(emit2(s, tok, raw)) == s.text + raw,
{
    lemma_raw_concat_concat(emit1(s, tok, raw), seq![eof_unit()]);
    lemma_rc_emit1(s, tok, raw);
    lemma_raw_concat_one(eof_unit());
    assert(raw_concat(emit2(s, tok, raw)) =~= s.text + raw);
}

/// `flush_eof` emits exactly the given text.
pub broadcast proof fn lemma_rc_flush_eof(t: Seq<u8>)
    ensures
        #[trigger] raw_concat(flush_eof(t)) == t,
{
    reveal_with_fuel(raw_concat, 2);
    if t.len() > 0 {
        lemma_raw_concat_two(
            LexUnitS { token: Some(TokenViewS::Character), raw: t },
            eof_unit(),
        );
        assert(seq![LexUnitS { token: Some(TokenViewS::Character), raw: t }] + seq![eof_unit()]
            =~= seq![LexUnitS { token: Some(TokenViewS::Character), raw: t }, eof_unit()]);
    } else {
        lemma_raw_concat_one(eof_unit());
        assert(Seq::<LexUnitS>::empty() + seq![eof_unit()] =~= seq![eof_unit()]);
    }
    assert(raw_concat(flush_eof(t)) =~= t);
}

/// Whether the state belongs to the plain content family.
pub open spec fn in_content_group(st: State) -> bool {
    st is Data || st is Plaintext || st is Rcdata || st is Rawtext || st is ScriptData
        || st is RcdataLessThan || st is RcdataEndTagOpen || st is RcdataEndTagName
        || st is RawtextLessThan || st is RawtextEndTagOpen || st is RawtextEndTagName
        || st is ScriptDataLessThan || st is ScriptDataEndTagOpen || st is ScriptDataEndTagName
}

/// Whether the state belongs to the escaped-script or CDATA family.
pub open spec fn in_escaped_group(st: State) -> bool {
    st is ScriptDataEscapeStart || st is ScriptDataEscapeStartDash || st is ScriptDataEscaped
        || st is ScriptDataEscapedDash || st is ScriptDataEscapedDashDash
        || st is ScriptDataEscapedLessThan || st is ScriptDataEscapedEndTagOpen
        || st is ScriptDataEscapedEndTagName || st is ScriptDataDoubleEscapeStart
        || st is ScriptDataDoubleEscaped || st is ScriptDataDoubleEscapedDash
        || st is ScriptDataDoubleEscapedDashDash || st is ScriptDataDoubleEscapedLessThan
        || st is ScriptDataDoubleEscapeEnd || st is CdataSection || st is CdataSectionBracket
        || st is CdataSectionEnd
}

/// Whether the state belongs to the tag, comment or markup-declaration
/// family.
pub open spec fn in_tag_comment_group(st: State) -> bool {
    st is TagOpen || st is EndTagOpen || st is TagName || st is BeforeAttributeName
        || st is AttributeName || st is AfterAttributeName || st is BeforeAttributeValue
        || st is AttributeValueDouble || st is AttributeValueSingle
        || st is AttributeValueUnquoted || st is AfterAttributeValueQuoted
        || st is SelfClosingStartTag || st is BogusComment || st is MarkupDeclarationOpen
        || st is MarkupDeclarationDash || st is MarkupDeclarationDoctype
        || st is MarkupDeclarationCdata || st is CommentStart || st is CommentStartDash
        || st is Comment || st is CommentEndDash || st is CommentEnd || st is CommentEndBang
}

#[verifier::rlimit(100)]
proof fn lemma_step_rt_content(s: TokSt, b: u8)
    requires
        wf_raw(s),
        in_content_group(s.state),
    ensures
        raw_concat(step(s, b).out) + pending(step(s, b).st) == pending(s).push(b),
{
    broadcast use lemma_rc_emit1;

    let r = step(s, b);
    reveal_with_fuel(raw_concat, 2);
    assert(raw_concat(Seq::<LexUnitS>::empty()) == Seq::<u8>::empty());
    assert(raw_concat(r.out) + pending(r.st) =~= pending(s).push(b));
}

#[verifier::rlimit(100)]
proof fn lemma_step_rt_escaped(s: TokSt, b: u8)
    requires
        wf_raw(s),
        in_escaped_group(s.state),
    ensures
        raw_concat(step(s, b).out) + pending(step(s, b).st) == pending(s).push(b),
{
    broadcast use lemma_rc_emit1;

    let r = step(s, b);
    reveal_with_fuel(raw_concat, 2);
    assert(raw_concat(Seq::<LexUnitS>::empty()) == Seq::<u8>::empty());
    assert(raw_concat(r.out) + pending(r.st) =~= pending(s).push(b));
}

#[verifier::rlimit(100)]
proof fn lemma_step_rt_tag_comment(s: TokSt, b: u8)
    requires
        wf_raw(s),
        in_tag_comment_group(s.state),
    ensures
        raw_concat(step(s, b).out) + pending(step(s, b).st) == pending(s).push(b),
{
    broadcast use lemma_rc_emit1;

    let r = step(s, b);
    reveal_with_fuel(raw_concat, 2);
    assert(raw_concat(Seq::<LexUnitS>::empty()) == Seq::<u8>::empty());
    assert(raw_concat(r.out) + pending(r.st) =~= pending(s).push(b));
}

#[verifier::rlimit(100)]
proof fn lemma_step_rt_doctype(s: TokSt, b: u8)
    requires
        wf_raw(s),
        !in_content_group(s.state),
        !in_escaped_group(s.state),
        !in_tag_comment_group(s.state),
    ensures
        raw_concat(step(s, b).out) + pending(step(s, b).st) == pending(s).push(b),
{
    broadcast use lemma_rc_emit1;

    let r = step(s, b);
    reveal_with_fuel(raw_concat, 2);
    assert(raw_concat(Seq::<LexUnitS>::empty()) == Seq::<u8>::empty());
    assert(raw_concat(r.out) + pending(r.st) =~= pending(s).push(b));
}

/// One step neither loses nor duplicates a byte: what was pending plus the
/// new byte is exactly what was emitted plus what is pending after.
pub proof fn lemma_step_round_trip(s: TokSt, b: u8)
    requires
        wf_raw(s),
    ensures
        raw_concat(step(s, b).out) + pending(step(s, b).st) == pending(s).push(b),
{
    if in_content_group(s.state) {
        lemma_step_rt_content(s, b);
    } else if in_escaped_group(s.state) {
        lemma_step_rt_escaped(s, b);
    } else if in_tag_comment_group(s.state) {
        lemma_step_rt_tag_comment(s, b);
    } else {
        lemma_step_rt_doctype(s, b);
    }
}

/// `eof_step` drains everything pending into emitted units.
pub proof fn lemma_eof_round_trip(s: TokSt)
    ensures
        raw_concat(eof_step(s).out) == pending(s),
        pending(eof_step(s).st) == Seq::<u8>::empty(),
{
    broadcast use lemma_rc_emit2, lemma_rc_flush_eof;

    let r = eof_step(s);
    assert(raw_concat(r.out) =~= pending(s));
    assert(pending(r.st) =~= Seq::<u8>::empty());
}

/// The round-trip law over a whole run: the concatenation of all emitted
/// raw ranges plus the still-pending bytes is the pending input plus every
/// byte fed in.
#[verifier::rlimit(100)]
pub proof fn lemma_run_round_trip(s: TokSt, bytes: Seq<u8>)
    requires
        wf_raw(s),
    ensures
        raw_concat(run(s, bytes).out) + pending(run(s, bytes).st) == pending(s) + bytes,
    decreases bytes.len(),
{
    if bytes.len() == 0 {
        assert(raw_concat(run(s, bytes).out) + pending(run(s, bytes).st) =~= pending(s) + bytes);
    } else {
        let h = step(s, bytes[0]);
        lemma_step_round_trip(s, bytes[0]);
        lemma_step_preserves_wf(s, bytes[0]);
        lemma_run_round_trip(h.st, bytes.skip(1));
        let rest = run(h.st, bytes.skip(1));
        lemma_raw_concat_concat(h.out, rest.out);
        assert((raw_concat(h.out) + raw_concat(rest.out)) + pending(rest.st)
            =~= raw_concat(h.out) + (raw_concat(rest.out) + pending(rest.st)));
        assert(raw_concat(h.out) + (pending(h.st) + bytes.skip(1))
            =~= (raw_concat(h.out) + pending(h.st)) + bytes.skip(1));
        assert(pending(s).push(bytes[0]) + bytes.skip(1) =~= pending(s) + bytes);
        assert(raw_concat(run(s, bytes).out) + pending(run(s, bytes).st) =~= pending(s) + bytes);
    }
}

} // verus!
