//! The executable streaming tokenizer: a chunk-fed engine proved to emit
//! exactly what the machine model `run`/`eof_step` prescribes.

use vstd::prelude::*;
use crate::machine::{
    State, TokSt, LexUnitS, TokenViewS, Step, initial, wf_raw, clear_token, emit1, emit_tag,
    emit_comment, emit_doctype, doctype_view, tag_view, attrs_now, new_attr, start_tag,
    back_to_content, back_to_escaped, to_double_escaped, end_tag_name_step, is_appropriate,
    is_ws, is_alpha, doctype_lit, cdata_lit, public_lit, system_lit, script_name, dest_state_for,
    step, eof_step, run, lemma_run_concat, lemma_run_one, lemma_step_preserves_wf, eof_unit,
    flush_eof, emit2, flush_out, in_content_group, in_escaped_group, in_tag_comment_group,
    TITLE_HASH, TEXTAREA_HASH, STYLE_HASH, XMP_HASH, IFRAME_HASH, NOEMBED_HASH, NOFRAMES_HASH,
    NOSCRIPT_HASH, SCRIPT_HASH, PLAINTEXT_HASH,
};
use crate::tokens::{Attribute, TokenView, LexUnit, opt_tok_view, attrs_view};
use crate::to_lower_byte;
use crate::hash::{get_hash, hash_of};

verus! {

/// The view of a sequence of emitted units.
pub open spec fn units_view(v: Seq<LexUnit>) -> Seq<LexUnitS> {
    v.map_values(|u: LexUnit| u@)
}

/// The entry states a tokenizer may be (re)started in.
#[derive(Clone, Copy, PartialEq, Eq, Structural, Debug)]
pub enum TextParsingMode {
    Data,
    PlainText,
    RCData,
    RawText,
    ScriptData,
    CDataSection,
}

pub open spec fn mode_state(m: TextParsingMode) -> State {
    match m {
        TextParsingMode::Data => State::Data,
        TextParsingMode::PlainText => State::Plaintext,
        TextParsingMode::RCData => State::Rcdata,
        TextParsingMode::RawText => State::Rawtext,
        TextParsingMode::ScriptData => State::ScriptData,
        TextParsingMode::CDataSection => State::CdataSection,
    }
}

fn take_vec(v: &mut Vec<u8>) -> (r: Vec<u8>)
    ensures
        r@ == old(v)@,
        final(v)@ == Seq::<u8>::empty(),
{
    let mut t: Vec<u8> = Vec::new();
    core::mem::swap(&mut t, v);
    t
}

/// Copy of `v` from index `k` on.
fn tail_from(v: &Vec<u8>, k: usize) -> (r: Vec<u8>)
    requires
        k <= v@.len(),
    ensures
        r@ == v@.skip(k as int),
{
    let mut r: Vec<u8> = Vec::new();
    let mut i: usize = k;
    while i < v.len()
        invariant
            k <= i <= v@.len(),
            r@ == v@.subrange(k as int, i as int),
        decreases v@.len() - i,
    {
        r.push(v[i]);
        proof {
            assert(v@.subrange(k as int, i + 1) =~= v@.subrange(k as int, i as int).push(v@[i as int]));
        }
        i = i + 1;
    }
    proof {
        assert(v@.subrange(k as int, v@.len() as int) =~= v@.skip(k as int));
    }
    r
}

fn is_ws_exec(b: u8) -> (r: bool)
    ensures
        r == is_ws(b),
{
    b == 0x20 || b == 0x09 || b == 0x0a || b == 0x0c || b == 0x0d
}

fn is_alpha_exec(b: u8) -> (r: bool)
    ensures
        r == is_alpha(b),
{
    (0x41 <= b && b <= 0x5a) || (0x61 <= b && b <= 0x7a)
}

fn doctype_lit_at(i: usize) -> (r: u8)
    ensures
        r == doctype_lit(i as int),
{
    if i == 1 { 0x6f } else if i == 2 { 0x63 } else if i == 3 { 0x74 }
    else if i == 4 { 0x79 } else if i == 5 { 0x70 } else { 0x65 }
}

fn cdata_lit_at(i: usize) -> (r: u8)
    ensures
        r == cdata_lit(i as int),
{
    if i == 1 { 0x43 } else if i == 2 { 0x44 } else if i == 3 { 0x41 }
    else if i == 4 { 0x54 } else if i == 5 { 0x41 } else { 0x5b }
}

fn public_lit_at(i: usize) -> (r: u8)
    ensures
        r == public_lit(i as int),
{
    if i == 1 { 0x75 } else if i == 2 { 0x62 } else if i == 3 { 0x6c }
    else if i == 4 { 0x69 } else { 0x63 }
}

fn system_lit_at(i: usize) -> (r: u8)
    ensures
        r == system_lit(i as int),
{
    if i == 1 { 0x79 } else if i == 2 { 0x73 } else if i == 3 { 0x74 }
    else if i == 4 { 0x65 } else { 0x6d }
}

/// The state entered after a start tag with the given name hash.
fn dest_state(h: Option<u64>) -> (r: State)
    ensures
        r == dest_state_for(h),
{
    match h {
        Some(v) => {
            if v == TITLE_HASH || v == TEXTAREA_HASH {
                State::Rcdata
            } else if v == STYLE_HASH || v == XMP_HASH || v == IFRAME_HASH
                || v == NOEMBED_HASH || v == NOFRAMES_HASH || v == NOSCRIPT_HASH {
                State::Rawtext
            } else if v == SCRIPT_HASH {
                State::ScriptData
            } else if v == PLAINTEXT_HASH {
                State::Plaintext
            } else {
                State::Data
            }
        },
        None => State::Data,
    }
}

/// The streaming tokenizer. Its abstract value is a machine state
/// (`TokSt`); every operation's contract is stated against the machine
/// model in `machine`.
pub struct Tokenizer {
    pub state: State,
    pub text: Vec<u8>,
    pub raw: Vec<u8>,
    pub name: Vec<u8>,
    pub has_name: bool,
    pub data: Vec<u8>,
    pub temp: Vec<u8>,
    pub attr_name: Vec<u8>,
    pub attr_value: Vec<u8>,
    pub has_attr: bool,
    pub attrs: Vec<Attribute>,
    pub is_end: bool,
    pub self_closing: bool,
    pub force_quirks: bool,
    pub public_id: Vec<u8>,
    pub has_public: bool,
    pub system_id: Vec<u8>,
    pub has_system: bool,
    pub match_pos: usize,
    pub last_hash: Option<u64>,
}

impl View for Tokenizer {
    type V = TokSt;

    open spec fn view(&self) -> TokSt {
        TokSt {
            state: self.state,
            text: self.text@,
            raw: self.raw@,
            name: self.name@,
            has_name: self.has_name,
            data: self.data@,
            temp: self.temp@,
            attr_name: self.attr_name@,
            attr_value: self.attr_value@,
            has_attr: self.has_attr,
            attrs: attrs_view(self.attrs@),
            is_end: self.is_end,
            self_closing: self.self_closing,
            force_quirks: self.force_quirks,
            public_id: self.public_id@,
            has_public: self.has_public,
            system_id: self.system_id@,
            has_system: self.has_system,
            match_pos: self.match_pos,
            last_hash: self.last_hash,
        }
    }
}

impl Tokenizer {
    /// A fresh tokenizer in the Data state with no recorded hash.
    pub fn new() -> (r: Self)
        ensures
            r@ == initial(State::Data, None),
            wf_raw(r@),
    {
        let t = Tokenizer {
            state: State::Data,
            text: Vec::new(),
            raw: Vec::new(),
            name: Vec::new(),
            has_name: false,
            data: Vec::new(),
            temp: Vec::new(),
            attr_name: Vec::new(),
            attr_value: Vec::new(),
            has_attr: false,
            attrs: Vec::new(),
            is_end: false,
            self_closing: false,
            force_quirks: false,
            public_id: Vec::new(),
            has_public: false,
            system_id: Vec::new(),
            has_system: false,
            match_pos: 0,
            last_hash: None,
        };
        proof {
            assert(t@ =~= initial(State::Data, None));
        }
        t
    }

    /// Restart the machine in one of the named entry states, keeping the
    /// seeded last-start-tag hash; pending buffers are discarded.
    pub fn set_state(&mut self, mode: TextParsingMode)
        ensures
            final(self)@ == initial(mode_state(mode), old(self)@.last_hash),
            wf_raw(final(self)@),
    {
        let h = self.last_hash;
        let mut t = Tokenizer::new();
        t.state = match mode {
            TextParsingMode::Data => State::Data,
            TextParsingMode::PlainText => State::Plaintext,
            TextParsingMode::RCData => State::Rcdata,
            TextParsingMode::RawText => State::Rawtext,
            TextParsingMode::ScriptData => State::ScriptData,
            TextParsingMode::CDataSection => State::CdataSection,
        };
        t.last_hash = h;
        *self = t;
        proof {
            assert(self@ =~= initial(mode_state(mode), old(self)@.last_hash));
        }
    }

    /// Seed the hash used to recognize the appropriate end tag when the
    /// tokenizer is started inside a raw-text element.
    pub fn set_last_start_tag_name_hash(&mut self, h: Option<u64>)
        requires
            wf_raw(old(self)@),
        ensures
            final(self)@ == (TokSt { last_hash: h, ..old(self)@ }),
            wf_raw(final(self)@),
    {
        self.last_hash = h;
        proof {
            assert(self@ =~= (TokSt { last_hash: h, ..old(self)@ }));
        }
    }

    /// Whether the accumulated end-tag name matches the recorded last
    /// start tag, by hash.
    fn appropriate_now(&self) -> (r: bool)
        ensures
            r == is_appropriate(self@),
    {
        let h = get_hash(self.name.as_slice());
        match (h, self.last_hash) {
            (Some(a), Some(b)) => a == b,
            _ => false,
        }
    }

    /// Emit the pending character data (if any) and then one unit.
    fn emit_unit(&mut self, tok: Option<TokenView>, raw: Vec<u8>, units: &mut Vec<LexUnit>)
        ensures
            final(self)@ == (TokSt { text: Seq::empty(), ..old(self)@ }),
            units_view(final(units)@) =~= units_view(old(units)@)
                + emit1(old(self)@, opt_tok_view(tok), raw@),
    {
        if self.text.len() > 0 {
            let t = take_vec(&mut self.text);
            units.push(LexUnit { token_view: Some(TokenView::Character), raw: t });
        }
        units.push(LexUnit { token_view: tok, raw });
        proof {
            assert(self@ =~= (TokSt { text: Seq::empty(), ..old(self)@ }));
            assert(units_view(units@) =~= units_view(old(units)@)
                + emit1(old(self)@, opt_tok_view(tok), raw@));
        }
    }

    /// Reset every per-token buffer and flag.
    fn clear_token_state(&mut self)
        ensures
            final(self)@ == clear_token(old(self)@),
    {
        self.text = Vec::new();
        self.raw = Vec::new();
        self.name = Vec::new();
        self.has_name = false;
        self.data = Vec::new();
        self.temp = Vec::new();
        self.attr_name = Vec::new();
        self.attr_value = Vec::new();
        self.has_attr = false;
        self.attrs = Vec::new();
        self.is_end = false;
        self.self_closing = false;
        self.force_quirks = false;
        self.public_id = Vec::new();
        self.has_public = false;
        self.system_id = Vec::new();
        self.has_system = false;
        self.match_pos = 0;
        proof {
            assert(self@ =~= clear_token(old(self)@));
        }
    }

    /// Finish the attribute under construction and start the next one.
    fn new_attr_exec(&mut self, b: u8)
        ensures
            final(self)@ == new_attr(old(self)@, b),
    {
        self.raw.push(b);
        if self.has_attr {
            let an = take_vec(&mut self.attr_name);
            let av = take_vec(&mut self.attr_value);
            self.attrs.push(Attribute { name: an, value: av });
        }
        self.has_attr = true;
        self.attr_name = Vec::new();
        self.attr_name.push(to_lower_byte(b));
        self.attr_value = Vec::new();
        self.state = State::AttributeName;
        proof {
            assert(attrs_view(self.attrs@) =~= attrs_now(old(self)@));
            assert(self@ =~= new_attr(old(self)@, b));
        }
    }

    /// Begin a tag-name accumulation (start, end or raw-text candidate).
    fn start_tag_exec(&mut self, b: u8, end: bool, st: State)
        ensures
            final(self)@ == start_tag(old(self)@, b, end, st),
    {
        self.raw.push(b);
        self.name = Vec::new();
        self.name.push(to_lower_byte(b));
        self.is_end = end;
        self.self_closing = false;
        self.has_attr = false;
        self.attr_name = Vec::new();
        self.attr_value = Vec::new();
        self.attrs = Vec::new();
        self.state = st;
        proof {
            assert(self@ =~= start_tag(old(self)@, b, end, st));
        }
    }

    /// Fall back from a `<`-prefixed candidate to character data.
    fn back_to_content_exec(&mut self, b: u8, content: State, lt: State)
        ensures
            final(self)@ == back_to_content(old(self)@, b, content, lt),
    {
        let mut r = take_vec(&mut self.raw);
        self.text.append(&mut r);
        if b == 0x3c {
            self.raw.push(b);
            self.state = lt;
        } else {
            self.text.push(b);
            self.state = content;
        }
        proof {
            assert(self@ =~= back_to_content(old(self)@, b, content, lt));
        }
    }

    /// Fall back into the script-data escaped family.
    fn back_to_escaped_exec(&mut self, b: u8)
        ensures
            final(self)@ == back_to_escaped(old(self)@, b),
    {
        let mut r = take_vec(&mut self.raw);
        self.text.append(&mut r);
        if b == 0x3c {
            self.raw.push(b);
            self.state = State::ScriptDataEscapedLessThan;
        } else if b == 0x2d {
            self.text.push(b);
            self.state = State::ScriptDataEscapedDash;
        } else {
            self.text.push(b);
            self.state = State::ScriptDataEscaped;
        }
        proof {
            assert(self@ =~= back_to_escaped(old(self)@, b));
        }
    }

    /// Emit the tag under construction on its closing `>`.
    fn emit_tag_exec(&mut self, b: u8, units: &mut Vec<LexUnit>)
        ensures
            final(self)@ == emit_tag(old(self)@, b).st,
            units_view(final(units)@) =~= units_view(old(units)@) + emit_tag(old(self)@, b).out,
    {
        self.raw.push(b);
        if self.has_attr {
            let an = take_vec(&mut self.attr_name);
            let av = take_vec(&mut self.attr_value);
            self.attrs.push(Attribute { name: an, value: av });
            self.has_attr = false;
        }
        proof {
            assert(attrs_view(self.attrs@) =~= attrs_now(old(self)@));
        }
        let h = get_hash(self.name.as_slice());
        let is_end = self.is_end;
        let tok = if is_end {
            let n = take_vec(&mut self.name);
            TokenView::EndTag { name: n }
        } else {
            let n = take_vec(&mut self.name);
            let mut ats: Vec<Attribute> = Vec::new();
            core::mem::swap(&mut ats, &mut self.attrs);
            TokenView::StartTag { name: n, attributes: ats, self_closing: self.self_closing }
        };
        proof {
            assert(tok@ == tag_view(old(self)@));
        }
        let raw = take_vec(&mut self.raw);
        self.emit_unit(Some(tok), raw, units);
        self.clear_token_state();
        if is_end {
            self.state = State::Data;
        } else {
            self.state = dest_state(h);
            self.last_hash = h;
        }
        proof {
            assert(self@ =~= emit_tag(old(self)@, b).st);
        }
    }

    /// Emit a comment token.
    fn emit_comment_exec(&mut self, data: Vec<u8>, raw: Vec<u8>, units: &mut Vec<LexUnit>)
        ensures
            final(self)@ == emit_comment(old(self)@, data@, raw@).st,
            units_view(final(units)@) =~= units_view(old(units)@)
                + emit_comment(old(self)@, data@, raw@).out,
    {
        proof {
            assert(opt_tok_view(Some(TokenView::Comment(data)))
                == Some(TokenViewS::Comment(data@)));
        }
        self.emit_unit(Some(TokenView::Comment(data)), raw, units);
        self.clear_token_state();
        self.state = State::Data;
        proof {
            assert(self@ =~= emit_comment(old(self)@, data@, raw@).st);
        }
    }

    /// Move the recorded DOCTYPE pieces into a token view.
    fn build_doctype_view(&mut self, quirks: bool) -> (r: TokenView)
        ensures
            r@ == doctype_view(TokSt { force_quirks: old(self)@.force_quirks || quirks, ..old(self)@ }),
            final(self)@ == (TokSt {
                name: Seq::empty(),
                public_id: Seq::empty(),
                system_id: Seq::empty(),
                ..old(self)@
            }),
    {
        let name = if self.has_name { Some(take_vec(&mut self.name)) } else { self.name = Vec::new(); None };
        let public_id = if self.has_public { Some(take_vec(&mut self.public_id)) } else { self.public_id = Vec::new(); None };
        let system_id = if self.has_system { Some(take_vec(&mut self.system_id)) } else { self.system_id = Vec::new(); None };
        let r = TokenView::Doctype {
            name,
            public_id,
            system_id,
            force_quirks: self.force_quirks || quirks,
        };
        proof {
            assert(self@ =~= (TokSt {
                name: Seq::empty(),
                public_id: Seq::empty(),
                system_id: Seq::empty(),
                ..old(self)@
            }));
        }
        r
    }

    /// Emit the DOCTYPE under construction on its closing `>`.
    fn emit_doctype_exec(&mut self, b: u8, quirks: bool, units: &mut Vec<LexUnit>)
        ensures
            final(self)@ == emit_doctype(old(self)@, b, quirks).st,
            units_view(final(units)@) =~= units_view(old(units)@)
                + emit_doctype(old(self)@, b, quirks).out,
    {
        self.raw.push(b);
        let tok = self.build_doctype_view(quirks);
        let raw = take_vec(&mut self.raw);
        self.emit_unit(Some(tok), raw, units);
        self.clear_token_state();
        self.state = State::Data;
        proof {
            assert(self@ =~= emit_doctype(old(self)@, b, quirks).st);
        }
    }

    /// Shared transition of the raw-text end-tag-name states.
    fn end_tag_name_exec(&mut self, b: u8, content: State, lt: State, esc: bool, units: &mut Vec<LexUnit>)
        ensures
            final(self)@ == end_tag_name_step(old(self)@, b, content, lt, esc).st,
            units_view(final(units)@) =~= units_view(old(units)@)
                + end_tag_name_step(old(self)@, b, content, lt, esc).out,
    {
        if is_alpha_exec(b) {
            self.name.push(to_lower_byte(b));
            self.raw.push(b);
        } else {
            let matched = (is_ws_exec(b) || b == 0x2f || b == 0x3e) && self.appropriate_now();
            if matched {
                if b == 0x3e {
                    self.emit_tag_exec(b, units);
                } else if b == 0x2f {
                    self.raw.push(b);
                    self.state = State::SelfClosingStartTag;
                } else {
                    self.raw.push(b);
                    self.state = State::BeforeAttributeName;
                }
            } else if esc {
                self.back_to_escaped_exec(b);
            } else {
                self.back_to_content_exec(b, content, lt);
            }
        }
        proof {
            assert(self@ =~= end_tag_name_step(old(self)@, b, content, lt, esc).st);
        }
    }
}

impl Tokenizer {
    /// One input byte in the plain content states.
    #[verifier::rlimit(100)]
    fn step_content(&mut self, b: u8, units: &mut Vec<LexUnit>)
        requires
            wf_raw(old(self)@),
            in_content_group(old(self)@.state),
        ensures
            final(self)@ == step(old(self)@, b).st,
            units_view(final(units)@) =~= units_view(old(units)@) + step(old(self)@, b).out,
    {
        match self.state {
            State::Data => if b == 0x3c {
                self.raw.push(b);
                self.state = State::TagOpen;
            } else {
                self.text.push(b);
            },
            State::Plaintext => self.text.push(b),
            State::Rcdata => if b == 0x3c {
                self.raw.push(b);
                self.state = State::RcdataLessThan;
            } else {
                self.text.push(b);
            },
            State::Rawtext => if b == 0x3c {
                self.raw.push(b);
                self.state = State::RawtextLessThan;
            } else {
                self.text.push(b);
            },
            State::ScriptData => if b == 0x3c {
                self.raw.push(b);
                self.state = State::ScriptDataLessThan;
            } else {
                self.text.push(b);
            },
            State::RcdataLessThan => if b == 0x2f {
                self.raw.push(b);
                self.state = State::RcdataEndTagOpen;
            } else {
                self.back_to_content_exec(b, State::Rcdata, State::RcdataLessThan);
            },
            State::RcdataEndTagOpen => if is_alpha_exec(b) {
                self.start_tag_exec(b, true, State::RcdataEndTagName);
            } else {
                self.back_to_content_exec(b, State::Rcdata, State::RcdataLessThan);
            },
            State::RcdataEndTagName => self.end_tag_name_exec(b, State::Rcdata, State::RcdataLessThan, false, units),
            State::RawtextLessThan => if b == 0x2f {
                self.raw.push(b);
                self.state = State::RawtextEndTagOpen;
            } else {
                self.back_to_content_exec(b, State::Rawtext, State::RawtextLessThan);
            },
            State::RawtextEndTagOpen => if is_alpha_exec(b) {
                self.start_tag_exec(b, true, State::RawtextEndTagName);
            } else {
                self.back_to_content_exec(b, State::Rawtext, State::RawtextLessThan);
            },
            State::RawtextEndTagName => self.end_tag_name_exec(b, State::Rawtext, State::RawtextLessThan, false, units),
            State::ScriptDataLessThan => if b == 0x2f {
                self.raw.push(b);
                self.state = State::ScriptDataEndTagOpen;
            } else if b == 0x21 {
                let mut r = take_vec(&mut self.raw);
                self.text.append(&mut r);
                self.text.push(b);
                self.state = State::ScriptDataEscapeStart;
            } else {
                self.back_to_content_exec(b, State::ScriptData, State::ScriptDataLessThan);
            },
            State::ScriptDataEndTagOpen => if is_alpha_exec(b) {
                self.start_tag_exec(b, true, State::ScriptDataEndTagName);
            } else {
                self.back_to_content_exec(b, State::ScriptData, State::ScriptDataLessThan);
            },
            State::ScriptDataEndTagName => self.end_tag_name_exec(b, State::ScriptData, State::ScriptDataLessThan, false, units),
            _ => {
                proof {
                    assert(false);
                }
            },
        }
        proof {
            assert(self@ =~= step(old(self)@, b).st);
        }
    }

    /// Whether the double-escape temporary buffer spells `script`.
    fn temp_is_script(&self) -> (r: bool)
        ensures
            r == (self@.temp == script_name()),
    {
        let ok = self.temp.len() == 6 && self.temp[0] == 0x73 && self.temp[1] == 0x63
            && self.temp[2] == 0x72 && self.temp[3] == 0x69 && self.temp[4] == 0x70
            && self.temp[5] == 0x74;
        proof {
            if ok {
                assert(self.temp@ =~= script_name());
            }
        }
        ok
    }

    /// One input byte in the escaped-script and CDATA states.
    #[verifier::rlimit(100)]
    fn step_escaped(&mut self, b: u8, units: &mut Vec<LexUnit>)
        requires
            wf_raw(old(self)@),
            in_escaped_group(old(self)@.state),
            !(old(self)@.state is CdataSection || old(self)@.state is CdataSectionBracket
                || old(self)@.state is CdataSectionEnd),
            !(old(self)@.state is ScriptDataDoubleEscapeStart
                || old(self)@.state is ScriptDataDoubleEscaped
                || old(self)@.state is ScriptDataDoubleEscapedDash
                || old(self)@.state is ScriptDataDoubleEscapedDashDash
                || old(self)@.state is ScriptDataDoubleEscapedLessThan
                || old(self)@.state is ScriptDataDoubleEscapeEnd),
        ensures
            final(self)@ == step(old(self)@, b).st,
            units_view(final(units)@) =~= units_view(old(units)@) + step(old(self)@, b).out,
    {
        match self.state {
            State::ScriptDataEscapeStart => if b == 0x2d {
                self.text.push(b);
                self.state = State::ScriptDataEscapeStartDash;
            } else {
                self.back_to_content_exec(b, State::ScriptData, State::ScriptDataLessThan);
            },
            State::ScriptDataEscapeStartDash => if b == 0x2d {
                self.text.push(b);
                self.state = State::ScriptDataEscapedDashDash;
            } else {
                self.back_to_content_exec(b, State::ScriptData, State::ScriptDataLessThan);
            },
            State::ScriptDataEscaped => if b == 0x2d {
                self.text.push(b);
                self.state = State::ScriptDataEscapedDash;
            } else if b == 0x3c {
                self.raw.push(b);
                self.state = State::ScriptDataEscapedLessThan;
            } else {
                self.text.push(b);
            },
            State::ScriptDataEscapedDash => if b == 0x2d {
                self.text.push(b);
                self.state = State::ScriptDataEscapedDashDash;
            } else if b == 0x3c {
                self.raw.push(b);
                self.state = State::ScriptDataEscapedLessThan;
            } else {
                self.text.push(b);
                self.state = State::ScriptDataEscaped;
            },
            State::ScriptDataEscapedDashDash => if b == 0x2d {
                self.text.push(b);
            } else if b == 0x3c {
                self.raw.push(b);
                self.state = State::ScriptDataEscapedLessThan;
            } else if b == 0x3e {
                self.text.push(b);
                self.state = State::ScriptData;
            } else {
                self.text.push(b);
                self.state = State::ScriptDataEscaped;
            },
            State::ScriptDataEscapedLessThan => if b == 0x2f {
                self.raw.push(b);
                self.state = State::ScriptDataEscapedEndTagOpen;
            } else if is_alpha_exec(b) {
                let mut r = take_vec(&mut self.raw);
                self.text.append(&mut r);
                self.text.push(b);
                self.temp = Vec::new();
                self.temp.push(to_lower_byte(b));
                self.state = State::ScriptDataDoubleEscapeStart;
            } else {
                self.back_to_escaped_exec(b);
            },
            State::ScriptDataEscapedEndTagOpen => if is_alpha_exec(b) {
                self.start_tag_exec(b, true, State::ScriptDataEscapedEndTagName);
            } else {
                self.back_to_escaped_exec(b);
            },
            State::ScriptDataEscapedEndTagName => self.end_tag_name_exec(b, State::ScriptDataEscaped, State::ScriptDataEscapedLessThan, true, units),
            _ => {
                proof {
                    assert(false);
                }
            },
        }
        proof {
            assert(self@ =~= step(old(self)@, b).st);
        }
    }

    /// One input byte in the script-data double-escaped states.
    #[verifier::rlimit(100)]
    fn step_double_escaped(&mut self, b: u8, units: &mut Vec<LexUnit>)
        requires
            wf_raw(old(self)@),
            old(self)@.state is ScriptDataDoubleEscapeStart
                || old(self)@.state is ScriptDataDoubleEscaped
                || old(self)@.state is ScriptDataDoubleEscapedDash
                || old(self)@.state is ScriptDataDoubleEscapedDashDash
                || old(self)@.state is ScriptDataDoubleEscapedLessThan
                || old(self)@.state is ScriptDataDoubleEscapeEnd,
        ensures
            final(self)@ == step(old(self)@, b).st,
            units_view(final(units)@) =~= units_view(old(units)@) + step(old(self)@, b).out,
    {
        match self.state {
            State::ScriptDataDoubleEscapeStart => if is_alpha_exec(b) {
                self.temp.push(to_lower_byte(b));
                self.text.push(b);
            } else if is_ws_exec(b) || b == 0x2f || b == 0x3e {
                let ts = self.temp_is_script();
                self.text.push(b);
                self.state = if ts { State::ScriptDataDoubleEscaped } else { State::ScriptDataEscaped };
            } else {
                self.back_to_escaped_exec(b);
            },
            State::ScriptDataDoubleEscaped => if b == 0x2d {
                self.text.push(b);
                self.state = State::ScriptDataDoubleEscapedDash;
            } else if b == 0x3c {
                self.text.push(b);
                self.state = State::ScriptDataDoubleEscapedLessThan;
            } else {
                self.text.push(b);
                self.state = State::ScriptDataDoubleEscaped;
            },
            State::ScriptDataDoubleEscapedDash => if b == 0x2d {
                self.text.push(b);
                self.state = State::ScriptDataDoubleEscapedDashDash;
            } else if b == 0x3c {
                self.text.push(b);
                self.state = State::ScriptDataDoubleEscapedLessThan;
            } else {
                self.text.push(b);
                self.state = State::ScriptDataDoubleEscaped;
            },
            State::ScriptDataDoubleEscapedDashDash => if b == 0x2d {
                self.text.push(b);
            } else if b == 0x3c {
                self.text.push(b);
                self.state = State::ScriptDataDoubleEscapedLessThan;
            } else if b == 0x3e {
                self.text.push(b);
                self.state = State::ScriptData;
            } else {
                self.text.push(b);
                self.state = State::ScriptDataDoubleEscaped;
            },
            State::ScriptDataDoubleEscapedLessThan => if b == 0x2f {
                self.text.push(b);
                self.temp = Vec::new();
                self.state = State::ScriptDataDoubleEscapeEnd;
            } else if b == 0x2d {
                self.text.push(b);
                self.state = State::ScriptDataDoubleEscapedDash;
            } else if b == 0x3c {
                self.text.push(b);
                self.state = State::ScriptDataDoubleEscapedLessThan;
            } else {
                self.text.push(b);
                self.state = State::ScriptDataDoubleEscaped;
            },
            State::ScriptDataDoubleEscapeEnd => if is_alpha_exec(b) {
                self.temp.push(to_lower_byte(b));
                self.text.push(b);
            } else if is_ws_exec(b) || b == 0x2f || b == 0x3e {
                let ts = self.temp_is_script();
                self.text.push(b);
                self.state = if ts { State::ScriptDataEscaped } else { State::ScriptDataDoubleEscaped };
            } else if b == 0x2d {
                self.text.push(b);
                self.state = State::ScriptDataDoubleEscapedDash;
            } else if b == 0x3c {
                self.text.push(b);
                self.state = State::ScriptDataDoubleEscapedLessThan;
            } else {
                self.text.push(b);
                self.state = State::ScriptDataDoubleEscaped;
            },
            _ => {
                proof {
                    assert(false);
                }
            },
        }
        proof {
            assert(self@ =~= step(old(self)@, b).st);
        }
    }

    /// One input byte in the CDATA section states.
    #[verifier::rlimit(100)]
    fn step_cdata(&mut self, b: u8, units: &mut Vec<LexUnit>)
        requires
            wf_raw(old(self)@),
            old(self)@.state is CdataSection || old(self)@.state is CdataSectionBracket
                || old(self)@.state is CdataSectionEnd,
        ensures
            final(self)@ == step(old(self)@, b).st,
            units_view(final(units)@) =~= units_view(old(units)@) + step(old(self)@, b).out,
    {
        match self.state {
            State::CdataSection => if b == 0x5d {
                self.raw.push(b);
                self.state = State::CdataSectionBracket;
            } else {
                self.text.push(b);
            },
            State::CdataSectionBracket => if b == 0x5d {
                self.raw.push(b);
                self.state = State::CdataSectionEnd;
            } else {
                let mut r = take_vec(&mut self.raw);
                self.text.append(&mut r);
                self.text.push(b);
                self.state = State::CdataSection;
            },
            State::CdataSectionEnd => if b == 0x3e {
                self.raw.push(b);
                let raw = take_vec(&mut self.raw);
                self.emit_unit(None, raw, units);
                self.clear_token_state();
                self.state = State::Data;
            } else if b == 0x5d {
                self.text.push(0x5d);
            } else {
                let mut r = take_vec(&mut self.raw);
                self.text.append(&mut r);
                self.text.push(b);
                self.state = State::CdataSection;
            },
            _ => {
                proof {
                    assert(false);
                }
            },
        }
        proof {
            assert(self@ =~= step(old(self)@, b).st);
        }
    }

    /// One input byte in the tag, comment and markup-declaration states.
    #[verifier::rlimit(100)]
    fn step_tag_comment(&mut self, b: u8, units: &mut Vec<LexUnit>)
        requires
            wf_raw(old(self)@),
            in_tag_comment_group(old(self)@.state),
            !(old(self)@.state is BogusComment || old(self)@.state is MarkupDeclarationOpen
                || old(self)@.state is MarkupDeclarationDash
                || old(self)@.state is MarkupDeclarationDoctype
                || old(self)@.state is MarkupDeclarationCdata || old(self)@.state is CommentStart
                || old(self)@.state is CommentStartDash || old(self)@.state is Comment
                || old(self)@.state is CommentEndDash || old(self)@.state is CommentEnd
                || old(self)@.state is CommentEndBang),
        ensures
            final(self)@ == step(old(self)@, b).st,
            units_view(final(units)@) =~= units_view(old(units)@) + step(old(self)@, b).out,
    {
        match self.state {
            State::TagOpen => if b == 0x21 {
                self.raw.push(b);
                self.state = State::MarkupDeclarationOpen;
            } else if b == 0x2f {
                self.raw.push(b);
                self.state = State::EndTagOpen;
            } else if is_alpha_exec(b) {
                self.start_tag_exec(b, false, State::TagName);
            } else if b == 0x3f {
                self.raw.push(b);
                self.data = Vec::new();
                self.data.push(b);
                self.state = State::BogusComment;
            } else {
                self.back_to_content_exec(b, State::Data, State::TagOpen);
            },
            State::EndTagOpen => if is_alpha_exec(b) {
                self.start_tag_exec(b, true, State::TagName);
            } else if b == 0x3e {
                self.raw.push(b);
                let raw = take_vec(&mut self.raw);
                self.emit_unit(None, raw, units);
                self.clear_token_state();
                self.state = State::Data;
            } else {
                self.raw.push(b);
                self.data = Vec::new();
                self.data.push(b);
                self.state = State::BogusComment;
            },
            State::TagName => if is_ws_exec(b) {
                self.raw.push(b);
                self.state = State::BeforeAttributeName;
            } else if b == 0x2f {
                self.raw.push(b);
                self.state = State::SelfClosingStartTag;
            } else if b == 0x3e {
                self.emit_tag_exec(b, units);
            } else {
                self.name.push(to_lower_byte(b));
                self.raw.push(b);
            },
            State::BeforeAttributeName => if is_ws_exec(b) {
                self.raw.push(b);
            } else if b == 0x2f {
                self.raw.push(b);
                self.state = State::SelfClosingStartTag;
            } else if b == 0x3e {
                self.emit_tag_exec(b, units);
            } else {
                self.new_attr_exec(b);
            },
            State::AttributeName => if is_ws_exec(b) {
                self.raw.push(b);
                self.state = State::AfterAttributeName;
            } else if b == 0x2f {
                self.raw.push(b);
                self.state = State::SelfClosingStartTag;
            } else if b == 0x3e {
                self.emit_tag_exec(b, units);
            } else if b == 0x3d {
                self.raw.push(b);
                self.state = State::BeforeAttributeValue;
            } else {
                self.attr_name.push(to_lower_byte(b));
                self.raw.push(b);
            },
            State::AfterAttributeName => if is_ws_exec(b) {
                self.raw.push(b);
            } else if b == 0x2f {
                self.raw.push(b);
                self.state = State::SelfClosingStartTag;
            } else if b == 0x3d {
                self.raw.push(b);
                self.state = State::BeforeAttributeValue;
            } else if b == 0x3e {
                self.emit_tag_exec(b, units);
            } else {
                self.new_attr_exec(b);
            },
            State::BeforeAttributeValue => if is_ws_exec(b) {
                self.raw.push(b);
            } else if b == 0x22 {
                self.raw.push(b);
                self.state = State::AttributeValueDouble;
            } else if b == 0x27 {
                self.raw.push(b);
                self.state = State::AttributeValueSingle;
            } else if b == 0x3e {
                self.emit_tag_exec(b, units);
            } else {
                self.attr_value.push(b);
                self.raw.push(b);
                self.state = State::AttributeValueUnquoted;
            },
            State::AttributeValueDouble => if b == 0x22 {
                self.raw.push(b);
                self.state = State::AfterAttributeValueQuoted;
            } else {
                self.attr_value.push(b);
                self.raw.push(b);
            },
            State::AttributeValueSingle => if b == 0x27 {
                self.raw.push(b);
                self.state = State::AfterAttributeValueQuoted;
            } else {
                self.attr_value.push(b);
                self.raw.push(b);
            },
            State::AttributeValueUnquoted => if is_ws_exec(b) {
                self.raw.push(b);
                self.state = State::BeforeAttributeName;
            } else if b == 0x3e {
                self.emit_tag_exec(b, units);
            } else {
                self.attr_value.push(b);
                self.raw.push(b);
            },
            State::AfterAttributeValueQuoted => if is_ws_exec(b) {
                self.raw.push(b);
                self.state = State::BeforeAttributeName;
            } else if b == 0x2f {
                self.raw.push(b);
                self.state = State::SelfClosingStartTag;
            } else if b == 0x3e {
                self.emit_tag_exec(b, units);
            } else {
                self.new_attr_exec(b);
            },
            State::SelfClosingStartTag => if b == 0x3e {
                self.self_closing = true;
                self.emit_tag_exec(b, units);
            } else if is_ws_exec(b) {
                self.raw.push(b);
                self.state = State::BeforeAttributeName;
            } else if b == 0x2f {
                self.raw.push(b);
            } else {
                self.new_attr_exec(b);
            },
            _ => {
                proof {
                    assert(false);
                }
            },
        }
        proof {
            assert(self@ =~= step(old(self)@, b).st);
        }
    }

    /// One input byte in the comment and markup-declaration states.
    #[verifier::rlimit(100)]
    fn step_comment(&mut self, b: u8, units: &mut Vec<LexUnit>)
        requires
            wf_raw(old(self)@),
            old(self)@.state is BogusComment || old(self)@.state is MarkupDeclarationOpen
                || old(self)@.state is MarkupDeclarationDash
                || old(self)@.state is MarkupDeclarationDoctype
                || old(self)@.state is MarkupDeclarationCdata || old(self)@.state is CommentStart
                || old(self)@.state is CommentStartDash || old(self)@.state is Comment
                || old(self)@.state is CommentEndDash || old(self)@.state is CommentEnd
                || old(self)@.state is CommentEndBang,
        ensures
            final(self)@ == step(old(self)@, b).st,
            units_view(final(units)@) =~= units_view(old(units)@) + step(old(self)@, b).out,
    {
        match self.state {
            State::BogusComment => if b == 0x3e {
                self.raw.push(b);
                let data = take_vec(&mut self.data);
                let raw = take_vec(&mut self.raw);
                self.emit_comment_exec(data, raw, units);
            } else {
                self.data.push(b);
                self.raw.push(b);
            },
            State::MarkupDeclarationOpen => if b == 0x2d {
                self.raw.push(b);
                self.state = State::MarkupDeclarationDash;
            } else if b == 0x64 || b == 0x44 {
                self.match_pos = 1;
                self.raw.push(b);
                self.state = State::MarkupDeclarationDoctype;
            } else if b == 0x5b {
                self.match_pos = 1;
                self.raw.push(b);
                self.state = State::MarkupDeclarationCdata;
            } else if b == 0x3e {
                self.raw.push(b);
                let raw = take_vec(&mut self.raw);
                self.emit_comment_exec(Vec::new(), raw, units);
            } else {
                self.raw.push(b);
                self.data = Vec::new();
                self.data.push(b);
                self.state = State::BogusComment;
            },
            State::MarkupDeclarationDash => if b == 0x2d {
                self.data = Vec::new();
                self.raw.push(b);
                self.state = State::CommentStart;
            } else if b == 0x3e {
                self.raw.push(b);
                let raw = take_vec(&mut self.raw);
                let mut d: Vec<u8> = Vec::new();
                d.push(0x2d);
                self.emit_comment_exec(d, raw, units);
            } else {
                let mut d: Vec<u8> = Vec::new();
                d.push(0x2d);
                d.push(b);
                self.data = d;
                self.raw.push(b);
                self.state = State::BogusComment;
            },
            State::MarkupDeclarationDoctype => if self.match_pos < 7 && to_lower_byte(b) == doctype_lit_at(self.match_pos) {
                if self.match_pos == 6 {
                    self.match_pos = 0;
                    self.raw.push(b);
                    self.state = State::Doctype;
                } else {
                    self.match_pos = self.match_pos + 1;
                    self.raw.push(b);
                }
            } else if b == 0x3e {
                let data = tail_from(&self.raw, 2);
                self.raw.push(b);
                let raw = take_vec(&mut self.raw);
                self.emit_comment_exec(data, raw, units);
            } else {
                let mut data = tail_from(&self.raw, 2);
                data.push(b);
                self.data = data;
                self.match_pos = 0;
                self.raw.push(b);
                self.state = State::BogusComment;
            },
            State::MarkupDeclarationCdata => if self.match_pos < 7 && b == cdata_lit_at(self.match_pos) {
                if self.match_pos == 6 {
                    self.raw.push(b);
                    let raw = take_vec(&mut self.raw);
                    self.emit_unit(None, raw, units);
                    self.clear_token_state();
                    self.state = State::CdataSection;
                } else {
                    self.match_pos = self.match_pos + 1;
                    self.raw.push(b);
                }
            } else if b == 0x3e {
                let data = tail_from(&self.raw, 2);
                self.raw.push(b);
                let raw = take_vec(&mut self.raw);
                self.emit_comment_exec(data, raw, units);
            } else {
                let mut data = tail_from(&self.raw, 2);
                data.push(b);
                self.data = data;
                self.match_pos = 0;
                self.raw.push(b);
                self.state = State::BogusComment;
            },
            State::CommentStart => if b == 0x2d {
                self.raw.push(b);
                self.state = State::CommentStartDash;
            } else if b == 0x3e {
                self.raw.push(b);
                let data = take_vec(&mut self.data);
                let raw = take_vec(&mut self.raw);
                self.emit_comment_exec(data, raw, units);
            } else {
                self.data.push(b);
                self.raw.push(b);
                self.state = State::Comment;
            },
            State::CommentStartDash => if b == 0x2d {
                self.raw.push(b);
                self.state = State::CommentEnd;
            } else if b == 0x3e {
                self.raw.push(b);
                let data = take_vec(&mut self.data);
                let raw = take_vec(&mut self.raw);
                self.emit_comment_exec(data, raw, units);
            } else {
                self.data.push(0x2d);
                self.data.push(b);
                self.raw.push(b);
                self.state = State::Comment;
            },
            State::Comment => if b == 0x2d {
                self.raw.push(b);
                self.state = State::CommentEndDash;
            } else {
                self.data.push(b);
                self.raw.push(b);
            },
            State::CommentEndDash => if b == 0x2d {
                self.raw.push(b);
                self.state = State::CommentEnd;
            } else {
                self.data.push(0x2d);
                self.data.push(b);
                self.raw.push(b);
                self.state = State::Comment;
            },
            State::CommentEnd => if b == 0x3e {
                self.raw.push(b);
                let data = take_vec(&mut self.data);
                let raw = take_vec(&mut self.raw);
                self.emit_comment_exec(data, raw, units);
            } else if b == 0x21 {
                self.raw.push(b);
                self.state = State::CommentEndBang;
            } else if b == 0x2d {
                self.data.push(0x2d);
                self.raw.push(b);
            } else {
                self.data.push(0x2d);
                self.data.push(0x2d);
                self.data.push(b);
                self.raw.push(b);
                self.state = State::Comment;
            },
            State::CommentEndBang => if b == 0x2d {
                self.data.push(0x2d);
                self.data.push(0x2d);
                self.data.push(0x21);
                self.raw.push(b);
                self.state = State::CommentEndDash;
            } else if b == 0x3e {
                self.raw.push(b);
                let data = take_vec(&mut self.data);
                let raw = take_vec(&mut self.raw);
                self.emit_comment_exec(data, raw, units);
            } else {
                self.data.push(0x2d);
                self.data.push(0x2d);
                self.data.push(0x21);
                self.data.push(b);
                self.raw.push(b);
                self.state = State::Comment;
            },
            _ => {
                proof {
                    assert(false);
                }
            },
        }
        proof {
            assert(self@ =~= step(old(self)@, b).st);
        }
    }

    /// One input byte in the DOCTYPE states.
    #[verifier::rlimit(100)]
    fn step_doctype(&mut self, b: u8, units: &mut Vec<LexUnit>)
        requires
            wf_raw(old(self)@),
            !in_content_group(old(self)@.state),
            !in_escaped_group(old(self)@.state),
            !in_tag_comment_group(old(self)@.state),
        ensures
            final(self)@ == step(old(self)@, b).st,
            units_view(final(units)@) =~= units_view(old(units)@) + step(old(self)@, b).out,
    {
        match self.state {
            State::Doctype => if is_ws_exec(b) {
                self.raw.push(b);
                self.state = State::BeforeDoctypeName;
            } else if b == 0x3e {
                self.emit_doctype_exec(b, true, units);
            } else {
                self.name = Vec::new();
                self.name.push(to_lower_byte(b));
                self.has_name = true;
                self.raw.push(b);
                self.state = State::DoctypeName;
            },
            State::BeforeDoctypeName => if is_ws_exec(b) {
                self.raw.push(b);
            } else if b == 0x3e {
                self.emit_doctype_exec(b, true, units);
            } else {
                self.name = Vec::new();
                self.name.push(to_lower_byte(b));
                self.has_name = true;
                self.raw.push(b);
                self.state = State::DoctypeName;
            },
            State::DoctypeName => if is_ws_exec(b) {
                self.raw.push(b);
                self.state = State::AfterDoctypeName;
            } else if b == 0x3e {
                self.emit_doctype_exec(b, false, units);
            } else {
                self.name.push(to_lower_byte(b));
                self.raw.push(b);
            },
            State::AfterDoctypeName => if is_ws_exec(b) {
                self.raw.push(b);
            } else if b == 0x3e {
                self.emit_doctype_exec(b, false, units);
            } else if b == 0x70 || b == 0x50 {
                self.match_pos = 1;
                self.raw.push(b);
                self.state = State::DoctypePublicKeyword;
            } else if b == 0x73 || b == 0x53 {
                self.match_pos = 1;
                self.raw.push(b);
                self.state = State::DoctypeSystemKeyword;
            } else {
                self.force_quirks = true;
                self.raw.push(b);
                self.state = State::BogusDoctype;
            },
            State::DoctypePublicKeyword => if self.match_pos < 6 && to_lower_byte(b) == public_lit_at(self.match_pos) {
                if self.match_pos == 5 {
                    self.match_pos = 0;
                    self.raw.push(b);
                    self.state = State::AfterDoctypePublicKeyword;
                } else {
                    self.match_pos = self.match_pos + 1;
                    self.raw.push(b);
                }
            } else if b == 0x3e {
                self.emit_doctype_exec(b, true, units);
            } else {
                self.force_quirks = true;
                self.match_pos = 0;
                self.raw.push(b);
                self.state = State::BogusDoctype;
            },
            State::DoctypeSystemKeyword => if self.match_pos < 6 && to_lower_byte(b) == system_lit_at(self.match_pos) {
                if self.match_pos == 5 {
                    self.match_pos = 0;
                    self.raw.push(b);
                    self.state = State::AfterDoctypeSystemKeyword;
                } else {
                    self.match_pos = self.match_pos + 1;
                    self.raw.push(b);
                }
            } else if b == 0x3e {
                self.emit_doctype_exec(b, true, units);
            } else {
                self.force_quirks = true;
                self.match_pos = 0;
                self.raw.push(b);
                self.state = State::BogusDoctype;
            },
            State::AfterDoctypePublicKeyword => if is_ws_exec(b) {
                self.raw.push(b);
                self.state = State::BeforeDoctypePublicId;
            } else if b == 0x22 {
                self.has_public = true;
                self.public_id = Vec::new();
                self.raw.push(b);
                self.state = State::DoctypePublicIdDouble;
            } else if b == 0x27 {
                self.has_public = true;
                self.public_id = Vec::new();
                self.raw.push(b);
                self.state = State::DoctypePublicIdSingle;
            } else if b == 0x3e {
                self.emit_doctype_exec(b, true, units);
            } else {
                self.force_quirks = true;
                self.raw.push(b);
                self.state = State::BogusDoctype;
            },
            State::BeforeDoctypePublicId => if is_ws_exec(b) {
                self.raw.push(b);
            } else if b == 0x22 {
                self.has_public = true;
                self.public_id = Vec::new();
                self.raw.push(b);
                self.state = State::DoctypePublicIdDouble;
            } else if b == 0x27 {
                self.has_public = true;
                self.public_id = Vec::new();
                self.raw.push(b);
                self.state = State::DoctypePublicIdSingle;
            } else if b == 0x3e {
                self.emit_doctype_exec(b, true, units);
            } else {
                self.force_quirks = true;
                self.raw.push(b);
                self.state = State::BogusDoctype;
            },
            State::DoctypePublicIdDouble => if b == 0x22 {
                self.raw.push(b);
                self.state = State::AfterDoctypePublicId;
            } else if b == 0x3e {
                self.emit_doctype_exec(b, true, units);
            } else {
                self.public_id.push(b);
                self.raw.push(b);
            },
            State::DoctypePublicIdSingle => if b == 0x27 {
                self.raw.push(b);
                self.state = State::AfterDoctypePublicId;
            } else if b == 0x3e {
                self.emit_doctype_exec(b, true, units);
            } else {
                self.public_id.push(b);
                self.raw.push(b);
            },
            State::AfterDoctypePublicId => if is_ws_exec(b) {
                self.raw.push(b);
                self.state = State::BetweenDoctypePublicSystem;
            } else if b == 0x3e {
                self.emit_doctype_exec(b, false, units);
            } else if b == 0x22 {
                self.has_system = true;
                self.system_id = Vec::new();
                self.raw.push(b);
                self.state = State::DoctypeSystemIdDouble;
            } else if b == 0x27 {
                self.has_system = true;
                self.system_id = Vec::new();
                self.raw.push(b);
                self.state = State::DoctypeSystemIdSingle;
            } else {
                self.force_quirks = true;
                self.raw.push(b);
                self.state = State::BogusDoctype;
            },
            State::BetweenDoctypePublicSystem => if is_ws_exec(b) {
                self.raw.push(b);
            } else if b == 0x3e {
                self.emit_doctype_exec(b, false, units);
            } else if b == 0x22 {
                self.has_system = true;
                self.system_id = Vec::new();
                self.raw.push(b);
                self.state = State::DoctypeSystemIdDouble;
            } else if b == 0x27 {
                self.has_system = true;
                self.system_id = Vec::new();
                self.raw.push(b);
                self.state = State::DoctypeSystemIdSingle;
            } else {
                self.force_quirks = true;
                self.raw.push(b);
                self.state = State::BogusDoctype;
            },
            State::AfterDoctypeSystemKeyword => if is_ws_exec(b) {
                self.raw.push(b);
                self.state = State::BeforeDoctypeSystemId;
            } else if b == 0x22 {
                self.has_system = true;
                self.system_id = Vec::new();
                self.raw.push(b);
                self.state = State::DoctypeSystemIdDouble;
            } else if b == 0x27 {
                self.has_system = true;
                self.system_id = Vec::new();
                self.raw.push(b);
                self.state = State::DoctypeSystemIdSingle;
            } else if b == 0x3e {
                self.emit_doctype_exec(b, true, units);
            } else {
                self.force_quirks = true;
                self.raw.push(b);
                self.state = State::BogusDoctype;
            },
            State::BeforeDoctypeSystemId => if is_ws_exec(b) {
                self.raw.push(b);
            } else if b == 0x22 {
                self.has_system = true;
                self.system_id = Vec::new();
                self.raw.push(b);
                self.state = State::DoctypeSystemIdDouble;
            } else if b == 0x27 {
                self.has_system = true;
                self.system_id = Vec::new();
                self.raw.push(b);
                self.state = State::DoctypeSystemIdSingle;
            } else if b == 0x3e {
                self.emit_doctype_exec(b, true, units);
            } else {
                self.force_quirks = true;
                self.raw.push(b);
                self.state = State::BogusDoctype;
            },
            State::DoctypeSystemIdDouble => if b == 0x22 {
                self.raw.push(b);
                self.state = State::AfterDoctypeSystemId;
            } else if b == 0x3e {
                self.emit_doctype_exec(b, true, units);
            } else {
                self.system_id.push(b);
                self.raw.push(b);
            },
            State::DoctypeSystemIdSingle => if b == 0x27 {
                self.raw.push(b);
                self.state = State::AfterDoctypeSystemId;
            } else if b == 0x3e {
                self.emit_doctype_exec(b, true, units);
            } else {
                self.system_id.push(b);
                self.raw.push(b);
            },
            State::AfterDoctypeSystemId => if is_ws_exec(b) {
                self.raw.push(b);
            } else if b == 0x3e {
                self.emit_doctype_exec(b, false, units);
            } else {
                self.raw.push(b);
                self.state = State::BogusDoctype;
            },
            State::BogusDoctype => if b == 0x3e {
                self.emit_doctype_exec(b, false, units);
            } else {
                self.raw.push(b);
            },
            _ => {
                proof {
                    assert(false);
                }
            },
        }
        proof {
            assert(self@ =~= step(old(self)@, b).st);
        }
    }

    /// One input byte: dispatch on the current state family.
    fn step_byte(&mut self, b: u8, units: &mut Vec<LexUnit>)
        requires
            wf_raw(old(self)@),
        ensures
            final(self)@ == step(old(self)@, b).st,
            units_view(final(units)@) =~= units_view(old(units)@) + step(old(self)@, b).out,
            wf_raw(final(self)@),
    {
        match self.state {
            State::Data | State::Plaintext | State::Rcdata | State::Rawtext | State::ScriptData
            | State::RcdataLessThan | State::RcdataEndTagOpen | State::RcdataEndTagName
            | State::RawtextLessThan | State::RawtextEndTagOpen | State::RawtextEndTagName
            | State::ScriptDataLessThan | State::ScriptDataEndTagOpen
            | State::ScriptDataEndTagName => self.step_content(b, units),
            State::ScriptDataEscapeStart | State::ScriptDataEscapeStartDash
            | State::ScriptDataEscaped | State::ScriptDataEscapedDash
            | State::ScriptDataEscapedDashDash | State::ScriptDataEscapedLessThan
            | State::ScriptDataEscapedEndTagOpen | State::ScriptDataEscapedEndTagName
                => self.step_escaped(b, units),
            State::ScriptDataDoubleEscapeStart | State::ScriptDataDoubleEscaped
            | State::ScriptDataDoubleEscapedDash | State::ScriptDataDoubleEscapedDashDash
            | State::ScriptDataDoubleEscapedLessThan | State::ScriptDataDoubleEscapeEnd
                => self.step_double_escaped(b, units),
            State::CdataSection | State::CdataSectionBracket | State::CdataSectionEnd
                => self.step_cdata(b, units),
            State::TagOpen | State::EndTagOpen | State::TagName | State::BeforeAttributeName
            | State::AttributeName | State::AfterAttributeName | State::BeforeAttributeValue
            | State::AttributeValueDouble | State::AttributeValueSingle
            | State::AttributeValueUnquoted | State::AfterAttributeValueQuoted
            | State::SelfClosingStartTag => self.step_tag_comment(b, units),
            State::BogusComment | State::MarkupDeclarationOpen
            | State::MarkupDeclarationDash | State::MarkupDeclarationDoctype
            | State::MarkupDeclarationCdata | State::CommentStart | State::CommentStartDash
            | State::Comment | State::CommentEndDash | State::CommentEnd | State::CommentEndBang
                => self.step_comment(b, units),
            _ => self.step_doctype(b, units),
        }
        proof {
            lemma_step_preserves_wf(old(self)@, b);
        }
    }

    /// Feed one chunk of input: the machine advances exactly as the model
    /// `run` prescribes over the chunk's bytes, and the returned units are
    /// exactly what `run` emits. Malformed markup never fails; every byte
    /// sequence has a defined transition.
    pub fn tokenize_chunk(&mut self, chunk: &[u8]) -> (units: Vec<LexUnit>)
        requires
            wf_raw(old(self)@),
        ensures
            final(self)@ == run(old(self)@, chunk@).st,
            units_view(units@) =~= run(old(self)@, chunk@).out,
            wf_raw(final(self)@),
    {
        let mut units: Vec<LexUnit> = Vec::new();
        let ghost s0 = self@;
        let mut i: usize = 0;
        proof {
            assert(chunk@.take(0) =~= Seq::<u8>::empty());
            assert(units_view(units@) =~= run(s0, chunk@.take(0)).out);
        }
        while i < chunk.len()
            invariant
                0 <= i <= chunk@.len(),
                wf_raw(self@),
                self@ == run(s0, chunk@.take(i as int)).st,
                units_view(units@) =~= run(s0, chunk@.take(i as int)).out,
            decreases chunk@.len() - i,
        {
            let b = chunk[i];
            let ghost pre = self@;
            self.step_byte(b, &mut units);
            proof {
                assert(chunk@.take(i + 1) =~= chunk@.take(i as int) + seq![b]);
                lemma_run_concat(s0, chunk@.take(i as int), seq![b]);
                lemma_run_one(pre, b);
                assert(units_view(units@) =~= run(s0, chunk@.take(i + 1)).out);
            }
            i = i + 1;
        }
        proof {
            assert(chunk@.take(chunk@.len() as int) =~= chunk@);
        }
        units
    }

    /// Signal logical end of input: runs the current state's end-of-input
    /// actions, emitting exactly what the model `eof_step` prescribes
    /// (pending text, a recovered comment or DOCTYPE, a dropped tag's raw
    /// bytes, and the final Eof unit).
    #[verifier::rlimit(100)]
    pub fn finish(&mut self) -> (units: Vec<LexUnit>)
        requires
            wf_raw(old(self)@),
        ensures
            final(self)@ == eof_step(old(self)@).st,
            units_view(units@) =~= eof_step(old(self)@).out,
            wf_raw(final(self)@),
    {
        let mut units: Vec<LexUnit> = Vec::new();
        match self.state {
            State::TagName | State::BeforeAttributeName | State::AttributeName
            | State::AfterAttributeName | State::BeforeAttributeValue
            | State::AttributeValueDouble | State::AttributeValueSingle
            | State::AttributeValueUnquoted | State::AfterAttributeValueQuoted
            | State::SelfClosingStartTag => {
                let raw = take_vec(&mut self.raw);
                self.emit_unit(None, raw, &mut units);
                units.push(LexUnit { token_view: Some(TokenView::Eof), raw: Vec::new() });
                self.clear_token_state();
                self.state = State::Data;
                proof {
                    assert(units_view(units@) =~= eof_step(old(self)@).out);
                }
            },
            State::BogusComment | State::CommentStart | State::CommentStartDash | State::Comment
            | State::CommentEndDash | State::CommentEnd | State::CommentEndBang => {
                let data = take_vec(&mut self.data);
                let raw = take_vec(&mut self.raw);
                self.emit_unit(Some(TokenView::Comment(data)), raw, &mut units);
                units.push(LexUnit { token_view: Some(TokenView::Eof), raw: Vec::new() });
                self.clear_token_state();
                self.state = State::Data;
                proof {
                    assert(units_view(units@) =~= eof_step(old(self)@).out);
                }
            },
            State::MarkupDeclarationOpen | State::MarkupDeclarationDash
            | State::MarkupDeclarationDoctype | State::MarkupDeclarationCdata => {
                let data = tail_from(&self.raw, 2);
                let raw = take_vec(&mut self.raw);
                self.emit_unit(Some(TokenView::Comment(data)), raw, &mut units);
                units.push(LexUnit { token_view: Some(TokenView::Eof), raw: Vec::new() });
                self.clear_token_state();
                self.state = State::Data;
                proof {
                    assert(units_view(units@) =~= eof_step(old(self)@).out);
                }
            },
            State::Doctype | State::BeforeDoctypeName | State::DoctypeName
            | State::AfterDoctypeName | State::DoctypePublicKeyword | State::DoctypeSystemKeyword
            | State::AfterDoctypePublicKeyword | State::BeforeDoctypePublicId
            | State::DoctypePublicIdDouble | State::DoctypePublicIdSingle
            | State::AfterDoctypePublicId | State::BetweenDoctypePublicSystem
            | State::AfterDoctypeSystemKeyword | State::BeforeDoctypeSystemId
            | State::DoctypeSystemIdDouble | State::DoctypeSystemIdSingle
            | State::AfterDoctypeSystemId => {
                let tok = self.build_doctype_view(true);
                let raw = take_vec(&mut self.raw);
                self.emit_unit(Some(tok), raw, &mut units);
                units.push(LexUnit { token_view: Some(TokenView::Eof), raw: Vec::new() });
                self.clear_token_state();
                self.state = State::Data;
                proof {
                    assert(units_view(units@) =~= eof_step(old(self)@).out);
                }
            },
            State::BogusDoctype => {
                let tok = self.build_doctype_view(false);
                let raw = take_vec(&mut self.raw);
                self.emit_unit(Some(tok), raw, &mut units);
                units.push(LexUnit { token_view: Some(TokenView::Eof), raw: Vec::new() });
                self.clear_token_state();
                self.state = State::Data;
                proof {
                    assert(units_view(units@) =~= eof_step(old(self)@).out);
                }
            },
            _ => {
                let mut r = take_vec(&mut self.raw);
                self.text.append(&mut r);
                if self.text.len() > 0 {
                    let t = take_vec(&mut self.text);
                    units.push(LexUnit { token_view: Some(TokenView::Character), raw: t });
                }
                units.push(LexUnit { token_view: Some(TokenView::Eof), raw: Vec::new() });
                self.clear_token_state();
                self.state = State::Data;
                proof {
                    assert(units_view(units@) =~= eof_step(old(self)@).out);
                }
            },
        }
        proof {
            assert(self@ =~= eof_step(old(self)@).st);
            assert(units_view(units@) =~= eof_step(old(self)@).out);
        }
        units
    }
}

} // verus!
