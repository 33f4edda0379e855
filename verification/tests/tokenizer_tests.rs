use html_tokenizer::tokenizer::{Tokenizer, TextParsingMode};
use html_tokenizer::tokens::{TokenView, Token, LexUnit};
use html_tokenizer::hash::get_hash;
use html_tokenizer::end_tag::EndTag;

fn tokenize_whole(input: &[u8]) -> Vec<LexUnit> {
    let mut t = Tokenizer::new();
    let mut units = t.tokenize_chunk(input);
    units.extend(t.finish());
    units
}

fn tokenize_chunked(input: &[u8], size: usize) -> Vec<LexUnit> {
    let mut t = Tokenizer::new();
    let mut units = Vec::new();
    for chunk in input.chunks(size) {
        units.extend(t.tokenize_chunk(chunk));
    }
    units.extend(t.finish());
    units
}

fn views(units: &[LexUnit]) -> Vec<String> {
    units
        .iter()
        .map(|u| match u.get_token_view() {
            None => format!("(none:{:?})", u.get_raw().map(|r| r.clone())),
            Some(TokenView::Character) => {
                format!("chars:{}", String::from_utf8(u.get_raw().unwrap().clone()).unwrap())
            }
            Some(TokenView::Comment(d)) => format!("comment:{}", String::from_utf8(d.clone()).unwrap()),
            Some(TokenView::StartTag { name, attributes, self_closing }) => format!(
                "start:{}:{}:{:?}",
                String::from_utf8(name.clone()).unwrap(),
                self_closing,
                attributes
                    .iter()
                    .map(|a| (
                        String::from_utf8(a.name.clone()).unwrap(),
                        String::from_utf8(a.value.clone()).unwrap()
                    ))
                    .collect::<Vec<_>>()
            ),
            Some(TokenView::EndTag { name }) => {
                format!("end:{}", String::from_utf8(name.clone()).unwrap())
            }
            Some(TokenView::Doctype { name, public_id, system_id, force_quirks }) => format!(
                "doctype:{:?}:{:?}:{:?}:{}",
                name.as_ref().map(|n| String::from_utf8(n.clone()).unwrap()),
                public_id.as_ref().map(|n| String::from_utf8(n.clone()).unwrap()),
                system_id.as_ref().map(|n| String::from_utf8(n.clone()).unwrap()),
                force_quirks
            ),
            Some(TokenView::Eof) => "eof".to_string(),
        })
        .collect()
}

fn raw_concat(units: &[LexUnit]) -> Vec<u8> {
    let mut out = Vec::new();
    for u in units {
        if let Some(r) = u.get_raw() {
            out.extend_from_slice(r);
        }
    }
    out
}

#[test]
fn simple_start_tag_text_end_tag() {
    let units = tokenize_whole(b"<div class=\"a\">Hi</div>");
    let v = views(&units);
    assert_eq!(
        v,
        vec![
            "start:div:false:[(\"class\", \"a\")]".to_string(),
            "chars:Hi".to_string(),
            "end:div".to_string(),
            "eof".to_string(),
        ]
    );
}

#[test]
fn byte_at_a_time_matches_single_chunk() {
    let input = b"<div class=\"a\">Hi</div>";
    let whole = views(&tokenize_whole(input));
    let split = views(&tokenize_chunked(input, 1));
    assert_eq!(whole, split);
}

#[test]
fn every_chunk_size_matches() {
    let input = b"<!doctype html><script>a<b --></script><p x=1 x=2>ok<!--c--></p><![CDATA[z]]>";
    let whole = views(&tokenize_whole(input));
    for size in 1..input.len() {
        assert_eq!(whole, views(&tokenize_chunked(input, size)), "chunk size {}", size);
    }
}

#[test]
fn raw_round_trip() {
    let input = b"x<div a='1' b>text</div><!--c--><!doctype html><?bogus><![CDATA[y]]>tail";
    for size in [1usize, 2, 3, 5, 7, input.len()] {
        let units = tokenize_chunked(input, size);
        assert_eq!(raw_concat(&units), input.to_vec(), "chunk size {}", size);
    }
}

#[test]
fn attribute_fidelity_duplicates() {
    let units = tokenize_whole(b"<a x=1 y=2 x=3 x=4>");
    let v = views(&units);
    assert_eq!(
        v[0],
        "start:a:false:[(\"x\", \"1\"), (\"y\", \"2\"), (\"x\", \"3\"), (\"x\", \"4\")]"
    );
}

#[test]
fn rawtext_exit_discipline() {
    let mut t = Tokenizer::new();
    t.set_state(TextParsingMode::RawText);
    t.set_last_start_tag_name_hash(get_hash(b"textarea"));
    let mut units = t.tokenize_chunk(b"a</div>b</TeXtArEa>");
    units.extend(t.finish());
    let v = views(&units);
    assert_eq!(v, vec!["chars:a</div>b".to_string(), "end:textarea".to_string(), "eof".to_string()]);
}

#[test]
fn rawtext_wrong_end_tag_stays_text() {
    let mut t = Tokenizer::new();
    t.set_state(TextParsingMode::RCData);
    t.set_last_start_tag_name_hash(get_hash(b"title"));
    let mut units = t.tokenize_chunk(b"x</titl>y</title>");
    units.extend(t.finish());
    let v = views(&units);
    assert_eq!(v, vec!["chars:x</titl>y".to_string(), "end:title".to_string(), "eof".to_string()]);
}

#[test]
fn sequence_match_boundary_independence() {
    // split the 9-byte literal `</script>` at every possible offset
    let input = b"<script>var x;</script>after";
    let whole = views(&tokenize_whole(input));
    for cut in 14..=23 {
        let mut t = Tokenizer::new();
        let mut units = t.tokenize_chunk(&input[..cut]);
        units.extend(t.tokenize_chunk(&input[cut..]));
        units.extend(t.finish());
        assert_eq!(whole, views(&units), "cut at {}", cut);
    }
}

#[test]
fn comment_simple() {
    let v = views(&tokenize_whole(b"<!--x-->"));
    assert_eq!(v, vec!["comment:x".to_string(), "eof".to_string()]);
}

#[test]
fn comment_unterminated_at_eof() {
    let v = views(&tokenize_whole(b"<!--x"));
    assert_eq!(v, vec!["comment:x".to_string(), "eof".to_string()]);
}

#[test]
fn bogus_comment_and_empty_declaration() {
    assert_eq!(
        views(&tokenize_whole(b"<?php?>")),
        vec!["comment:?php?".to_string(), "eof".to_string()]
    );
    assert_eq!(views(&tokenize_whole(b"<!>")), vec!["comment:".to_string(), "eof".to_string()]);
    assert_eq!(
        views(&tokenize_whole(b"<!doc>")),
        vec!["comment:doc".to_string(), "eof".to_string()]
    );
}

#[test]
fn doctype_with_ids() {
    let v = views(&tokenize_whole(
        b"<!DOCTYPE html PUBLIC \"pub-id\" 'sys-id'>",
    ));
    assert_eq!(
        v,
        vec![
            "doctype:Some(\"html\"):Some(\"pub-id\"):Some(\"sys-id\"):false".to_string(),
            "eof".to_string()
        ]
    );
}

#[test]
fn doctype_malformed_sets_quirks() {
    let v = views(&tokenize_whole(b"<!doctype html publix>"));
    assert_eq!(v, vec!["doctype:Some(\"html\"):None:None:true".to_string(), "eof".to_string()]);
}

#[test]
fn eof_in_tag_drops_token_but_keeps_raw() {
    let units = tokenize_whole(b"ab<div cl");
    let v = views(&units);
    assert_eq!(v.len(), 3);
    assert_eq!(v[0], "chars:ab");
    assert!(v[1].starts_with("(none:"));
    assert_eq!(v[2], "eof");
    assert_eq!(raw_concat(&units), b"ab<div cl".to_vec());
}

#[test]
fn missing_end_tag_name_emits_nothing() {
    let units = tokenize_whole(b"a</>b");
    let v = views(&units);
    assert_eq!(v[0], "chars:a");
    assert!(v[1].starts_with("(none:"));
    assert_eq!(v[2], "chars:b");
    assert_eq!(raw_concat(&units), b"a</>b".to_vec());
}

#[test]
fn cdata_section() {
    let v = views(&tokenize_whole(b"<![CDATA[x]y]]>"));
    assert_eq!(v[1], "chars:x]y");
    assert_eq!(v[3], "eof");
}

#[test]
fn script_double_escape() {
    let input = b"<script><!--<script>x</script>--></script>";
    let v = views(&tokenize_whole(input));
    assert_eq!(v[0], "start:script:false:[]");
    assert_eq!(v[1], "chars:<!--<script>x</script>-->");
    assert_eq!(v[2], "end:script");
}

#[test]
fn rcdata_entry_after_textarea_start_tag() {
    let v = views(&tokenize_whole(b"<textarea><b></textarea>"));
    assert_eq!(
        v,
        vec![
            "start:textarea:false:[]".to_string(),
            "chars:<b>".to_string(),
            "end:textarea".to_string(),
            "eof".to_string()
        ]
    );
}

#[test]
fn tag_hash_consistency_on_builtins() {
    let names: [&[u8]; 11] = [
        b"title", b"textarea", b"style", b"xmp", b"iframe", b"noembed", b"noframes",
        b"noscript", b"script", b"plaintext", b"div",
    ];
    for (i, a) in names.iter().enumerate() {
        assert_eq!(get_hash(a), get_hash(a.to_ascii_uppercase().as_slice()));
        for (j, b) in names.iter().enumerate() {
            if i != j {
                assert_ne!(get_hash(a), get_hash(b), "{:?} vs {:?}", a, b);
            }
        }
    }
    assert!(get_hash(b"with space").is_none());
}

#[test]
fn token_materialization() {
    let units = tokenize_whole(b"<DIV CLASS=\"a\">Hi</DIV>");
    let toks: Vec<_> = units.iter().map(|u| u.get_token().unwrap()).collect();
    match &toks[0] {
        Token::StartTag { name, attributes, self_closing } => {
            assert_eq!(name, "div");
            assert_eq!(attributes.len(), 1);
            assert_eq!(attributes[0].name, "class");
            assert_eq!(attributes[0].value, "a");
            assert!(!self_closing);
        }
        _ => panic!("unexpected token kind"),
    }
}

#[test]
fn end_tag_rewriting() {
    let mut tag = EndTag::new_token(b"DIV".to_vec(), b"</DIV>".to_vec());
    assert_eq!(tag.name(), "div");
    let mut out = Vec::new();
    tag.serialize_into(&mut out);
    assert_eq!(out, b"</DIV>".to_vec());
    tag.set_name(b"span".to_vec());
    let mut out2 = Vec::new();
    tag.serialize_into(&mut out2);
    assert_eq!(out2, b"</span>".to_vec());
}

#[test]
fn self_closing_flag() {
    let v = views(&tokenize_whole(b"<br/>"));
    assert_eq!(v[0], "start:br:true:[]");
}

#[test]
fn plaintext_consumes_everything() {
    let v = views(&tokenize_whole(b"<plaintext></plaintext><div>"));
    assert_eq!(v[0], "start:plaintext:false:[]");
    assert_eq!(v[1], "chars:</plaintext><div>");
}
