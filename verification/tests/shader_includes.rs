//! The shader include scanner and splicer, and the blit geometry.

use processing::errors::{ErrorReadingIncludeLineInShader, ProcessingErr};
use processing::screen::{blit_quad_indices, blit_quad_vertices};
use processing::shaders::{scan_includes, splice_includes};

fn lines(src: &[&str]) -> Vec<Vec<u8>> {
    src.iter().map(|l| l.as_bytes().to_vec()).collect()
}

#[test]
fn scan_finds_includes_with_line_numbers_and_names() {
    let src = lines(&[
        "#version 330",
        "#include <noise.frag>",
        "void main() {}",
        "#include <util.frag>",
    ]);
    let refs = scan_includes(&src).unwrap();
    assert_eq!(refs.len(), 2);
    assert_eq!(refs[0].line_number, 2);
    assert_eq!(refs[0].name, b"noise.frag".to_vec());
    assert_eq!(refs[1].line_number, 4);
    assert_eq!(refs[1].name, b"util.frag".to_vec());
}

#[test]
fn scan_without_includes_is_empty() {
    let src = lines(&["void main() {", "}"]);
    assert_eq!(scan_includes(&src).unwrap().len(), 0);
}

#[test]
fn include_without_bracket_errors_with_its_line() {
    let src = lines(&["ok", "#include noise.frag", "#include <also bad"]);
    match scan_includes(&src) {
        Err(ProcessingErr::ErrorReadingShader(ln, _)) => assert_eq!(ln, 2),
        other => panic!("expected a shader-reading error, got {:?}", other),
    }
}

#[test]
fn include_with_nothing_after_bracket_errors() {
    let src = lines(&["#include <"]);
    match scan_includes(&src) {
        Err(ProcessingErr::ErrorReadingShader(ln, _)) => assert_eq!(ln, 1),
        other => panic!("expected a shader-reading error, got {:?}", other),
    }
}

#[test]
fn name_drops_the_final_byte_only() {
    // everything after the first bracket, minus the line's last byte
    let src = lines(&["#include <a.frag> "]);
    let refs = scan_includes(&src).unwrap();
    assert_eq!(refs[0].name, b"a.frag>".to_vec());
}

#[test]
fn splice_replaces_include_lines_with_content() {
    let src = lines(&["#version 330", "#include <noise.frag>", "void main() {}"]);
    let repl = vec![None, Some(b"float noise() { return 0.0; }".to_vec()), None];
    let out = splice_includes(&src, &repl);
    assert_eq!(
        out,
        b"#version 330\nfloat noise() { return 0.0; }\nvoid main() {}".to_vec()
    );
}

#[test]
fn splice_without_replacements_joins_the_lines() {
    let src = lines(&["a", "b", "c"]);
    let out = splice_includes(&src, &vec![None, None, None]);
    assert_eq!(out, b"a\nb\nc".to_vec());
    let empty: Vec<Vec<u8>> = Vec::new();
    assert_eq!(splice_includes(&empty, &Vec::new()), Vec::<u8>::new());
}

#[test]
fn include_error_type_keeps_its_account() {
    let e = ErrorReadingIncludeLineInShader::new("the bracket is missing");
    assert_eq!(e.description(), "the bracket is missing");
}

#[test]
fn blit_quad_spans_clip_space() {
    let v = blit_quad_vertices();
    assert_eq!(v.len(), 4);
    assert_eq!((v[0].x, v[0].y), (-65536, -65536));
    assert_eq!((v[2].x, v[2].y), (65536, 65536));
    assert_eq!((v[2].tex_u, v[2].tex_v), (65536, 65536));
    assert_eq!(blit_quad_indices(), vec![0u16, 1, 2, 0, 2, 3]);
}
