use rust_renderer::mesh::Mesh;
use rust_renderer::numtext::is_number_token;
use rust_renderer::numtext::parse_index;
use rust_renderer::numtext::render_milli;
use rust_renderer::triangulate::parse_obj;

fn load(text: &str) -> Mesh {
    parse_obj(&text.as_bytes().to_vec()).expect("well-formed document")
}

fn num(s: &str) -> bool {
    is_number_token(&s.as_bytes().to_vec())
}

#[test]
fn number_grammar_accepts_common_forms() {
    assert!(num("0"));
    assert!(num("42"));
    assert!(num("-1"));
    assert!(num("+2.5"));
    assert!(num("1.0"));
    assert!(num("5."));
    assert!(num(".5"));
    assert!(num("-.5"));
    assert!(num("1e5"));
    assert!(num("1E5"));
    assert!(num("2.5e-3"));
    assert!(num("-1.e+10"));
}

#[test]
fn number_grammar_rejects_malformed_forms() {
    assert!(!num(""));
    assert!(!num("."));
    assert!(!num("-"));
    assert!(!num("+"));
    assert!(!num("abc"));
    assert!(!num("1.2.3"));
    assert!(!num("--1"));
    assert!(!num("1e"));
    assert!(!num("1e+"));
    assert!(!num("e5"));
    assert!(!num("1e5e6"));
    assert!(!num("1 2"));
    assert!(!num("0x10"));
}

#[test]
fn index_parse_handles_leading_zeros_and_limits() {
    assert_eq!(parse_index(&b"7".to_vec()), Some(7));
    assert_eq!(parse_index(&b"007".to_vec()), Some(7));
    assert_eq!(parse_index(&b"0".to_vec()), Some(0));
    assert_eq!(parse_index(&b"4294967295".to_vec()), Some(u32::MAX));
    assert_eq!(parse_index(&b"4294967296".to_vec()), None);
    assert_eq!(parse_index(&b"".to_vec()), None);
    assert_eq!(parse_index(&b"-1".to_vec()), None);
    assert_eq!(parse_index(&b"1a".to_vec()), None);
}

#[test]
fn keywords_match_case_insensitively() {
    let m = load("V 0 0 0\nV 1 0 0\nV 0 1 0\nF 1 2 3\n");
    assert_eq!(m.vertices.len(), 3);
    let m = load("vN 0 0 1\nv 0 0 0\nv 1 0 0\nv 0 1 0\nf 1//1 2//1 3//1\n");
    assert_eq!(m.vertices[0].normal.z, b"1".to_vec());
}

#[test]
fn crlf_and_blank_runs_are_handled() {
    let m = load("v 0 0 0\r\nv  1\t0  0\r\nv 0 1 0\r\nf 1 2 3\r\n");
    assert_eq!(m.vertices.len(), 3);
    assert_eq!(m.vertices[1].position.x, b"1".to_vec());
}

#[test]
fn position_weight_and_extra_tokens_are_tolerated() {
    // A fourth coordinate (weight) is read and discarded; it must still
    // be numeric. Tokens past it are ignored.
    let m = load("v 0 0 0 1.0\nv 1 0 0 1.0 trailing\nv 0 1 0\nf 1 2 3\n");
    assert_eq!(m.vertices.len(), 3);
    let e = parse_obj(&b"v 0 0 0 notanumber\n".to_vec()).unwrap_err();
    assert_eq!(e.kind, rust_renderer::parse::ParseErrorKind::MalformedPosition);
}

#[test]
fn corner_reference_forms() {
    // p, p/t, p//n, p/t/n, and fields past the third are ignored.
    let m = load(
        "v 0 0 0\nv 1 0 0\nv 0 1 0\nvn 0 0 1\nf 1 2/7 3//1\nf 1/7/1 2/99999999999999999999/1 3/7/1/extra\n",
    );
    assert_eq!(m.vertices.len(), 6);
    assert_eq!(m.vertices[2].normal.z, b"1".to_vec());
    // The texture field is discarded without a range check.
    assert_eq!(m.vertices[4].normal.z, b"1".to_vec());
}

#[test]
fn milli_rendering_is_exact_decimal() {
    assert_eq!(render_milli(0), b"0.000".to_vec());
    assert_eq!(render_milli(1000), b"1.000".to_vec());
    assert_eq!(render_milli(-1500), b"-1.500".to_vec());
    assert_eq!(render_milli(35_264), b"35.264".to_vec());
    assert_eq!(render_milli(100_000), b"100.000".to_vec());
    assert_eq!(render_milli(-45_000), b"-45.000".to_vec());
    assert_eq!(render_milli(7), b"0.007".to_vec());
    assert_eq!(render_milli(-7), b"-0.007".to_vec());
}

#[test]
fn rendered_milli_tokens_reparse_as_the_same_value() {
    for m in [0i64, 1, -1, 999, -999, 1000, 1001, 123_456, -987_654_321] {
        let t = render_milli(m);
        let s = String::from_utf8(t).unwrap();
        let f: f64 = s.parse().unwrap();
        assert_eq!(f, m as f64 / 1000.0);
        assert!(is_number_token(&s.as_bytes().to_vec()));
    }
}
