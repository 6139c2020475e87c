use monort::foreign::{finish_call, foreign_buffer, foreign_text, prepare_call, Arg, BoundaryError, RenderRequest};
use monort::render::Error;
use monort::table::TableKind;

#[test]
fn text_ends_at_first_nul() {
    assert_eq!(foreign_text(b"default\0"), Some("default".to_string()));
    assert_eq!(foreign_text(b"ab\0cd\0"), Some("ab".to_string()));
    assert_eq!(foreign_text(b"\0"), Some(String::new()));
    assert_eq!(foreign_text(b"no terminator"), Some("no terminator".to_string()));
    assert_eq!(foreign_text(b""), Some(String::new()));
}

#[test]
fn multibyte_text_is_decoded() {
    assert_eq!(foreign_text("é+─\0".as_bytes()), Some("é+─".to_string()));
}

#[test]
fn invalid_utf8_is_rejected() {
    assert_eq!(foreign_text(&[0xff, 0x41, 0]), None);
    assert_eq!(foreign_text(&[0x41, 0xc3, 0]), None);
    // Bytes after the terminator are not looked at.
    assert_eq!(foreign_text(&[0x41, 0, 0xff]), Some("A".to_string()));
}

#[test]
fn buffer_is_text_then_nul() {
    assert_eq!(foreign_buffer("abc"), Some(b"abc\0".to_vec()));
    assert_eq!(foreign_buffer(""), Some(vec![0]));
    assert_eq!(foreign_buffer("é"), Some(vec![0xc3, 0xa9, 0]));
    assert_eq!(foreign_buffer("a\0b"), None);
}

#[test]
fn buffer_reads_back_as_its_text() {
    let text = "<svg name=\"x\">─┼─</svg>";
    let buf = foreign_buffer(text).unwrap();
    assert_eq!(foreign_text(&buf), Some(text.to_string()));
}

#[test]
fn prepare_call_decodes_all_three() {
    assert_eq!(
        prepare_call(b"default\0", b" | \n-+-\n\0", b"x\0"),
        Ok(RenderRequest { table: TableKind::Default, content: " | \n-+-\n".to_string(), name: "x".to_string() })
    );
    assert_eq!(
        prepare_call(b"demo\0", b"\0", b"\0"),
        Ok(RenderRequest { table: TableKind::Demo, content: String::new(), name: String::new() })
    );
}

#[test]
fn prepare_call_reports_the_first_bad_argument() {
    assert_eq!(prepare_call(&[0xff, 0], &[0xff, 0], b"x\0"), Err(BoundaryError::BadText(Arg::Table)));
    assert_eq!(prepare_call(b"default\0", &[0x2b, 0xfe, 0], b"x\0"), Err(BoundaryError::BadText(Arg::Content)));
    assert_eq!(prepare_call(b"default\0", b"+\0", &[0xc0, 0]), Err(BoundaryError::BadText(Arg::Name)));
    assert_eq!(prepare_call(b"fancy\0", b"+\0", &[0xc0, 0]), Err(BoundaryError::BadText(Arg::Name)));
}

#[test]
fn prepare_call_rejects_unknown_table() {
    assert_eq!(
        prepare_call(b"fancy\0", b"+\0", b"x\0"),
        Err(BoundaryError::UnknownTable("fancy".to_string()))
    );
}

#[test]
fn finish_call_lays_out_the_rendered_text() {
    assert_eq!(finish_call(Ok("<svg/>".to_string())), Ok(b"<svg/>\0".to_vec()));
    assert_eq!(finish_call(Ok("<svg>\0</svg>".to_string())), Err(BoundaryError::InteriorNul));
    assert_eq!(
        finish_call(Err(Error::Parse("line 2".to_string()))),
        Err(BoundaryError::Render(Error::Parse("line 2".to_string())))
    );
}

#[test]
fn two_calls_keep_their_own_output() {
    let first = finish_call(Ok("<svg>one</svg>".to_string())).unwrap();
    let second = finish_call(Ok("<svg>two</svg>".to_string())).unwrap();
    assert_ne!(first, second);
    assert_eq!(foreign_text(&first), Some("<svg>one</svg>".to_string()));
    assert_eq!(foreign_text(&second), Some("<svg>two</svg>".to_string()));
}

#[test]
fn same_call_twice_gives_the_same_bytes() {
    let a = prepare_call(b"default\0", b"+\0", b"x\0");
    let b = prepare_call(b"default\0", b"+\0", b"x\0");
    assert_eq!(a, b);
    assert_eq!(finish_call(Ok("<svg/>".to_string())), finish_call(Ok("<svg/>".to_string())));
}
