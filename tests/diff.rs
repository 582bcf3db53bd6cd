use forky::diff::{
    deleted_file_diff, get_binary_type, is_binary_content, parse_diff,
    untracked_file_diff, DiffEvent,
};

#[test]
fn untracked_text_file_is_one_added_hunk() {
    let d = untracked_file_diff("notes.txt", b"one\ntwo\r\nthree").expect("a diff");
    assert!(!d.is_binary);
    assert_eq!(d.file_path, "notes.txt");
    assert_eq!(d.file_size, Some(14));
    assert_eq!(d.new_content.as_deref(), Some("one\ntwo\r\nthree"));
    assert_eq!(d.old_content, None);
    assert_eq!(d.binary_type, None);
    assert_eq!(d.hunks.len(), 1);
    let h = &d.hunks[0];
    assert_eq!((h.old_start, h.old_lines, h.new_start, h.new_lines), (0, 0, 1, 3));
    let contents: Vec<&str> = h.lines.iter().map(|l| l.content.as_str()).collect();
    assert_eq!(contents, vec!["one\n", "two\n", "three\n"]);
    for (i, l) in h.lines.iter().enumerate() {
        assert_eq!(l.line_type, "add");
        assert_eq!(l.old_line_no, None);
        assert_eq!(l.new_line_no, Some(i as u32 + 1));
    }
}

#[test]
fn empty_untracked_file_has_an_empty_hunk() {
    let d = untracked_file_diff("e", b"").expect("a diff");
    assert_eq!(d.hunks.len(), 1);
    assert_eq!(d.hunks[0].new_lines, 0);
    assert!(d.hunks[0].lines.is_empty());
}

#[test]
fn invalid_utf8_is_replaced() {
    let d = untracked_file_diff("u", b"a\xffb\n").expect("a diff");
    assert_eq!(d.hunks[0].lines[0].content, "a\u{fffd}b\n");
}

#[test]
fn deleted_text_file_is_one_deleted_hunk() {
    let d = deleted_file_diff("gone.rs", b"fn a() {}\n\nfn b() {}\n", false).expect("a diff");
    assert!(!d.is_binary);
    assert_eq!(d.old_content.as_deref(), Some("fn a() {}\n\nfn b() {}\n"));
    assert_eq!(d.new_content, None);
    let h = &d.hunks[0];
    assert_eq!((h.old_start, h.old_lines, h.new_start, h.new_lines), (1, 3, 0, 0));
    for (i, l) in h.lines.iter().enumerate() {
        assert_eq!(l.line_type, "delete");
        assert_eq!(l.old_line_no, Some(i as u32 + 1));
        assert_eq!(l.new_line_no, None);
    }
    assert_eq!(h.lines[1].content, "\n");
}

#[test]
fn null_byte_means_binary_in_every_mode() {
    let mut content = b"PNG".to_vec();
    content.push(0);
    let d = untracked_file_diff("pic.PNG", &content).expect("a diff");
    assert!(d.is_binary);
    assert!(d.hunks.is_empty());
    assert_eq!(d.binary_type.as_deref(), Some("image"));
    assert_eq!(d.file_size, Some(4));
    let d = deleted_file_diff("doc.pdf", &content, false).expect("a diff");
    assert!(d.is_binary && d.hunks.is_empty());
    assert_eq!(d.binary_type.as_deref(), Some("pdf"));
    let events = vec![
        DiffEvent::Hunk { old_start: 1, old_lines: 1, new_start: 1, new_lines: 1 },
        DiffEvent::Line { origin: '+', content: b"x\n".to_vec(), old_line_no: None, new_line_no: Some(1) },
    ];
    let d = parse_diff("blob.bin", &events, &content);
    assert!(d.is_binary && d.hunks.is_empty());
    assert_eq!(d.binary_type.as_deref(), Some("other"));
}

#[test]
fn store_binary_flag_is_honoured() {
    let d = deleted_file_diff("a.txt", b"text\n", true).expect("a diff");
    assert!(d.is_binary && d.hunks.is_empty());
}

#[test]
fn null_byte_probe_stops_at_8000() {
    let mut content = vec![b'a'; 8000];
    content.push(0);
    assert!(!is_binary_content(&content));
    content[7999] = 0;
    assert!(is_binary_content(&content));
    assert!(!is_binary_content(b""));
}

#[test]
fn binary_kinds() {
    assert_eq!(get_binary_type("a/B.JpEg").as_deref(), Some("image"));
    assert_eq!(get_binary_type("x.ico").as_deref(), Some("image"));
    assert_eq!(get_binary_type("x.PDF").as_deref(), Some("pdf"));
    assert_eq!(get_binary_type("x.zip").as_deref(), Some("other"));
}

#[test]
fn engine_stream_becomes_hunks() {
    let events = vec![
        DiffEvent::Line { origin: ' ', content: b"lost\n".to_vec(), old_line_no: Some(1), new_line_no: Some(1) },
        DiffEvent::Hunk { old_start: 1, old_lines: 1, new_start: 1, new_lines: 2 },
        DiffEvent::Line { origin: ' ', content: b"a\n".to_vec(), old_line_no: Some(1), new_line_no: Some(1) },
        DiffEvent::Line { origin: '+', content: b"b\n".to_vec(), old_line_no: None, new_line_no: Some(2) },
        DiffEvent::Hunk { old_start: 9, old_lines: 1, new_start: 10, new_lines: 0 },
        DiffEvent::Line { origin: '-', content: b"c\n".to_vec(), old_line_no: Some(9), new_line_no: None },
    ];
    let d = parse_diff("src/lib.rs", &events, b"a\nb\n");
    assert!(!d.is_binary);
    assert_eq!(d.binary_type, None);
    assert_eq!(d.file_size, None);
    assert_eq!(d.hunks.len(), 2);
    assert_eq!(d.hunks[0].lines.len(), 2);
    assert_eq!(d.hunks[0].lines[0].line_type, "context");
    assert_eq!(d.hunks[0].lines[1].line_type, "add");
    assert_eq!(d.hunks[0].lines[1].content, "b\n");
    assert_eq!((d.hunks[1].old_start, d.hunks[1].new_start, d.hunks[1].new_lines), (9, 10, 0));
    assert_eq!(d.hunks[1].lines[0].line_type, "delete");
    assert_eq!(d.hunks[1].lines[0].old_line_no, Some(9));
}

#[test]
fn engine_binary_report() {
    let events = vec![DiffEvent::Binary];
    let d = parse_diff("x.gif", &events, b"");
    assert!(d.is_binary);
    assert_eq!(d.binary_type.as_deref(), Some("image"));
}

#[test]
fn lines_of_decoded_text() {
    let d = untracked_file_diff("t", b"a\r\n\nb\r").expect("a diff");
    let contents: Vec<&str> = d.hunks[0].lines.iter().map(|l| l.content.as_str()).collect();
    assert_eq!(contents, vec!["a\n", "\n", "b\r\n"]);
    assert_eq!(d.hunks[0].new_lines, 3);
    let d = untracked_file_diff("t", b"x\n").expect("a diff");
    assert_eq!(d.hunks[0].new_lines, 1);
}
