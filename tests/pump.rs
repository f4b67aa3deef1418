use roguewave::{Error, OutputPump};

#[test]
fn lines_are_logged_and_captured() {
    let mut p = OutputPump::new("stdout: ");
    assert_eq!(p.feed(b"hel").unwrap(), Vec::<String>::new());
    assert_eq!(p.feed(b"lo\nwor").unwrap(), vec!["stdout: hello"]);
    assert_eq!(p.feed(b"ld\n\nx").unwrap(), vec!["stdout: world", "stdout: "]);
    let (text, eof) = p.finish().unwrap();
    assert_eq!(text, "hello\nworld\n\nx");
    assert_eq!(eof, Some("stdout: x[eof]".to_string()));
}

#[test]
fn stream_ending_with_newline_has_no_eof_record() {
    let mut p = OutputPump::new("stderr: ");
    assert_eq!(p.feed(b"cat: /tmp/10: No such file or directory\n").unwrap(), vec!["stderr: cat: /tmp/10: No such file or directory"]);
    assert_eq!(p.finish().unwrap(), ("cat: /tmp/10: No such file or directory\n".to_string(), None));
}

#[test]
fn empty_stream_captures_nothing() {
    let p = OutputPump::new("stdout: ");
    assert_eq!(p.finish().unwrap(), (String::new(), None));
}

#[test]
fn multibyte_characters_split_across_chunks() {
    let mut p = OutputPump::new("");
    let bytes = "żółw\n".as_bytes();
    assert!(p.feed(&bytes[..2]).unwrap().is_empty());
    assert_eq!(p.feed(&bytes[2..]).unwrap(), vec!["żółw"]);
    assert_eq!(p.finish().unwrap().0, "żółw\n");
}

#[test]
fn invalid_utf8_is_an_error() {
    let mut p = OutputPump::new("stdout: ");
    assert_eq!(p.feed(b"ok\n\xff\n"), Err(Error::InvalidUtf8));
    let mut q = OutputPump::new("stdout: ");
    assert!(q.feed(b"\xc3").unwrap().is_empty());
    assert_eq!(q.finish(), Err(Error::InvalidUtf8));
}

#[test]
fn logged_bodies_rebuild_the_capture() {
    let mut p = OutputPump::new("stdout: ");
    let mut bodies = String::new();
    for chunk in [&b"a\nbb"[..], b"b\n", b"\nccc"] {
        for r in p.feed(chunk).unwrap() {
            bodies.push_str(r.strip_prefix("stdout: ").unwrap());
            bodies.push('\n');
        }
    }
    let (text, eof) = p.finish().unwrap();
    bodies.push_str(eof.unwrap().strip_prefix("stdout: ").unwrap().strip_suffix("[eof]").unwrap());
    assert_eq!(bodies, text);
    assert_eq!(text.as_bytes(), b"a\nbbb\n\nccc");
}
