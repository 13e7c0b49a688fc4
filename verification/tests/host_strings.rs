use fluentbit::{
    borrow_host_str, find_terminator, from_host_string, outcome_code, to_host_string, FLBError,
    StringError, FLB_ERROR, FLB_OK, FLB_PROXY_GOLANG, FLB_PROXY_OUTPUT_PLUGIN, FLB_RETRY,
};

#[test]
fn encodes_text_with_one_terminator() {
    assert_eq!(to_host_string("rustout"), Ok(b"rustout\0".to_vec()));
    assert_eq!(to_host_string("app.log"), Ok(vec![b'a', b'p', b'p', b'.', b'l', b'o', b'g', 0]));
}

#[test]
fn encodes_empty_text_as_lone_terminator() {
    assert_eq!(to_host_string(""), Ok(vec![0u8]));
}

#[test]
fn encodes_text_beyond_ascii_as_its_utf8_bytes() {
    assert_eq!(to_host_string("caf\u{e9}"), Ok(vec![b'c', b'a', b'f', 0xc3, 0xa9, 0]));
    assert_eq!(to_host_string("\u{20ac}"), Ok(vec![0xe2, 0x82, 0xac, 0]));
    assert_eq!(to_host_string("\u{1f600}"), Ok(vec![0xf0, 0x9f, 0x98, 0x80, 0]));
}

#[test]
fn rejects_text_with_a_zero_byte() {
    assert_eq!(to_host_string("a\0b"), Err(StringError::ContainsInteriorNul));
    assert_eq!(to_host_string("\0"), Err(StringError::ContainsInteriorNul));
    assert_eq!(to_host_string("tail\0"), Err(StringError::ContainsInteriorNul));
}

#[test]
fn decodes_up_to_the_first_terminator() {
    assert_eq!(from_host_string(b"demo\0"), Ok(String::from("demo")));
    assert_eq!(from_host_string(b"demo\0rest\0"), Ok(String::from("demo")));
    assert_eq!(from_host_string(b"\0"), Ok(String::new()));
    assert_eq!(from_host_string(b"\0\0abc"), Ok(String::new()));
}

#[test]
fn decodes_utf8_beyond_ascii() {
    assert_eq!(from_host_string(&[b'c', b'a', b'f', 0xc3, 0xa9, 0]), Ok(String::from("caf\u{e9}")));
    assert_eq!(from_host_string(&[0xf0, 0x9f, 0x98, 0x80, 0]), Ok(String::from("\u{1f600}")));
}

#[test]
fn rejects_memory_without_terminator() {
    assert_eq!(from_host_string(b"demo"), Err(StringError::InvalidEncoding));
    assert_eq!(from_host_string(b""), Err(StringError::InvalidEncoding));
}

#[test]
fn rejects_bytes_that_are_not_utf8() {
    assert_eq!(from_host_string(&[0xff, 0]), Err(StringError::InvalidEncoding));
    assert_eq!(from_host_string(&[0xc3, 0x28, 0]), Err(StringError::InvalidEncoding));
    assert_eq!(from_host_string(&[b'a', 0xc3, 0]), Err(StringError::InvalidEncoding));
    assert_eq!(from_host_string(&[0xed, 0xa0, 0x80, 0]), Err(StringError::InvalidEncoding));
}

#[test]
fn invalid_bytes_after_the_terminator_do_not_matter() {
    assert_eq!(from_host_string(&[b'o', b'k', 0, 0xff, 0xfe]), Ok(String::from("ok")));
}

#[test]
fn borrowed_read_agrees_with_owned_read() {
    let mem = b"app.log\0junk";
    assert_eq!(borrow_host_str(mem), Ok("app.log"));
    assert_eq!(borrow_host_str(mem).map(String::from), from_host_string(mem));
    assert_eq!(borrow_host_str(&[0x80, 0]), Err(StringError::InvalidEncoding));
    assert_eq!(borrow_host_str(b"open"), Err(StringError::InvalidEncoding));
}

#[test]
fn finds_the_first_zero_byte() {
    assert_eq!(find_terminator(b"abc\0def\0"), Some(3));
    assert_eq!(find_terminator(b"\0"), Some(0));
    assert_eq!(find_terminator(b"abc"), None);
    assert_eq!(find_terminator(b""), None);
}

#[test]
fn text_written_to_the_host_reads_back() {
    let texts = ["", "rustout", "This is a default description", "caf\u{e9} \u{20ac} \u{1f600}", " "];
    for text in texts {
        let mem = to_host_string(text).unwrap();
        assert_eq!(mem.last(), Some(&0u8));
        assert_eq!(mem.len(), text.len() + 1);
        assert_eq!(from_host_string(&mem), Ok(String::from(text)));
    }
}

#[test]
fn decoded_text_encodes_back_to_the_same_string() {
    let mem = b"tag.one\0tag.two\0";
    let text = from_host_string(mem).unwrap();
    assert_eq!(to_host_string(&text), Ok(b"tag.one\0".to_vec()));
}

#[test]
fn failures_map_to_their_codes() {
    assert_eq!(i32::from(FLBError::FLB_ERROR), 0);
    assert_eq!(i32::from(FLBError::FLB_RETRY), 2);
}

#[test]
fn outcomes_map_to_their_codes() {
    assert_eq!(outcome_code(Ok(())), 1);
    assert_eq!(outcome_code(Err(FLBError::FLB_RETRY)), 2);
    assert_eq!(outcome_code(Err(FLBError::FLB_ERROR)), 0);
}

#[test]
fn protocol_constants_have_their_values() {
    assert_eq!(FLB_ERROR, 0);
    assert_eq!(FLB_OK, 1);
    assert_eq!(FLB_RETRY, 2);
    assert_eq!(FLB_PROXY_OUTPUT_PLUGIN, 2);
    assert_eq!(FLB_PROXY_GOLANG, 11);
}
