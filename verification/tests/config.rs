use fluentbit::{property_value, ConfigError, FLBPlugin};

fn with_terminator(text: &str) -> Vec<u8> {
    let mut mem = text.as_bytes().to_vec();
    mem.push(0);
    mem
}

fn host_table(entries: Vec<(&'static str, Vec<u8>)>) -> impl Fn(Vec<u8>) -> Option<Vec<u8>> {
    move |key: Vec<u8>| {
        entries.iter().find(|(name, _)| with_terminator(name) == key).map(|(_, value)| value.clone())
    }
}

#[test]
fn missing_key_yields_nothing() {
    let host = FLBPlugin::new(Some(host_table(vec![("params", with_terminator("a=b"))])));
    assert_eq!(host.config_param("missing_key"), Ok(None));
}

#[test]
fn empty_table_yields_nothing() {
    let host = FLBPlugin::new(Some(host_table(vec![])));
    assert_eq!(host.config_param("missing_key"), Ok(None));
}

#[test]
fn present_key_yields_the_hosts_value() {
    let host = FLBPlugin::new(Some(host_table(vec![
        ("params", with_terminator("a=b")),
        ("match", with_terminator("*")),
        ("city", with_terminator("K\u{f6}ln")),
    ])));
    assert_eq!(host.config_param("params"), Ok(Some(String::from("a=b"))));
    assert_eq!(host.config_param("match"), Ok(Some(String::from("*"))));
    assert_eq!(host.config_param("city"), Ok(Some(String::from("K\u{f6}ln"))));
}

#[test]
fn empty_value_is_a_value() {
    let host = FLBPlugin::new(Some(host_table(vec![("blank", vec![0u8])])));
    assert_eq!(host.config_param("blank"), Ok(Some(String::new())));
}

#[test]
fn key_with_zero_byte_is_invalid() {
    let host = FLBPlugin::new(Some(host_table(vec![("params", with_terminator("a=b"))])));
    assert_eq!(host.config_param("par\0ams"), Err(ConfigError::InvalidKey));
    assert_eq!(host.config_param("\0"), Err(ConfigError::InvalidKey));
}

#[test]
fn invalid_key_never_reaches_the_host() {
    let host = FLBPlugin::new(Some(|_key: Vec<u8>| -> Option<Vec<u8>> {
        panic!("the host was asked")
    }));
    assert_eq!(host.config_param("bad\0key"), Err(ConfigError::InvalidKey));
}

#[test]
fn host_without_getter_yields_nothing() {
    let host = FLBPlugin::new(None::<fn(Vec<u8>) -> Option<Vec<u8>>>);
    assert_eq!(host.config_param("params"), Ok(None));
    assert_eq!(host.config_param("missing_key"), Ok(None));
}

#[test]
fn host_without_getter_still_rejects_invalid_key() {
    let host = FLBPlugin::new(None::<fn(Vec<u8>) -> Option<Vec<u8>>>);
    assert_eq!(host.config_param("a\0"), Err(ConfigError::InvalidKey));
}

#[test]
fn host_receives_the_key_as_a_host_string() {
    let host = FLBPlugin::new(Some(|key: Vec<u8>| -> Option<Vec<u8>> {
        assert_eq!(key, b"params\0".to_vec());
        Some(b"seen\0".to_vec())
    }));
    assert_eq!(host.config_param("params"), Ok(Some(String::from("seen"))));
}

#[test]
fn value_that_is_no_text_is_an_error() {
    let host = FLBPlugin::new(Some(host_table(vec![
        ("broken", vec![0xff, 0xfe, 0]),
        ("open", vec![b'a', b'b']),
    ])));
    assert_eq!(host.config_param("broken"), Err(ConfigError::InvalidEncoding));
    assert_eq!(host.config_param("open"), Err(ConfigError::InvalidEncoding));
}

#[test]
fn value_ends_at_its_terminator() {
    let host = FLBPlugin::new(Some(host_table(vec![("k", b"left\0right\0".to_vec())])));
    assert_eq!(host.config_param("k"), Ok(Some(String::from("left"))));
}

#[test]
fn answer_of_the_host_becomes_the_value() {
    assert_eq!(property_value(None), Ok(None));
    assert_eq!(property_value(Some(b"info\0")), Ok(Some(String::from("info"))));
    assert_eq!(property_value(Some(b"\0")), Ok(Some(String::new())));
    assert_eq!(property_value(Some(&[0xc0, 0x80, 0])), Err(ConfigError::InvalidEncoding));
    assert_eq!(property_value(Some(b"")), Err(ConfigError::InvalidEncoding));
}
