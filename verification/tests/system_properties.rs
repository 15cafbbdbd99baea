use ndk::system_properties::{
    foreach_result, from_bytes_with_nul, name_from_buffer, process_owned, process_parse,
    set_result, ForeachError, GetError, GetRawError, NulError, SetError, PROP_NAME_MAX,
    PROP_VALUE_MAX,
};
use ndk::trace::{trace_name, Cookie, NulError as TraceNulError};

fn buffer(content: &[u8]) -> Vec<u8> {
    let mut v = vec![0xAAu8; PROP_VALUE_MAX];
    v[..content.len()].copy_from_slice(content);
    v
}

#[test]
fn property_limits() {
    assert_eq!(PROP_VALUE_MAX, 92);
    assert_eq!(PROP_NAME_MAX, 32);
}

#[test]
fn nul_terminated_bytes() {
    assert_eq!(from_bytes_with_nul(b"abc\0"), Ok(b"abc".to_vec()));
    assert_eq!(from_bytes_with_nul(b"\0"), Ok(vec![]));
    assert_eq!(from_bytes_with_nul(b"a\0c\0"), Err(NulError::InteriorNul(1)));
    assert_eq!(from_bytes_with_nul(b"abc"), Err(NulError::NotNulTerminated));
    assert_eq!(from_bytes_with_nul(b""), Err(NulError::NotNulTerminated));
}

#[test]
fn names_end_at_first_nul() {
    assert_eq!(name_from_buffer(b"ro.build\0junk\0"), b"ro.build".to_vec());
    assert_eq!(name_from_buffer(b"\0"), Vec::<u8>::new());
}

#[test]
fn raw_reads() {
    assert_eq!(process_owned(0, &buffer(b"")), Err(GetRawError::MissingOrEmpty));
    assert_eq!(process_owned(-1, &buffer(b"")), Err(GetRawError::Failed));
    assert_eq!(process_owned(4, &buffer(b"true\0")), Ok(b"true".to_vec()));
    assert_eq!(
        process_owned(4, &buffer(b"tr\0e\0")),
        Err(GetRawError::ValueMissingNul(NulError::InteriorNul(2)))
    );
    assert_eq!(
        process_owned(4, &buffer(b"true")),
        Err(GetRawError::ValueMissingNul(NulError::NotNulTerminated))
    );
}

#[test]
fn parsed_reads() {
    assert!(matches!(process_parse::<()>(0, &buffer(b"")), Err(GetError::MissingOrEmpty)));
    assert!(matches!(process_parse::<()>(-1, &buffer(b"")), Err(GetError::Failed)));
    let text = process_parse::<()>(2, &buffer(b"42\0")).unwrap();
    assert_eq!(text, "42");
    assert_eq!(text.parse::<u32>(), Ok(42));
    assert!(matches!(
        process_parse::<()>(2, &buffer(b"4\0\0")),
        Err(GetError::ValueMissingNul(NulError::InteriorNul(1)))
    ));
    assert!(matches!(
        process_parse::<()>(2, &buffer(&[0xff, 0xfe, 0])),
        Err(GetError::Utf8Error(_))
    ));
    assert_eq!(process_parse::<()>(3, &buffer("é1\0".as_bytes())).unwrap(), "é1");
}

#[test]
fn writes_and_walks() {
    assert_eq!(set_result(0, 5), Ok(()));
    assert_eq!(set_result(-1, 13), Err(SetError(13)));
    assert_eq!(foreach_result(0), Ok(()));
    assert_eq!(foreach_result(-1), Err(ForeachError));
}

#[test]
fn trace_names() {
    assert_eq!(trace_name("frame"), Ok(b"frame\0".to_vec()));
    assert_eq!(trace_name(""), Ok(vec![0]));
    assert_eq!(trace_name("a\0b"), Err(TraceNulError(1)));
    assert_eq!(Cookie(4).0, 4);
}
