use unsplash_wallpaper::download::{content_length, parse_u64, ClientError, DownloadProgress};

#[test]
fn parses_plain_numbers() {
    assert_eq!(parse_u64(b"0"), Some(0));
    assert_eq!(parse_u64(b"12345"), Some(12345));
    assert_eq!(parse_u64(b"+7"), Some(7));
    assert_eq!(parse_u64(b"007"), Some(7));
}

#[test]
fn parses_the_largest_value() {
    assert_eq!(parse_u64(b"18446744073709551615"), Some(u64::MAX));
    assert_eq!(parse_u64(b"18446744073709551616"), None);
    assert_eq!(parse_u64(b"99999999999999999999x"), None);
}

#[test]
fn rejects_what_is_no_number() {
    assert_eq!(parse_u64(b""), None);
    assert_eq!(parse_u64(b"+"), None);
    assert_eq!(parse_u64(b"-1"), None);
    assert_eq!(parse_u64(b"12a"), None);
    assert_eq!(parse_u64(b" 12"), None);
    assert_eq!(parse_u64(b"abc"), None);
}

#[test]
fn missing_header_is_reported() {
    assert!(matches!(content_length(None), Err(ClientError::NoHeader)));
}

#[test]
fn header_that_is_not_text_is_reported() {
    match content_length(Some(vec![b'1', 0x80, b'2'])) {
        Err(ClientError::ParsingHeaderError(v)) => assert_eq!(v, vec![b'1', 0x80, b'2']),
        _ => panic!("expected a header error"),
    }
    assert!(matches!(
        content_length(Some(vec![b'1', 10])),
        Err(ClientError::ParsingHeaderError(_))
    ));
}

#[test]
fn header_that_is_no_number_is_reported() {
    match content_length(Some(b"abc".to_vec())) {
        Err(ClientError::ParsingNumber(t)) => assert_eq!(t, "abc"),
        _ => panic!("expected a number error"),
    }
}

#[test]
fn numeric_header_gives_length() {
    assert!(matches!(content_length(Some(b"1024".to_vec())), Ok(1024)));
    assert!(matches!(content_length(Some(b"0".to_vec())), Ok(0)));
}

#[test]
fn unreadable_header_leaves_total_unknown() {
    let mut p = DownloadProgress::from_length(&content_length(Some(b"abc".to_vec())));
    assert_eq!(p.expected_bytes, None);
    assert!(!p.total_known());
    p.record_chunk(10);
    p.record_chunk(5);
    assert_eq!(p.received_bytes, 15);
    assert_eq!(p.expected_bytes, None);

    let absent = DownloadProgress::from_length(&content_length(None));
    assert_eq!(absent.expected_bytes, None);
    assert_eq!(absent.received_bytes, 0);
}

#[test]
fn known_total_is_kept() {
    let mut p = DownloadProgress::from_length(&content_length(Some(b"2048".to_vec())));
    assert_eq!(p.expected_bytes, Some(2048));
    assert!(p.total_known());
    p.record_chunk(2048);
    assert_eq!(p.received_bytes, 2048);
    assert_eq!(p.expected_bytes, Some(2048));
}

#[test]
fn received_count_is_the_stream_length() {
    let chunks: Vec<u64> = vec![3, 0, 4096, 17, 1];
    let mut p = DownloadProgress::from_length(&Ok(100));
    let mut last = 0;
    for c in &chunks {
        p.record_chunk(*c);
        assert!(p.received_bytes >= last);
        last = p.received_bytes;
    }
    assert_eq!(p.received_bytes, chunks.iter().sum::<u64>());
    assert_eq!(p.received_bytes, 4117);
}

#[test]
fn received_count_stops_at_the_largest_value() {
    let mut p = DownloadProgress::from_length(&Ok(1));
    p.record_chunk(u64::MAX - 1);
    p.record_chunk(5);
    assert_eq!(p.received_bytes, u64::MAX);
}
