use discogs_parquet::status::Status;
use discogs_parquet::text::{parse_id, unescape};

#[test]
fn unescape_replaces_the_entity() {
    assert_eq!(unescape(b"Electronic &amp; Dance"), b"Electronic & Dance".to_vec());
}

#[test]
fn unescape_replaces_every_occurrence() {
    assert_eq!(unescape(b"&amp;a&amp;&amp;b&amp;"), b"&a&&b&".to_vec());
}

#[test]
fn unescape_leaves_plain_text_alone() {
    assert_eq!(unescape(b"Rock"), b"Rock".to_vec());
    assert_eq!(unescape(b""), Vec::<u8>::new());
    assert_eq!(unescape(b"R&B"), b"R&B".to_vec());
    assert_eq!(unescape(b"&amp"), b"&amp".to_vec());
    assert_eq!(unescape(b"&lt;"), b"&lt;".to_vec());
    assert_eq!(unescape("Ünïcödé &amp; Ко".as_bytes()), "Ünïcödé & Ко".as_bytes().to_vec());
}

#[test]
fn unescape_twice_changes_nothing_more() {
    let once = unescape(b"Electronic &amp; Dance");
    assert_eq!(unescape(&once), once);
}

#[test]
fn unescape_does_not_read_its_own_output_again() {
    let once = unescape(b"&amp;amp;");
    assert_eq!(once, b"&amp;".to_vec());
    assert_eq!(unescape(&once), b"&".to_vec());
}

#[test]
fn parse_id_reads_decimal_digits() {
    assert_eq!(parse_id(b"0"), Some(0));
    assert_eq!(parse_id(b"1"), Some(1));
    assert_eq!(parse_id(b"1234567"), Some(1234567));
    assert_eq!(parse_id(b"007"), Some(7));
    assert_eq!(parse_id(b"4294967295"), Some(4294967295));
    assert_eq!(parse_id(b"00000000004294967295"), Some(4294967295));
}

#[test]
fn parse_id_takes_a_leading_plus() {
    assert_eq!(parse_id(b"+42"), Some(42));
}

#[test]
fn parse_id_refuses_what_is_no_number() {
    assert_eq!(parse_id(b""), None);
    assert_eq!(parse_id(b"+"), None);
    assert_eq!(parse_id(b"-1"), None);
    assert_eq!(parse_id(b"12a"), None);
    assert_eq!(parse_id(b" 12"), None);
    assert_eq!(parse_id(b"12 "), None);
    assert_eq!(parse_id(b"++1"), None);
    assert_eq!(parse_id(b"1.0"), None);
}

#[test]
fn parse_id_refuses_what_does_not_fit() {
    assert_eq!(parse_id(b"4294967296"), None);
    assert_eq!(parse_id(b"99999999999999999999999999"), None);
}

#[test]
fn parse_id_agrees_with_the_standard_parser() {
    for text in ["0", "17", "+17", "", "+", "-", "-0", "4294967295", "4294967296", "1e3", "٣"] {
        assert_eq!(parse_id(text.as_bytes()), text.parse::<u32>().ok(), "{text:?}");
    }
}

#[test]
fn status_reads_the_three_words_only() {
    assert_eq!(Status::from_bytes(&b"Accepted".to_vec()), Some(Status::Accepted));
    assert_eq!(Status::from_bytes(&b"Draft".to_vec()), Some(Status::Draft));
    assert_eq!(Status::from_bytes(&b"Deleted".to_vec()), Some(Status::Deleted));
    assert_eq!(Status::from_bytes(&b"accepted".to_vec()), None);
    assert_eq!(Status::from_bytes(&b"Pending".to_vec()), None);
    assert_eq!(Status::from_bytes(&b"".to_vec()), None);
}

#[test]
fn status_word_reads_back() {
    for status in [Status::Accepted, Status::Draft, Status::Deleted] {
        assert_eq!(Status::from_bytes(&status.word().as_bytes().to_vec()), Some(status));
    }
}
