use focus_core::protocol::{move_line, parse_position, query_line};

#[test]
fn move_line_format() {
    assert_eq!(move_line(75, -120), b"move 75 -120\n".to_vec());
    assert_eq!(move_line(0, 0), b"move 0 0\n".to_vec());
    assert_eq!(move_line(100, 1_234_567), b"move 100 1234567\n".to_vec());
    assert_eq!(
        move_line(i64::MAX, i64::MIN),
        b"move 9223372036854775807 -9223372036854775808\n".to_vec()
    );
}

#[test]
fn query_line_format() {
    assert_eq!(query_line(), b"position\n".to_vec());
}

#[test]
fn parse_plain_reply() {
    assert_eq!(parse_position(&b"342\n".to_vec()), Some(342));
    assert_eq!(parse_position(&b"  -7 \r\n".to_vec()), Some(-7));
    assert_eq!(parse_position(&b"+15".to_vec()), Some(15));
    assert_eq!(parse_position(&b"0".to_vec()), Some(0));
}

#[test]
fn parse_limits() {
    assert_eq!(parse_position(&b"9223372036854775807\n".to_vec()), Some(i64::MAX));
    assert_eq!(parse_position(&b"-9223372036854775808\n".to_vec()), Some(i64::MIN));
    assert_eq!(parse_position(&b"9223372036854775808\n".to_vec()), None);
    assert_eq!(parse_position(&b"-9223372036854775809".to_vec()), None);
    assert_eq!(parse_position(&b"123456789012345678901234567890".to_vec()), None);
}

#[test]
fn parse_rejects_malformed() {
    assert_eq!(parse_position(&b"".to_vec()), None);
    assert_eq!(parse_position(&b" \n".to_vec()), None);
    assert_eq!(parse_position(&b"-".to_vec()), None);
    assert_eq!(parse_position(&b"12a".to_vec()), None);
    assert_eq!(parse_position(&b"1 2".to_vec()), None);
    assert_eq!(parse_position(&b"abc\n".to_vec()), None);
}
