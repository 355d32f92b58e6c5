use movie_db::decimal::{format_i64, parse_i64};

#[test]
fn formats_like_to_string() {
    for x in [0i64, 7, 10, 42, -1, -10, 1999, i64::MAX, i64::MIN] {
        assert_eq!(format_i64(x), x.to_string());
    }
}

#[test]
fn parses_like_std() {
    for s in ["0", "42", "+42", "-42", "007", "-0", "9223372036854775807", "-9223372036854775808",
              "9223372036854775808", "-9223372036854775809", "", "-", "+", "1a", " 1", "1 ", "--1",
              "99999999999999999999999", "١٢"] {
        assert_eq!(parse_i64(s), s.parse::<i64>().ok(), "input {:?}", s);
    }
}

#[test]
fn parse_reads_back_format() {
    for x in [0i64, 5, -5, 123456789, i64::MAX, i64::MIN] {
        assert_eq!(parse_i64(&format_i64(x)), Some(x));
    }
}
