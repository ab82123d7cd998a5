use data_comparison_tool::text::{int_to_string, parse_i32, str_eq};

#[test]
fn int_to_string_matches_display() {
    for v in [0i64, 7, 10, -1, -10, 123456789, i64::MAX, i64::MIN] {
        assert_eq!(int_to_string(v), v.to_string());
    }
}

#[test]
fn parse_i32_matches_std() {
    for s in ["0", "12", "+12", "-12", "-0", "2147483647", "-2147483648", "2147483648", "-2147483649", "", "-", "+",
        "1a", " 1", "99999999999999999999", "007"] {
        assert_eq!(parse_i32(s), s.parse::<i32>().ok(), "input {:?}", s);
    }
}

#[test]
fn parse_reads_back_int_to_string() {
    for v in [0i32, 5, -5, i32::MAX, i32::MIN, 1000] {
        assert_eq!(parse_i32(&int_to_string(v as i64)), Some(v));
    }
}

#[test]
fn str_eq_compares_characters() {
    assert!(str_eq("-t1", "-t1"));
    assert!(!str_eq("-t1", "-t2"));
    assert!(!str_eq("-t", "-t1"));
}
