use wol_bot::config::parse_allowed_users;
use wol_bot::number::{parse_i64, parse_u16, parse_u64};

const SAMPLES: [&str; 40] = [
    "", "0", "1", "-1", "+1", "-0", "+0", "00", "007", "-007", "+", "-", "+-1", "-+1", "--1",
    "++1", "1 ", " 1", "1_000", "1.0", "1e3", "0x10", "a", "12a", "a12", "١٢٣", "9223372036854775807",
    "9223372036854775808", "-9223372036854775808", "-9223372036854775809",
    "18446744073709551615", "18446744073709551616", "65535", "65536", "+65535",
    "000000000000000000000000000065535", "99999999999999999999999999", "-99999999999999999999999999",
    "123456789", "1-",
];

#[test]
fn parse_i64_agrees_with_std() {
    for s in SAMPLES {
        assert_eq!(parse_i64(s), s.parse::<i64>().ok(), "{:?}", s);
    }
}

#[test]
fn parse_u64_agrees_with_std() {
    for s in SAMPLES {
        assert_eq!(parse_u64(s), s.parse::<u64>().ok(), "{:?}", s);
    }
}

#[test]
fn parse_u16_agrees_with_std() {
    for s in SAMPLES {
        assert_eq!(parse_u16(s), s.parse::<u16>().ok(), "{:?}", s);
    }
}

#[test]
fn parse_exact_values() {
    assert_eq!(parse_i64("123456789"), Some(123456789));
    assert_eq!(parse_i64("-9223372036854775808"), Some(i64::MIN));
    assert_eq!(parse_i64("9223372036854775807"), Some(i64::MAX));
    assert_eq!(parse_i64("9223372036854775808"), None);
    assert_eq!(parse_i64("-9223372036854775809"), None);
    assert_eq!(parse_u64("18446744073709551615"), Some(u64::MAX));
    assert_eq!(parse_u64("18446744073709551616"), None);
    assert_eq!(parse_u64("-1"), None);
    assert_eq!(parse_u16("65535"), Some(65535));
    assert_eq!(parse_u16("65536"), None);
    assert_eq!(parse_u16("+22"), Some(22));
    assert_eq!(parse_u16(""), None);
}

fn std_users(s: &str) -> Vec<i64> {
    s.split(',').filter_map(|p| p.trim().parse::<i64>().ok()).collect::<Vec<_>>()
}

#[test]
fn allowed_users_agree_with_std_splitting() {
    let lists = [
        "", ",", ",,", "1", "1,2", "1,2,", ",1,2", " 1 , 2 ", "1,,2", "a,1,b,2,c", "1;2", "1 2,3",
        "123456789", "123456789,987654321", "-5,+6", "\t7\n,\u{a0}8\u{2003}", "9223372036854775808,1",
        "1,2,3,4,5,6,7,8,9,10", " ", "x",
    ];
    for s in lists {
        assert_eq!(parse_allowed_users(s), std_users(s), "{:?}", s);
    }
}

#[test]
fn allowed_users_exact() {
    assert_eq!(parse_allowed_users("123456789"), vec![123456789]);
    assert_eq!(parse_allowed_users(" 1, 2 ,x, -3"), vec![1, 2, -3]);
    assert_eq!(parse_allowed_users(""), Vec::<i64>::new());
    assert_eq!(parse_allowed_users(",,,"), Vec::<i64>::new());
    // Trimming is what lets an entry with blanks around it count.
    assert_eq!(parse_allowed_users(" 42 "), vec![42]);
}
