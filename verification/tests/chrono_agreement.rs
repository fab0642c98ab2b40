use chrono::NaiveDate;
use lauyer::date::{format_ymd, DrDate};
use lauyer::json::Json;

#[test]
fn format_ymd_agrees_with_chrono() {
    for (y, m, d) in [(2026, 1, 5), (0, 1, 1), (9, 9, 9), (999, 12, 31), (9999, 12, 31), (10000, 1, 1), (-1, 2, 28), (-9999, 7, 4), (-10000, 7, 4), (262142, 12, 31), (-262143, 1, 1)] {
        let ours = format_ymd(&DrDate::from_ymd_opt(y, m, d).unwrap());
        let theirs = NaiveDate::from_ymd_opt(y, m, d).unwrap().format("%Y-%m-%d").to_string();
        assert_eq!(ours, theirs);
    }
}

#[test]
fn from_ymd_opt_agrees_with_chrono() {
    for y in [-262144, -262143, -400, -100, -4, -1, 0, 1, 4, 100, 1900, 2000, 2023, 2024, 262142, 262143] {
        for m in 0..14u32 {
            for d in [0u32, 1, 28, 29, 30, 31, 32] {
                assert_eq!(
                    DrDate::from_ymd_opt(y, m, d).is_some(),
                    NaiveDate::from_ymd_opt(y, m, d).is_some(),
                    "{y}-{m}-{d}"
                );
            }
        }
    }
}

#[test]
fn json_get_and_as_str() {
    let j = Json::Object(vec![
        ("a".to_string(), Json::Str("x".to_string())),
        ("b".to_string(), Json::Bool(true)),
        ("a".to_string(), Json::Str("second".to_string())),
    ]);
    assert_eq!(j.get("a").unwrap().as_str(), Some("x"));
    assert!(j.get("b").unwrap().as_str().is_none());
    assert!(j.get("c").is_none());
    assert!(Json::Array(vec![]).get("a").is_none());
    assert!(Json::Null.as_str().is_none());
}
