use topgg::models;
use topgg::{get_avatar, get_creation_date, Snowflake};
use topgg::text::{parse_u64, u64_to_string};

#[test]
fn decimal_rendering_is_exact() {
    assert_eq!(u64_to_string(0).as_str(), "0");
    assert_eq!(u64_to_string(7).as_str(), "7");
    assert_eq!(u64_to_string(900).as_str(), "900");
    assert_eq!(u64_to_string(1_420_070_400_000).as_str(), "1420070400000");
    assert_eq!(u64_to_string(u64::MAX).as_str(), "18446744073709551615");
}

#[test]
fn decimal_parsing_is_exact() {
    assert_eq!(parse_u64("0"), Some(0));
    assert_eq!(parse_u64("00264811613708746752"), Some(264811613708746752));
    assert_eq!(parse_u64("18446744073709551615"), Some(u64::MAX));
}

#[test]
fn decimal_parsing_rejects_bad_input() {
    assert_eq!(parse_u64(""), None);
    assert_eq!(parse_u64("12a3"), None);
    assert_eq!(parse_u64("-5"), None);
    assert_eq!(parse_u64("+5"), None);
    assert_eq!(parse_u64(" 5"), None);
    // One past u64::MAX.
    assert_eq!(parse_u64("18446744073709551616"), None);
}

#[test]
fn decimal_round_trip() {
    for n in [0u64, 1, 9, 10, 99, 12345, u64::MAX] {
        assert_eq!(parse_u64(u64_to_string(n).as_str()), Some(n));
    }
}

#[test]
fn snowflake_fields_are_decoded() {
    // 264811613708746752 = (63135946831 << 22) | (1 << 17) | (2 << 12) | 384
    let id: u64 = (63135946831u64 << 22) | (1 << 17) | (2 << 12) | 384;
    let s = models::Snowflake(id);
    assert_eq!(s.id(), id);
    assert_eq!(s.timestamp(), 63135946831i64 + 1_420_070_400_000);
    assert_eq!(s.worker_id(), 1);
    assert_eq!(s.process_id(), 2);
    assert_eq!(s.increment(), 384);
}

#[test]
fn creation_date_comes_from_the_timestamp_bits() {
    let id: u64 = 1 << 22;
    assert_eq!(get_creation_date(id), 1_420_070_400_001);
}

#[test]
fn avatar_url_for_a_plain_hash() {
    let url = get_avatar(&Some("abc123".to_string()), 5);
    assert_eq!(url, "https://cdn.discordapp.com/avatars/5/abc123.png?size=1024");
}

#[test]
fn avatar_url_for_an_animated_hash() {
    let url = get_avatar(&Some("a_xyz".to_string()), 5);
    assert_eq!(url, "https://cdn.discordapp.com/avatars/5/a_xyz.gif?size=1024");
}

#[test]
fn avatar_url_default_is_picked_from_the_id() {
    // (7 << 22) >> 22 = 7, and 7 % 5 = 2.
    let url = get_avatar(&None, 7u64 << 22);
    assert_eq!(url, "https://cdn.discordapp.com/embed/avatars/2.png");
}

#[test]
fn snowflake_trait_reads_ids() {
    assert_eq!(1234u64.as_snowflake(), 1234);
    assert_eq!("264811613708746752".as_snowflake(), 264811613708746752);
    assert_eq!("42".to_string().as_snowflake(), 42);
}
