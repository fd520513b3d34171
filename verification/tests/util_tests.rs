//! The numeric helpers: token scaling, checked narrowing, day indices, and
//! the decimal formatter.

use maze_game_buyer::utils::{
    get_today_day, safe_u128_to_u16, to_yocto_u8, u128_to_decimal, u64_to_decimal, u8_to_decimal,
    DAY_MS,
};

#[test]
fn to_yocto_scales_by_token_precision() {
    assert_eq!(to_yocto_u8(0), 0);
    assert_eq!(to_yocto_u8(15), 15_000_000_000_000_000_000_000_000);
    assert_eq!(to_yocto_u8(255), 255_000_000_000_000_000_000_000_000);
}

#[test]
fn narrowing_keeps_small_values_and_reports_large_ones() {
    assert_eq!(safe_u128_to_u16(0), Ok(0));
    assert_eq!(safe_u128_to_u16(65_535), Ok(65_535));
    assert!(safe_u128_to_u16(65_536).is_err());
    assert!(safe_u128_to_u16(u128::MAX).is_err());
}

#[test]
fn day_index_of_a_timestamp() {
    assert_eq!(get_today_day(0), 0);
    assert_eq!(get_today_day(DAY_MS - 1), 0);
    assert_eq!(get_today_day(DAY_MS), 1);
    assert_eq!(get_today_day(3 * DAY_MS + 12345), 3);
}

#[test]
fn decimal_rendering_is_exact() {
    assert_eq!(u128_to_decimal(0), "0");
    assert_eq!(u128_to_decimal(7), "7");
    assert_eq!(u128_to_decimal(10), "10");
    assert_eq!(u128_to_decimal(65_535), "65535");
    assert_eq!(
        u128_to_decimal(340_282_366_920_938_463_463_374_607_431_768_211_455),
        "340282366920938463463374607431768211455"
    );
    assert_eq!(u64_to_decimal(18_446_744_073_709_551_615), "18446744073709551615");
    assert_eq!(u8_to_decimal(200), "200");
}
