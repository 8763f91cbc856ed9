use pingwin_fun::curve::{quote_buy, quote_sell};
use pingwin_fun::error::ErrorCode;
use pingwin_fun::math::mul_div_u64;

const ONE_BILLION_TOKENS: u64 = 1_000_000_000_000_000;

#[test]
fn quote_buy_exact_value() {
    assert_eq!(
        quote_buy(0, ONE_BILLION_TOKENS, 1_000_000),
        Ok((19_801_980_198_019, 1_000_000, 980_198_019_801_981))
    );
}

#[test]
fn quote_buy_smallest_input() {
    assert_eq!(
        quote_buy(0, ONE_BILLION_TOKENS, 1),
        Ok((19_999_999, 1, 999_999_980_000_001))
    );
}

#[test]
fn quote_buy_caps_at_actual_reserve() {
    // The curve would release more than the actual reserve; only the reserve leaves.
    assert_eq!(
        quote_buy(0, ONE_BILLION_TOKENS, 990_000_000),
        Ok((ONE_BILLION_TOKENS, 990_000_000, 0))
    );
}

#[test]
fn quote_buy_zero_input_is_too_small() {
    assert_eq!(quote_buy(0, ONE_BILLION_TOKENS, 0), Err(ErrorCode::TooSmall));
}

#[test]
fn quote_buy_empty_reserve_is_too_small() {
    assert_eq!(quote_buy(0, 0, 1_000_000), Err(ErrorCode::TooSmall));
}

#[test]
fn quote_buy_full_width_reserves() {
    // x0 * y0 is beyond 128 bits here; the quote is still exact.
    assert_eq!(
        quote_buy(u64::MAX - 1_000_000_000, u64::MAX - 1, 1_000_000_000),
        Ok((1_000_054_210, u64::MAX, 18_446_744_072_709_497_404))
    );
    assert_eq!(quote_buy(u64::MAX, u64::MAX - 1, 0), Err(ErrorCode::TooSmall));
    assert_eq!(quote_buy(u64::MAX, u64::MAX, 0), Err(ErrorCode::TooSmall));
}

#[test]
fn quote_buy_new_reserve_overflow() {
    assert_eq!(quote_buy(u64::MAX - 5, ONE_BILLION_TOKENS, 1_000_000), Err(ErrorCode::MathOverflow));
    assert_eq!(quote_buy(u64::MAX, u64::MAX, 1), Err(ErrorCode::MathOverflow));
}

#[test]
fn quote_buy_rounds_against_buyer() {
    // The curve gives 19_999_999.8 tokens for one lamport.
    assert_eq!(quote_buy(0, ONE_BILLION_TOKENS, 1).unwrap().0, 19_999_999);
}

#[test]
fn quote_sell_exact_value() {
    assert_eq!(
        quote_sell(1_000_000, 980_198_019_801_981, 19_801_980_198_019),
        Ok((999_999, 1, ONE_BILLION_TOKENS))
    );
}

#[test]
fn quote_sell_caps_at_reserve() {
    assert_eq!(
        quote_sell(1_000_000, 0, 1_000_000_000_000_000),
        Ok((1_000_000, 0, 1_000_000_000_000_000))
    );
}

#[test]
fn quote_sell_dust_is_too_small() {
    // The curve gives about 1.1e-6 lamports.
    assert_eq!(quote_sell(1_000_000_000, 0, 1), Err(ErrorCode::TooSmall));
    assert_eq!(
        quote_sell(1_000_000, 980_198_019_801_981, 1_000),
        Err(ErrorCode::TooSmall)
    );
}

#[test]
fn buy_then_sell_back_returns_no_more() {
    let (out, s1, t1) = quote_buy(1_000_000_000, ONE_BILLION_TOKENS, 1).unwrap();
    assert_eq!((out, s1, t1), (1_818_181, 1_000_000_001, 999_999_998_181_819));
    assert_eq!(quote_sell(s1, t1, out), Err(ErrorCode::TooSmall));
    let (out, s1, t1) = quote_buy(0, ONE_BILLION_TOKENS, 1_000_000).unwrap();
    let (back, s2, t2) = quote_sell(s1, t1, out).unwrap();
    assert!(back <= 1_000_000);
    assert_eq!(t2, ONE_BILLION_TOKENS);
    assert_eq!(s2, 1);
}

#[test]
fn quote_sell_no_lamports_is_too_small() {
    assert_eq!(quote_sell(0, ONE_BILLION_TOKENS, 1_000_000), Err(ErrorCode::TooSmall));
}

#[test]
fn quote_sell_token_overflow() {
    assert_eq!(quote_sell(1_000_000, u64::MAX - 5, 10_000_000_000_000), Err(ErrorCode::MathOverflow));
}

#[test]
fn quote_sell_full_width_reserves() {
    assert_eq!(
        quote_sell(u64::MAX, u64::MAX - 1_000_000_000_000, 1_000_000_000_000),
        Ok((999_945_792_835, 18_446_743_073_763_758_780, u64::MAX))
    );
    assert_eq!(quote_sell(u64::MAX, u64::MAX - 1, 1), Err(ErrorCode::TooSmall));
    assert_eq!(quote_sell(u64::MAX, u64::MAX, 0), Err(ErrorCode::TooSmall));
}

#[test]
fn quoting_twice_gives_the_same_result() {
    let a = quote_buy(123_456, ONE_BILLION_TOKENS - 77, 5_000_000);
    let b = quote_buy(123_456, ONE_BILLION_TOKENS - 77, 5_000_000);
    assert_eq!(a, b);
    let c = quote_sell(123_456_789, ONE_BILLION_TOKENS / 2, 9_999_999);
    let d = quote_sell(123_456_789, ONE_BILLION_TOKENS / 2, 9_999_999);
    assert_eq!(c, d);
}

#[test]
fn quote_never_gives_more_than_the_reserve() {
    for sol_in in [1u64, 1_000, 1_000_000, 1_000_000_000, 1_000_000_000_000] {
        if let Ok((out, _, _)) = quote_buy(500, 1_000_000, sol_in) {
            assert!(out <= 1_000_000);
        }
    }
    for tokens_in in [1u64, 1_000, 1_000_000_000, ONE_BILLION_TOKENS] {
        if let Ok((out, _, _)) = quote_sell(700, ONE_BILLION_TOKENS, tokens_in) {
            assert!(out <= 700);
        }
    }
}

#[test]
fn mul_div_rounds_down() {
    assert_eq!(mul_div_u64(1_000_000_000, 100, 10_000), Ok(10_000_000));
    assert_eq!(mul_div_u64(19_999, 1, 10_000), Ok(1));
    assert_eq!(mul_div_u64(9_999, 1, 10_000), Ok(0));
}

#[test]
fn mul_div_wide_intermediate() {
    assert_eq!(mul_div_u64(u64::MAX, u64::MAX, u64::MAX), Ok(u64::MAX));
}

#[test]
fn mul_div_zero_denominator() {
    assert_eq!(mul_div_u64(5, 5, 0), Err(ErrorCode::MathOverflow));
}

#[test]
fn mul_div_quotient_too_large() {
    assert_eq!(mul_div_u64(u64::MAX, 2, 1), Err(ErrorCode::MathOverflow));
}
