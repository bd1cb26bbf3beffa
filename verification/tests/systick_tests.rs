use lm4f120_hal::regmap::SYSTICK_MAX;
use lm4f120_hal::systick::{ticks_to_usecs, SysTick};

#[test]
fn get_since_without_wrap() {
    let mut st = SysTick::new();
    // bring the down-counter to 90
    st.elapse(SYSTICK_MAX - 90);
    assert_eq!(st.get_ticks(), 90);
    // a reading captured at 100 is 10 ticks old
    assert_eq!(st.get_since(100), 10);
}

#[test]
fn get_since_across_one_wrap() {
    let mut st = SysTick::new();
    // bring the down-counter to 10, then let 16 more ticks pass: it
    // wraps and lands on MAX - 5
    st.elapse(SYSTICK_MAX - 10);
    st.elapse(16);
    assert_eq!(st.get_ticks(), SYSTICK_MAX - 5);
    // elapsed = 10 - (MAX - 5) + (MAX + 1) = 16
    assert_eq!(st.get_since(10), 16);
}

#[test]
fn get_since_of_the_same_instant_is_zero() {
    let st = SysTick::new();
    assert_eq!(st.get_since(SYSTICK_MAX), 0);
}

#[test]
fn ticks_to_usecs_is_linear_at_the_clock_rate() {
    assert_eq!(ticks_to_usecs(0), 0);
    assert_eq!(ticks_to_usecs(65), 0);
    assert_eq!(ticks_to_usecs(66), 1);
    assert_eq!(ticks_to_usecs(66_000_000), 1_000_000);
    // the full counter range: 16_777_215 / 66, rounded down
    assert_eq!(ticks_to_usecs(SYSTICK_MAX), 254_200);
}

#[test]
fn run_time_accumulates_across_wraps() {
    let mut st = SysTick::new();
    assert_eq!(st.run_time_us(), 0);
    st.elapse(66);
    assert_eq!(st.run_time_us(), 1);
    // run down to the reload point and 66 ticks beyond it
    st.elapse(SYSTICK_MAX - 66);
    st.elapse(66);
    assert_eq!(st.wraps, 1);
    // total ticks = MAX + 66 = 16_777_281; / 66 = 254_201
    assert_eq!(st.run_time_us(), 254_201);
}
