use flexion::physical_values::{Current, Frequency, Ratio, Voltage};

#[test]
fn add_then_sub_gives_back_the_value() {
    let a = Current::from_millis(-1234);
    let b = Current::from_val(7);
    assert_eq!(a + b - b, a);
}

#[test]
fn decimals_read_back() {
    assert_eq!(Voltage::from_decimal(1234, 1).as_decimal(1), 1234);
    assert_eq!(Voltage::from_decimal(-56, 0).as_decimal(0), -56);
    assert_eq!(Voltage::from_decimal(98765, 3).as_decimal(3), 98765);
    // more than three places are cut off
    assert_eq!(Voltage::from_decimal(12345, 4).as_decimal(4), 12340);
}

#[test]
fn percent_and_permill_read_back() {
    for p in [0u8, 1, 37, 99, 100] {
        assert_eq!(Ratio::from_percent(p).as_percent(), p);
    }
    for p in [0u16, 5, 375, 1000] {
        assert_eq!(Ratio::from_permill(p).as_permill(), p);
    }
    // clamped to 100%
    assert_eq!(Ratio::from_percent(150).as_percent(), 100);
}

#[test]
fn ranges_are_symmetric_about_the_value() {
    let r = Frequency::from_val(1000).as_range(Ratio::from_percent(1));
    assert_eq!(r.start, Frequency::from_val(990));
    assert_eq!(r.end, Frequency::from_val(1010));
    let r = Current::from_val(-10).as_range(Ratio::from_percent(100));
    assert_eq!(r.start, Current::from_val(0));
    assert_eq!(r.end, Current::from_val(-20));
    // the lower end never leaves the range of i32 thousandths
    let r = Current::from_millis(i32::MIN).as_range(Ratio::from_percent(0));
    assert_eq!(r.start, Current::from_millis(i32::MIN));
}

#[test]
fn compound_assignment_operators() {
    let mut i = Current::from_val(6);
    i *= 3usize;
    assert_eq!(i, Current::from_val(18));
    i /= 4usize;
    assert_eq!(i, Current::from_millis(4500));
    i *= Ratio::from_percent(50);
    assert_eq!(i, Current::from_millis(2250));
    i /= Ratio::from_percent(50);
    assert_eq!(i, Current::from_millis(4500));
    i -= Current::from_val(5);
    assert_eq!(i, Current::from_millis(-500));
}
