use flexion::physical_values::{Capacity, Current, Power, Time, Voltage};

#[test]
fn create_physical_values() {
    assert_eq!(Voltage::from_val(1).as_millis(), 1000);
    assert_eq!(Voltage::from_millis(1).as_millis(), 1);
    assert_eq!(Voltage::from_decimal(1, 1).as_millis(), 100);
    assert_eq!(Voltage::from_decimal(1, 2).as_millis(), 10);
    assert_eq!(Voltage::from_decimal(1, 3).as_millis(), 1);
    assert_eq!(Voltage::from_decimal(10, 4).as_millis(), 1);
}

#[test]
fn get_decimal() {
    assert_eq!(Voltage::from_val(1).as_decimal(0), 1);
    assert_eq!(Voltage::from_val(1).as_decimal(1), 10);
    assert_eq!(Voltage::from_val(1).as_decimal(2), 100);
    assert_eq!(Voltage::from_val(1).as_decimal(3), 1000);
    assert_eq!(Voltage::from_val(1).as_decimal(4), 10000);
}

#[test]
fn get_smaller_value() {
    let u = Voltage::from_val(3).min(Voltage::from_val(2));
    assert_eq!(u, Voltage::from_val(2));
}

#[test]
fn add_and_sub_physical_values() {
    let mut u = Voltage::from_val(230);
    u -= Voltage::from_val(30);
    assert_eq!(u, Voltage::from_val(200));

    let mut u = Voltage::from_val(230);
    u += Voltage::from_val(30);
    assert_eq!(u, Voltage::from_val(260));

    let u = Voltage::from_val(1) + Voltage::from_val(2);
    assert_eq!(u, Voltage::from_val(3));
}

#[test]
fn calc_power() {
    let p = Voltage::from_val(230) * Current::from_val(16);
    assert_eq!(p, Power::from_val(230 * 16));

    let u = p / Current::from_val(16);
    assert_eq!(u, Voltage::from_val(230));

    let i = p / Voltage::from_val(230);
    assert_eq!(i, Current::from_val(16));
}

#[test]
fn calc_current() {
    let c = Capacity::from_val(65);
    let t = Time::from_val(60 * 60);
    let i = c / t;
    assert_eq!(i, Current::from_val(65));
}
