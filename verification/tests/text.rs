use flexion::physical_values::{Current, Power, Ratio, Temperature, Voltage};

#[test]
fn physical_values_as_text() {
    assert_eq!(Voltage::from_val(230).to_string(), "+230.000V");
    assert_eq!(Current::from_millis(-250).to_string(), "-0.250A");
    assert_eq!(Current::from_millis(-1500).to_string(), "-1.500A");
    assert_eq!(Power::from_millis(0).to_string(), "+0.000W");
    assert_eq!(Temperature::from_millis(42_007).to_string(), "+42.007°C");
    assert_eq!(Voltage::from_millis(i32::MIN).to_string(), "-2147483.648V");
}

#[test]
fn ratios_as_text() {
    assert_eq!(Ratio::from_percent(42).to_string(), "42.00%");
    assert_eq!(Ratio::from_permill(5).to_string(), "0.50%");
    assert_eq!(Ratio::from_percent(100).to_string(), "100.00%");
}
