use flexion::cooling::adc_to_temp;
use flexion::physical_values::Temperature;

#[test]
fn convert() {
    assert_eq!(adc_to_temp(u16::MIN), None);
    assert_eq!(adc_to_temp(u16::MAX), None);
    assert_eq!(adc_to_temp(u16::MAX / 2), Some(Temperature::from_val(25)));
}
