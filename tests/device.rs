use rm_pad::device::{rm2, rmpp, DetectError, DeviceProfile};

#[test]
fn current_is_the_remarkable_two() {
    let d = DeviceProfile::current();
    assert_eq!(d.name, "reMarkable 2");
    assert_eq!(d.input_event_size, 16);
    assert_eq!((d.touch_x_max, d.touch_y_max), (1403, 1871));
    assert_eq!(rmpp().input_event_size, 24);
    assert!(d.is_valid() && rmpp().is_valid());
    let mut bad = rm2();
    bad.touch_x_max = -1;
    assert!(!bad.is_valid());
}

#[test]
fn model_detection() {
    assert_eq!(DeviceProfile::from_model(0, "reMarkable Ferrari\n").unwrap().name, rmpp().name);
    assert_eq!(DeviceProfile::from_model(0, "  reMarkable 2.0\0").unwrap().name, rm2().name);
    assert_eq!(DeviceProfile::from_model(0, "reMarkable 2.0\n").unwrap().name, rm2().name);
    assert_eq!(DeviceProfile::from_model(0, " \n").unwrap_err(), DetectError::EmptyModel);
    assert_eq!(DeviceProfile::from_model(1, "reMarkable 2.0").unwrap_err(), DetectError::Status(1));
    assert_eq!(
        DeviceProfile::from_model(0, "Kindle\n").unwrap_err(),
        DetectError::Unsupported("Kindle".to_string())
    );
}
