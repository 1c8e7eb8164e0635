use board_cli::{AppConfig, DeviceCode};
use std::path::PathBuf;

#[test]
fn default_config_has_no_codes() {
    let c = AppConfig::with_data_dir(PathBuf::from("/tmp/data"));
    assert_eq!(c.data_dir, PathBuf::from("/tmp/data"));
    assert_eq!(c.theme, "default");
    assert!(c.auto_save);
    assert!(!c.has_device_code());
    assert!(c.get_device_code().is_none());
    assert!(!c.has_app_password());
    assert_eq!(c.get_app_password(), None);
}

#[test]
fn device_code_round_trip() {
    let mut c = AppConfig::with_data_dir(PathBuf::from("."));
    c.set_device_code(DeviceCode::from("ABCD1234"));
    assert!(c.has_device_code());
    assert_eq!(c.get_device_code().unwrap().as_str(), "ABCD1234");
    assert_eq!(c.device_code.as_deref(), Some("ABCD1234"));
    c.clear_device_code();
    assert!(!c.has_device_code());
    assert!(c.get_device_code().is_none());
}

#[test]
fn app_password_is_read() {
    let mut c = AppConfig::with_data_dir(PathBuf::from("."));
    c.app_password = Some("secret".to_string());
    assert!(c.has_app_password());
    assert_eq!(c.get_app_password(), Some("secret"));
}
