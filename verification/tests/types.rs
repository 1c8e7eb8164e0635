use board_cli::{DeviceCode, Paste, PasteId};

#[test]
fn device_code_new_and_as_str() {
    let d = DeviceCode::new("CODE".to_string());
    assert_eq!(d.as_str(), "CODE");
    assert_eq!(d.to_string(), "CODE");
    assert_eq!(DeviceCode::from("X").as_str(), "X");
    assert_eq!(DeviceCode::from("Y".to_string()), DeviceCode::new("Y".to_string()));
}

#[test]
fn paste_id_new_and_as_str() {
    let p = PasteId::new("abc".to_string());
    assert_eq!(p.as_str(), "abc");
    assert_eq!(p.to_string(), "abc");
    assert_eq!(PasteId::from("abc"), p);
    assert_eq!(PasteId::from("abc".to_string()), p);
}

#[test]
fn paste_new_keeps_parts() {
    let p = Paste::new(PasteId::from("i"), "c".to_string(), "u".to_string());
    assert_eq!(p.id.as_str(), "i");
    assert_eq!(p.content, "c");
    assert_eq!(p.url, "u");
}
