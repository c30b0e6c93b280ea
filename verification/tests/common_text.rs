use multiseat::text::{contains, starts_with, strip_prefix, text_after_first, text_eq, OsText};

fn os(s: &str) -> OsText {
    OsText::from_bytes(s.as_bytes().to_vec())
}

#[test]
fn text_after_first_dash_keeps_rest() {
    assert_eq!(text_after_first("card0-HDMI-A-1", '-'), "HDMI-A-1");
    assert_eq!(text_after_first("card0", '-'), "card0");
    assert_eq!(text_after_first("-x", '-'), "x");
    assert_eq!(text_after_first("", '-'), "");
}

#[test]
fn contains_finds_runs() {
    assert!(contains("/sys/devices/pci/drm/card0/card0-DP-1", "/sys/devices/pci/drm/card0"));
    assert!(!contains("/sys/devices/pci/drm/card1", "/sys/devices/pci/drm/card0"));
    assert!(contains("abc", ""));
    assert!(!contains("", "a"));
    assert!(contains("nvidia corporation", "nvidia"));
}

#[test]
fn prefixes() {
    assert!(starts_with("seat12", "seat"));
    assert!(!starts_with("sea", "seat"));
    assert_eq!(strip_prefix("seat12", "seat"), Some("12".to_string()));
    assert_eq!(strip_prefix("seat", "seat"), Some(String::new()));
    assert_eq!(strip_prefix("xseat1", "seat"), None);
    assert!(text_eq("seat0", "seat0"));
    assert!(!text_eq("seat0", "seat00"));
}

#[test]
fn os_text_conversions() {
    let valid = os("/sys/devices/card0");
    assert_eq!(valid.to_str(), Some("/sys/devices/card0".to_string()));
    assert_eq!(valid.to_text(), "/sys/devices/card0");
    assert_eq!(valid.to_text_lossy(), "/sys/devices/card0");
    let invalid = OsText::from_bytes(vec![b'a', 0xff, b'b']);
    assert_eq!(invalid.to_str(), None);
    assert_eq!(invalid.to_text(), "");
    assert_eq!(invalid.to_text_lossy(), "a\u{FFFD}b");
    let copy = invalid.duplicate();
    assert_eq!(copy.bytes, vec![b'a', 0xff, b'b']);
}
