use glance::macos_permissions::{has_screen_recording_permission, request_screen_recording_permission};
use glance::models::{default_hotkey, new_yduuid, yduuid_from};

#[test]
fn default_hotkey_is_ctrl_shift_x() {
    assert_eq!(default_hotkey(), "CommandOrControl+Shift+X");
}

#[test]
fn device_identifier_from_uuid() {
    assert_eq!(yduuid_from("67e55044-10b1-426f-9247-bb680e5fe0c8"), "67e5504410b1426f9");
    let id = new_yduuid();
    assert_eq!(id.len(), 17);
    assert!(id.chars().all(|c| c.is_ascii_hexdigit() && !c.is_ascii_uppercase()));
    assert_eq!(id.as_bytes()[12], b'4');
    assert!(matches!(id.as_bytes()[16], b'8' | b'9' | b'a' | b'b'));
}

#[test]
fn permissions_without_a_permission_system() {
    assert!(has_screen_recording_permission());
    assert!(!request_screen_recording_permission());
}
