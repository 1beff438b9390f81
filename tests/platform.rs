use plugin_editor::platform::{raw_window_handle_from_parent, Platform, PlatformHandle};

#[test]
fn macos_wraps_view() {
    let h = raw_window_handle_from_parent(Platform::MacOS, 0x1234);
    assert_eq!(h, PlatformHandle::MacOS { ns_view: 0x1234 });
    assert_eq!(h.platform(), Platform::MacOS);
}

#[test]
fn windows_wraps_hwnd() {
    let h = raw_window_handle_from_parent(Platform::Windows, 77);
    assert_eq!(h, PlatformHandle::Windows { hwnd: 77 });
    assert_eq!(h.platform(), Platform::Windows);
}

#[test]
fn xcb_keeps_low_32_bits() {
    let h = raw_window_handle_from_parent(Platform::Xcb, 0x42);
    assert_eq!(h, PlatformHandle::Xcb { window: 0x42 });
    assert_eq!(h.platform(), Platform::Xcb);
    let wide: usize = (u32::MAX as usize).wrapping_add(6);
    let h = raw_window_handle_from_parent(Platform::Xcb, wide);
    assert_eq!(h, PlatformHandle::Xcb { window: (wide as u64 & 0xffff_ffff) as u32 });
}
