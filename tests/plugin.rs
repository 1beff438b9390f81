use plugin_editor::editor::PLUGIN_NAME;
use plugin_editor::platform::Platform;
use plugin_editor::plugin::{TestPlugin, LOG_FILE_NAME, PLUGIN_UNIQUE_ID};

#[test]
fn info_names_the_plugin() {
    let p: TestPlugin<u32> = TestPlugin::new(Platform::Xcb);
    let info = p.get_info();
    assert_eq!(info.name, "BaseviewTest");
    assert_eq!(info.unique_id, 53435);
    assert_eq!(PLUGIN_UNIQUE_ID, 53435);
    assert_eq!(LOG_FILE_NAME, format!("{}.log", PLUGIN_NAME));
}

#[test]
fn editor_is_handed_out_once() {
    let mut p: TestPlugin<u32> = TestPlugin::new(Platform::Windows);
    let e = p.get_editor();
    assert!(e.is_some());
    assert!(!e.unwrap().is_open());
    assert!(p.get_editor().is_none());
}
