use plugin_editor::channel::{Message, MessageChannel};
use plugin_editor::editor::{
    ScalePolicy, TestPluginEditor, WindowOpenOptions, PLUGIN_NAME, WINDOW_HEIGHT, WINDOW_WIDTH,
};
use plugin_editor::platform::{Platform, PlatformHandle};

fn refuse(_: WindowOpenOptions, _: MessageChannel<Message>) -> u32 {
    panic!("an open editor must not open another window")
}

#[test]
fn geometry_is_fixed() {
    let mut e: TestPluginEditor<u32> = TestPluginEditor::new(Platform::Xcb);
    assert_eq!(e.position(), (0, 0));
    assert_eq!(e.size(), (500, 500));
    assert!(e.open(1, |_: WindowOpenOptions, _: MessageChannel<Message>| 3u32));
    assert_eq!(e.position(), (0, 0));
    assert_eq!(e.size(), (WINDOW_WIDTH as i32, WINDOW_HEIGHT as i32));
}

#[test]
fn open_builds_options_and_fresh_channel() {
    let mut e: TestPluginEditor<u32> = TestPluginEditor::new(Platform::Windows);
    assert!(!e.is_open());
    let opened = e.open(0xdead, |o: WindowOpenOptions, mut c: MessageChannel<Message>| {
        assert_eq!(o.title, "BaseviewTest");
        assert_eq!(o.title, PLUGIN_NAME);
        assert_eq!((o.width, o.height), (500, 500));
        assert_eq!(o.scale, ScalePolicy::SystemScaleFactor);
        assert_eq!(o.parent, PlatformHandle::Windows { hwnd: 0xdead });
        assert_eq!(c.len(), 0);
        assert_eq!(c.pop(), None);
        42u32
    });
    assert!(opened);
    assert!(e.is_open());
}

#[test]
fn reopen_is_refused() {
    let mut e: TestPluginEditor<u32> = TestPluginEditor::new(Platform::MacOS);
    assert!(e.open(5, |_: WindowOpenOptions, _: MessageChannel<Message>| 1u32));
    assert!(!e.open(6, refuse));
    assert!(e.is_open());
}

#[test]
fn open_close_round_trip() {
    let mut e: TestPluginEditor<u32> = TestPluginEditor::new(Platform::Xcb);
    assert!(e.open(5, |_: WindowOpenOptions, _: MessageChannel<Message>| 1u32));
    e.close();
    assert!(!e.is_open());
    let mut launched = false;
    assert!(e.open(5, |_: WindowOpenOptions, c: MessageChannel<Message>| {
        launched = c.len() == 0;
        2u32
    }));
    assert!(launched);
    assert!(e.is_open());
}

#[test]
fn close_on_closed_editor_stays_closed() {
    let mut e: TestPluginEditor<u32> = TestPluginEditor::new(Platform::Xcb);
    e.close();
    assert!(!e.is_open());
}

#[test]
fn opened_window_receives_hello() {
    let mut e: TestPluginEditor<Vec<Message>> = TestPluginEditor::new(Platform::Xcb);
    assert!(e.open(9, |_: WindowOpenOptions, mut c: MessageChannel<Message>| {
        assert_eq!(c.push(Message::Hello), Ok(()));
        c.drain()
    }));
    assert!(e.is_open());
}
