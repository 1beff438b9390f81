use vstd::prelude::*;
use crate::editor::{TestPluginEditor, PLUGIN_NAME};
use crate::platform::Platform;

verus! {

/// The identifier that the plugin reports to the host.
pub const PLUGIN_UNIQUE_ID: i32 = 53435;

/// Directory under the user's home that holds the log file.
pub const LOG_DIR_NAME: &'static str = "tmp";

/// Name of the log file inside `LOG_DIR_NAME`.
pub const LOG_FILE_NAME: &'static str = "BaseviewTest.log";

/// Milliseconds that the background producer waits between two messages.
pub const PRODUCER_INTERVAL_MS: u64 = 5;

/// What the plugin tells the host about itself.
pub struct PluginInfo {
    pub name: String,
    pub unique_id: i32,
}

/// The plugin instance: it hands its editor to the host once.
pub struct TestPlugin<W> {
    editor: Option<TestPluginEditor<W>>,
}

impl<W> TestPlugin<W> {
    /// The editor that the plugin still holds, if any.
    pub closed spec fn editor_spec(self) -> Option<TestPluginEditor<W>> {
        self.editor
    }

    /// A plugin that holds a closed editor for `platform`.
    pub fn new(platform: Platform) -> (r: Self)
        ensures
            r.editor_spec() matches Some(e) && !e.is_open_spec() && e.platform_spec() == platform,
    {
        TestPlugin { editor: Some(TestPluginEditor::new(platform)) }
    }

    /// The plugin's name and identifier.
    pub fn get_info(&self) -> (r: PluginInfo)
        ensures
            r.name@ == PLUGIN_NAME@,
            r.unique_id == PLUGIN_UNIQUE_ID,
    {
        PluginInfo { name: PLUGIN_NAME.to_owned(), unique_id: PLUGIN_UNIQUE_ID }
    }

    /// Hands the editor over: the first call returns it, every later call
    /// returns `None`.
    pub fn get_editor(&mut self) -> (r: Option<TestPluginEditor<W>>)
        ensures
            r == old(self).editor_spec(),
            final(self).editor_spec() == None::<TestPluginEditor<W>>,
    {
        self.editor.take()
    }
}

} // verus!
