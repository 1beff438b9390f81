use vstd::prelude::*;
use crate::channel::MessageChannel;
use crate::platform::{handle_for, raw_window_handle_from_parent, Platform, PlatformHandle};

verus! {

/// Name of the plugin, also the title of its window.
pub const PLUGIN_NAME: &'static str = "BaseviewTest";

/// Width of the editor window, in logical pixels.
pub const WINDOW_WIDTH: usize = 500;

/// Height of the editor window, in logical pixels.
pub const WINDOW_HEIGHT: usize = 500;

/// How the window scales its logical size to physical pixels.
#[derive(Clone, Copy, Debug, PartialEq, Eq, Structural)]
pub enum ScalePolicy {
    /// Use the factor that the system reports.
    SystemScaleFactor,
    /// Use a fixed factor, in percent.
    ScaleFactorPercent(u32),
}

/// What the windowing layer is given to open the editor window. The window
/// is always attached to `parent`, never a top-level window of its own.
pub struct WindowOpenOptions {
    pub title: String,
    pub width: usize,
    pub height: usize,
    pub scale: ScalePolicy,
    pub parent: PlatformHandle,
}

/// The options that `open` builds for `parent` on `platform`.
pub open spec fn options_for(o: WindowOpenOptions, platform: Platform, parent: usize) -> bool {
    &&& o.title@ == PLUGIN_NAME@
    &&& o.width == WINDOW_WIDTH
    &&& o.height == WINDOW_HEIGHT
    &&& o.scale == ScalePolicy::SystemScaleFactor
    &&& o.parent == handle_for(platform, parent)
}

/// Whether the editor has a live window, and which.
pub enum EditorState<W> {
    Closed,
    Open(W),
}

/// The editor that the host drives: it owns at most one live window,
/// represented by a `W` that the windowing layer hands back.
pub struct TestPluginEditor<W> {
    state: EditorState<W>,
    platform: Platform,
}

impl<W> TestPluginEditor<W> {
    pub closed spec fn is_open_spec(self) -> bool {
        self.state is Open
    }

    /// The live window; meaningful while the editor is open.
    pub closed spec fn window_spec(self) -> W {
        match self.state {
            EditorState::Open(w) => w,
            EditorState::Closed => arbitrary(),
        }
    }

    /// The platform whose handles the editor builds.
    pub closed spec fn platform_spec(self) -> Platform {
        self.platform
    }

    /// A closed editor for windows of `platform`.
    pub fn new(platform: Platform) -> (r: Self)
        ensures
            !r.is_open_spec(),
            r.platform_spec() == platform,
    {
        TestPluginEditor { state: EditorState::Closed, platform }
    }

    /// The window sits at its parent's origin.
    pub fn position(&self) -> (r: (i32, i32))
        ensures
            r == (0i32, 0i32),
    {
        (0, 0)
    }

    /// The fixed window size, open or not.
    pub fn size(&self) -> (r: (i32, i32))
        ensures
            r == (WINDOW_WIDTH as i32, WINDOW_HEIGHT as i32),
    {
        (WINDOW_WIDTH as i32, WINDOW_HEIGHT as i32)
    }

    pub fn is_open(&self) -> (r: bool)
        ensures
            r == self.is_open_spec(),
    {
        match self.state {
            EditorState::Open(_) => true,
            EditorState::Closed => false,
        }
    }

    /// Opens the editor window inside the host window at address `parent`.
    ///
    /// An open editor refuses with `false` and is left untouched. A closed
    /// one builds the window options for `parent`, makes a fresh empty
    /// channel, and hands both to `launch`, which opens the window with a
    /// handler that drains the channel, starts the producer of messages, and
    /// returns the live window; the editor keeps that window and answers
    /// `true`.
    pub fn open<M: Copy, F: FnOnce(WindowOpenOptions, MessageChannel<M>) -> W>(
        &mut self,
        parent: usize,
        launch: F,
    ) -> (r: bool)
        requires
            forall|o: WindowOpenOptions, c: MessageChannel<M>|
                options_for(o, old(self).platform_spec(), parent) && c.wf() && c@ == Seq::<
                    M,
                >::empty() ==> #[trigger] call_requires(launch, (o, c)),
        ensures
            opened_from(*old(self), *final(self), r),
            r ==> exists|o: WindowOpenOptions, c: MessageChannel<M>|
                options_for(o, old(self).platform_spec(), parent) && c.wf() && c@ == Seq::<
                    M,
                >::empty() && #[trigger] call_ensures(launch, (o, c), final(self).window_spec()),
    {
        if self.is_open() {
            return false;
        }
        let options = WindowOpenOptions {
            title: PLUGIN_NAME.to_owned(),
            width: WINDOW_WIDTH,
            height: WINDOW_HEIGHT,
            scale: ScalePolicy::SystemScaleFactor,
            parent: raw_window_handle_from_parent(self.platform, parent),
        };
        let channel: MessageChannel<M> = MessageChannel::new();
        let ghost o = options;
        let ghost c = channel;
        let window = launch(options, channel);
        self.state = EditorState::Open(window);
        assert(call_ensures(launch, (o, c), self.window_spec()));
        true
    }

    /// Releases the window, if there is one. The editor can be opened again.
    pub fn close(&mut self)
        ensures
            closed_from(*old(self), *final(self)),
    {
        self.state = EditorState::Closed;
    }
}

/// What `open` does to the state of an editor: `post` and `r` are the
/// editor and result after `pre.open(..)`. An open editor refuses and stays
/// exactly as it was; a closed one opens.
pub open spec fn opened_from<W>(pre: TestPluginEditor<W>, post: TestPluginEditor<W>, r: bool) -> bool {
    &&& r == !pre.is_open_spec()
    &&& !r ==> post == pre
    &&& r ==> post.is_open_spec() && post.platform_spec() == pre.platform_spec()
}

/// What `close` does to the state of an editor.
pub open spec fn closed_from<W>(pre: TestPluginEditor<W>, post: TestPluginEditor<W>) -> bool {
    &&& !post.is_open_spec()
    &&& post.platform_spec() == pre.platform_spec()
}

/// Opening a closed editor succeeds; closing it again leaves it closed, and
/// a later `open` succeeds once more.
pub proof fn lemma_open_close_round_trip<W>(
    e0: TestPluginEditor<W>,
    r1: bool,
    e1: TestPluginEditor<W>,
    e2: TestPluginEditor<W>,
    r3: bool,
    e3: TestPluginEditor<W>,
)
    requires
        !e0.is_open_spec(),
        opened_from(e0, e1, r1),
        closed_from(e1, e2),
        opened_from(e2, e3, r3),
    ensures
        r1,
        e1.is_open_spec(),
        !e2.is_open_spec(),
        r3,
        e3.is_open_spec(),
        e3.platform_spec() == e0.platform_spec(),
{
}

/// A second `open` on an open editor answers `false` and changes nothing,
/// the live window included.
pub proof fn lemma_reopen_refused<W>(pre: TestPluginEditor<W>, r: bool, post: TestPluginEditor<W>)
    requires
        pre.is_open_spec(),
        opened_from(pre, post, r),
    ensures
        !r,
        post == pre,
        post.window_spec() == pre.window_spec(),
{
}

} // verus!
