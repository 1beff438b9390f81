use vstd::prelude::*;

verus! {

/// The windowing platform that a build targets.
#[derive(Clone, Copy, Debug, PartialEq, Eq, Structural)]
pub enum Platform {
    MacOS,
    Windows,
    Xcb,
}

/// A non-owning reference to a host window, tagged by platform.
///
/// Pointers are carried as their address; the caller turns them back into
/// the native handle type of the windowing layer.
#[derive(Clone, Copy, Debug, PartialEq, Eq, Structural)]
pub enum PlatformHandle {
    MacOS { ns_view: usize },
    Windows { hwnd: usize },
    Xcb { window: u32 },
}

impl PlatformHandle {
    /// The platform whose variant is populated.
    pub open spec fn platform_spec(self) -> Platform {
        match self {
            PlatformHandle::MacOS { .. } => Platform::MacOS,
            PlatformHandle::Windows { .. } => Platform::Windows,
            PlatformHandle::Xcb { .. } => Platform::Xcb,
        }
    }

    pub fn platform(&self) -> (r: Platform)
        ensures
            r == self.platform_spec(),
    {
        match self {
            PlatformHandle::MacOS { .. } => Platform::MacOS,
            PlatformHandle::Windows { .. } => Platform::Windows,
            PlatformHandle::Xcb { .. } => Platform::Xcb,
        }
    }
}

/// The handle that the adapter builds for `parent` on `platform`: the
/// address as a view on macOS, as a window handle on Windows, and its low
/// 32 bits as an X window id elsewhere.
pub open spec fn handle_for(platform: Platform, parent: usize) -> PlatformHandle {
    match platform {
        Platform::MacOS => PlatformHandle::MacOS { ns_view: parent },
        Platform::Windows => PlatformHandle::Windows { hwnd: parent },
        Platform::Xcb => PlatformHandle::Xcb { window: (parent as int % 0x1_0000_0000) as u32 },
    }
}

/// Wraps the host's parent window address as the handle of `platform`.
/// The address is not checked: it is only referenced, never owned.
pub fn raw_window_handle_from_parent(platform: Platform, parent: usize) -> (r: PlatformHandle)
    ensures
        r == handle_for(platform, parent),
{
    match platform {
        Platform::MacOS => PlatformHandle::MacOS { ns_view: parent },
        Platform::Windows => PlatformHandle::Windows { hwnd: parent },
        Platform::Xcb => PlatformHandle::Xcb { window: ((parent as u64) % 0x1_0000_0000) as u32 },
    }
}

/// For every platform and parent address, the adapter populates exactly the
/// variant of that platform: the tag of its handle is the platform asked for.
pub proof fn lemma_handle_matches_platform(platform: Platform, parent: usize)
    ensures
        handle_for(platform, parent).platform_spec() == platform,
{
}

} // verus!
