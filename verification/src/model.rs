//! The portable record that describes the foreground application at one
//! poll tick, and the interface a per-platform provider implements.

use vstd::prelude::*;

verus! {

/// A snapshot of the foreground application at one poll tick.
///
/// `name` is a stable identifier, `title` the volatile window title,
/// `path` the executable or bundle path (empty when unobtainable),
/// `icon` a base64-encoded image when one could be retrieved, and
/// `screen_shot_path` the file a fresh capture was written to, when
/// capture was enabled and succeeded.
#[derive(Clone, Debug)]
pub struct Application {
    pub icon: Option<String>,
    pub name: String,
    pub title: String,
    pub path: String,
    pub screen_shot_path: Option<String>,
}

impl Application {
    /// The record carries a usable label: `name` is never empty when a
    /// title or a path was seen.
    pub open spec fn wf(&self) -> bool {
        self.title@.len() > 0 || self.path@.len() > 0 ==> self.name@.len() > 0
    }
}

/// The per-platform step from a native window reference to a portable
/// record. Implementations live with the platform glue; they return
/// `None` for an invalid handle and when neither a title nor a path
/// could be extracted.
pub trait ApplicationProvider {
    fn from_process(handle: crate::WindowHandle) -> Option<Application>;
}

} // verus!
