//! Assembly of the `Application` record from the plain values the
//! platform glue extracts: the window title, the executable path, the
//! encoded icon, and an optional capture path. All decisions — when no
//! record is produced, and how the stable name is derived — stand here.

use vstd::prelude::*;

use crate::WindowHandle;
use crate::model::Application;
use crate::naming::{bundle_name, derived_name};

verus! {

/// The title the record carries: the extracted title, or a fixed label
/// when the window gave none but a path was found.
pub open spec fn resolved_title(title: Seq<char>, path: Seq<char>) -> Seq<char> {
    if title.len() == 0 && path.len() > 0 {
        "Unknown Window"@
    } else {
        title
    }
}

impl Application {
    /// Builds the record a desktop-windowing provider reports, from the
    /// values its platform glue extracted. `None` exactly when the
    /// handle is null or both the title and the path are empty; the
    /// stable name comes from the path's file stem, with the title
    /// heuristic as fallback, and is never empty.
    pub fn from_parts(
        handle: WindowHandle,
        title: String,
        path: String,
        icon: Option<String>,
        screen_shot_path: Option<String>,
    ) -> (r: Option<Application>)
        ensures
            match r {
                None => handle.is_null() || (title@.len() == 0 && path@.len() == 0),
                Some(app) => {
                    &&& !handle.is_null()
                    &&& (title@.len() > 0 || path@.len() > 0)
                    &&& app.title@ == resolved_title(title@, path@)
                    &&& app.path@ == path@
                    &&& app.name@ == derived_name(resolved_title(title@, path@), path@)
                    &&& app.name@.len() > 0
                    &&& app.icon == icon
                    &&& app.screen_shot_path == screen_shot_path
                    &&& app.wf()
                },
            },
    {
        if handle.is_null() {
            return None;
        }
        let has_title = title.as_str().unicode_len() > 0;
        let has_path = path.as_str().unicode_len() > 0;
        if !has_title && !has_path {
            return None;
        }
        let title = if has_title {
            title
        } else {
            String::from_str("Unknown Window")
        };
        let name = crate::naming::derive_name(title.as_str(), path.as_str());
        Some(Application { icon, name, title, path, screen_shot_path })
    }

    /// Builds the record a bundle-based provider reports: the localized
    /// display name doubles as the title, the stable name prefers the
    /// bundle identifier's last component, and the label falls back to
    /// a fixed string when the display name is empty, so the record
    /// always carries a usable name.
    pub fn from_bundle_parts(
        localized_name: String,
        bundle_id: String,
        path: String,
        icon: Option<String>,
    ) -> (r: Application)
        ensures
            r.title@ == bundle_app_label(localized_name@),
            r.path@ == path@,
            r.name@ == (if bundle_id@.len() > 0 {
                bundle_name(bundle_id@, bundle_app_label(localized_name@))
            } else {
                bundle_app_label(localized_name@)
            }),
            r.name@.len() > 0,
            r.icon == icon,
            r.screen_shot_path is None,
            r.wf(),
    {
        let app_name = if localized_name.as_str().unicode_len() > 0 {
            localized_name
        } else {
            proof {
                reveal_strlit("Unknown Application");
            }
            String::from_str("Unknown Application")
        };
        let name = if bundle_id.as_str().unicode_len() > 0 {
            Self::extract_app_name_from_bundle_id(bundle_id.as_str(), app_name.as_str())
        } else {
            app_name.clone()
        };
        proof {
            reveal_strlit("Unknown Application");
            crate::naming::lemma_bundle_name_nonempty(bundle_id@, app_name@);
        }
        Application { icon, name, title: app_name, path, screen_shot_path: None }
    }
}

/// The display label of a bundle-based application: its localized name,
/// or a fixed label when that is empty.
pub open spec fn bundle_app_label(localized_name: Seq<char>) -> Seq<char> {
    if localized_name.len() > 0 {
        localized_name
    } else {
        "Unknown Application"@
    }
}

} // verus!
