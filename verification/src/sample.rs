//! Activity samples and their assembly.
//!
//! One sample is one observation of the foreground application, its window
//! title, and — for recognized browsers — the active tab's URL. Samples are
//! immutable once built, consumed exactly once by the reporter, and never
//! persisted. When the OS query for the foreground window fails, the
//! pipeline substitutes a sentinel observation instead of aborting.

use vstd::prelude::*;
use vstd::string::*;

verus! {

/// One observation of host activity, assembled once per sampling tick.
pub struct ActivitySample {
    /// Name of the foreground application; `"Unknown"` when the query failed.
    pub app_name: String,
    /// Title of the foreground window; may be empty.
    pub window_title: String,
    /// The active tab's URL, present only for recognized browsers whose
    /// scripting answer was non-empty after trimming.
    pub url: Option<String>,
}

/// Substitutes the sentinel observation when the OS query failed, so the
/// sampling pipeline keeps progressing instead of aborting the tick.
pub fn foreground_or_sentinel(observed: Option<(String, String)>) -> (r: (String, String))
    ensures
        observed matches Some(f) ==> r.0@ == f.0@ && r.1@ == f.1@,
        observed is None ==> r.0@ == "Unknown"@ && r.1@ == ""@,
{
    match observed {
        Some(f) => f,
        None => {
            let r = (String::from_str("Unknown"), String::new());
            proof {
                reveal_strlit("");
                assert(""@ =~= Seq::<char>::empty());
            }
            r
        },
    }
}

/// The Sample Builder: pure assembly of one observation. No side effects and
/// no failure mode — the sample carries exactly what was handed in.
pub fn build_sample(foreground: (String, String), url: Option<String>) -> (s: ActivitySample)
    ensures
        s.app_name@ == foreground.0@,
        s.window_title@ == foreground.1@,
        s.url.deep_view() == url.deep_view(),
{
    ActivitySample { app_name: foreground.0, window_title: foreground.1, url }
}

} // verus!
