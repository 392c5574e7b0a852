//! Per-application browser URL resolution.
//!
//! A fixed, ordered substring mapping decides whether the foreground
//! application is a recognized browser and, if so, which scripting target the
//! OS automation layer should be asked about. An application name matching no
//! entry yields no resolution attempt at all — a deliberate "not a browser"
//! outcome, not an error. The surrounding application runs the scripting
//! query itself and hands the raw answer to [`clean_scripting_output`], which
//! keeps only a non-empty, whitespace-trimmed URL.

use vstd::prelude::*;
use vstd::string::*;

use crate::text::contains_seq;
use crate::text::contains_sub;
use crate::text::trim_spec;
use crate::text::trim_to_string;

verus! {

/// The ordered BrowserResolver mapping: the first substring of the
/// application name that matches decides the scripting target.
pub open spec fn browser_target_spec(app: Seq<char>) -> Option<Seq<char>> {
    if contains_seq(app, "Chrome"@) {
        Some("Google Chrome"@)
    } else if contains_seq(app, "Arc"@) {
        Some("Arc"@)
    } else if contains_seq(app, "Brave"@) {
        Some("Brave Browser"@)
    } else if contains_seq(app, "Safari"@) {
        Some("Safari"@)
    } else {
        None
    }
}

/// Looks `app_name` up in the ordered mapping. `None` means the application
/// is not a recognized browser and no scripting query is to be issued.
pub fn browser_target(app_name: &str) -> (r: Option<String>)
    ensures
        r.deep_view() == browser_target_spec(app_name@),
{
    if contains_sub(app_name, "Chrome") {
        Some("Google Chrome".to_owned())
    } else if contains_sub(app_name, "Arc") {
        Some("Arc".to_owned())
    } else if contains_sub(app_name, "Brave") {
        Some("Brave Browser".to_owned())
    } else if contains_sub(app_name, "Safari") {
        Some("Safari".to_owned())
    } else {
        None
    }
}

/// An application name matching no entry of the mapping resolves to nothing,
/// so no scripting query is ever attempted for it.
pub proof fn lemma_unmatched_app_resolves_absent(app: Seq<char>)
    requires
        !contains_seq(app, "Chrome"@),
        !contains_seq(app, "Arc"@),
        !contains_seq(app, "Brave"@),
        !contains_seq(app, "Safari"@),
    ensures
        browser_target_spec(app) is None,
{
}

/// The script text asking the scripting target for the URL of the active tab
/// of its front window (empty answer when the target has no windows).
pub open spec fn scripting_request_spec(target: Seq<char>) -> Seq<char> {
    "tell application \""@ + target
        + "\"\n    if (count of windows) > 0 then\n        get URL of active tab of front window\n    else\n        return \"\"\n    end if\nend tell"@
}

/// Builds the scripting request for a resolved target.
pub fn scripting_request(target: &str) -> (r: String)
    ensures
        r@ == scripting_request_spec(target@),
{
    let mut r = String::from_str("tell application \"");
    r.append(target);
    r.append(
        "\"\n    if (count of windows) > 0 then\n        get URL of active tab of front window\n    else\n        return \"\"\n    end if\nend tell",
    );
    r
}

/// What one scripting answer resolves to: the trimmed answer when the query
/// succeeded and something non-blank remains, absent otherwise.
pub open spec fn cleaned_url_spec(succeeded: bool, raw: Seq<char>) -> Option<Seq<char>> {
    if succeeded && trim_spec(raw).len() > 0 {
        Some(trim_spec(raw))
    } else {
        None
    }
}

/// Reduces the scripting layer's raw answer to the two-outcome result: a
/// present URL only when the query succeeded and its answer is non-empty
/// after trimming whitespace.
pub fn clean_scripting_output(succeeded: bool, raw: &str) -> (r: Option<String>)
    ensures
        r.deep_view() == cleaned_url_spec(succeeded, raw@),
{
    if !succeeded {
        return None;
    }
    let t = trim_to_string(raw);
    if t.as_str().is_empty() {
        None
    } else {
        Some(t)
    }
}

/// A scripting answer that is blank after trimming never yields a URL,
/// whether or not the query itself succeeded.
pub proof fn lemma_blank_answer_resolves_absent(succeeded: bool, raw: Seq<char>)
    requires
        trim_spec(raw).len() == 0,
    ensures
        cleaned_url_spec(succeeded, raw) is None,
{
}

} // verus!
