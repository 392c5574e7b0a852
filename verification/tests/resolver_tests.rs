use activity_agent::resolver::browser_target;
use activity_agent::resolver::clean_scripting_output;
use activity_agent::resolver::scripting_request;

#[test]
fn chrome_name_maps_to_google_chrome_target() {
    assert_eq!(
        browser_target("Google Chrome"),
        Some("Google Chrome".to_string())
    );
}

#[test]
fn chrome_substring_anywhere_matches() {
    assert_eq!(
        browser_target("Google Chrome Beta"),
        Some("Google Chrome".to_string())
    );
    assert_eq!(browser_target("Chromium"), None);
}

#[test]
fn arc_name_maps_to_arc_target() {
    assert_eq!(browser_target("Arc"), Some("Arc".to_string()));
}

#[test]
fn brave_name_maps_to_brave_browser_target() {
    assert_eq!(browser_target("Brave"), Some("Brave Browser".to_string()));
}

#[test]
fn safari_name_maps_to_safari_target() {
    assert_eq!(browser_target("Safari"), Some("Safari".to_string()));
}

#[test]
fn first_matching_entry_wins() {
    assert_eq!(
        browser_target("Arc Chrome"),
        Some("Google Chrome".to_string())
    );
    assert_eq!(browser_target("Arc Safari"), Some("Arc".to_string()));
}

#[test]
fn notepad_is_not_a_browser() {
    assert_eq!(browser_target("Notepad"), None);
}

#[test]
fn unknown_sentinel_is_not_a_browser() {
    assert_eq!(browser_target("Unknown"), None);
}

#[test]
fn scripting_answer_is_trimmed() {
    assert_eq!(
        clean_scripting_output(true, "https://example.com\n"),
        Some("https://example.com".to_string())
    );
}

#[test]
fn blank_scripting_answer_is_absent() {
    assert_eq!(clean_scripting_output(true, ""), None);
    assert_eq!(clean_scripting_output(true, "\n"), None);
    assert_eq!(clean_scripting_output(true, "   \t \r\n"), None);
}

#[test]
fn failed_scripting_query_is_absent() {
    assert_eq!(clean_scripting_output(false, "https://example.com"), None);
}

#[test]
fn scripting_request_names_the_target() {
    let script = scripting_request("Safari");
    let expected = "tell application \"Safari\"\n    if (count of windows) > 0 then\n        get URL of active tab of front window\n    else\n        return \"\"\n    end if\nend tell";
    assert_eq!(script, expected);
}
