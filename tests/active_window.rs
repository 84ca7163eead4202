use active_window::active_window::{
    attach_browser_url, browser_url, browser_url_query, hyprctl_snapshot, hyprctl_window, kde_window,
    kde_window_id, macos_window, parse_hyprctl_json, process_snapshot, split_macos_fields, windows_window,
    x11_window, ActiveWindowInfo, BrowserFamily, CommandOutput, CHROMIUM_URL_SCRIPT,
    SAFARI_URL_SCRIPT,
};
use active_window::text::{contains_pattern, find_pattern, output_text_of};

fn ran(success: bool, stdout: &str) -> Option<CommandOutput> {
    Some(CommandOutput { success, stdout: stdout.as_bytes().to_vec() })
}

fn utf16(s: &str) -> Vec<u16> {
    s.encode_utf16().collect()
}

#[test]
fn macos_three_fields_give_snapshot() {
    let info = split_macos_fields("Safari|||com.apple.Safari|||My Page").unwrap();
    assert_eq!(info.app_name, "Safari");
    assert_eq!(info.bundle_id.as_deref(), Some("com.apple.Safari"));
    assert_eq!(info.window_title, "My Page");
    assert_eq!(info.process_name, None);
    assert_eq!(info.url, None);
}

#[test]
fn macos_two_fields_give_absence() {
    assert!(split_macos_fields("Safari|||com.apple.Safari").is_none());
    assert!(macos_window(&ran(true, "Safari|||com.apple.Safari\n")).is_none());
}

#[test]
fn macos_extra_fields_are_ignored() {
    let info = split_macos_fields("Term|||com.x|||a|||b").unwrap();
    assert_eq!(info.window_title, "a");
}

#[test]
fn macos_empty_title_is_kept() {
    let info = split_macos_fields("Finder|||com.apple.finder|||").unwrap();
    assert_eq!(info.window_title, "");
    assert_eq!(info.app_name, "Finder");
}

#[test]
fn macos_query_output_is_trimmed() {
    let info = macos_window(&ran(true, "  Safari|||com.apple.Safari|||My Page\n")).unwrap();
    assert_eq!(info.app_name, "Safari");
    assert_eq!(info.window_title, "My Page");
}

#[test]
fn macos_failed_or_missing_query_gives_absence() {
    assert!(macos_window(&ran(false, "Safari|||com.apple.Safari|||My Page")).is_none());
    assert!(macos_window(&None).is_none());
}

#[test]
fn safari_snapshot_gets_url() {
    let info = macos_window(&ran(true, "Safari|||com.apple.Safari|||My Page\n")).unwrap();
    assert_eq!(browser_url_query("com.apple.Safari"), Some(BrowserFamily::Safari));
    let info = attach_browser_url(info, &ran(true, "https://example.com\n"));
    assert_eq!(info.url.as_deref(), Some("https://example.com"));
    assert_eq!(info.app_name, "Safari");
    assert_eq!(info.window_title, "My Page");
}

#[test]
fn empty_or_failed_url_query_gives_no_url() {
    let info = split_macos_fields("Safari|||com.apple.Safari|||My Page").unwrap();
    assert!(attach_browser_url(info.clone(), &ran(true, " \n")).url.is_none());
    assert!(attach_browser_url(info.clone(), &ran(false, "https://a.b")).url.is_none());
    assert!(attach_browser_url(info, &None).url.is_none());
    assert!(browser_url(&ran(true, "")).is_none());
}

#[test]
fn browser_families() {
    assert_eq!(browser_url_query("com.google.Chrome"), Some(BrowserFamily::Chromium));
    assert_eq!(browser_url_query("com.google.Chrome.canary"), Some(BrowserFamily::Chromium));
    assert_eq!(browser_url_query("com.brave.Browser"), Some(BrowserFamily::Chromium));
    assert_eq!(browser_url_query("com.microsoft.edgemac"), Some(BrowserFamily::Chromium));
    assert_eq!(browser_url_query("com.apple.Safari"), Some(BrowserFamily::Safari));
    assert_eq!(browser_url_query("org.mozilla.firefox"), None);
    assert_eq!(browser_url_query("com.operasoftware.Opera"), None);
    assert_eq!(browser_url_query("company.thebrowser.Browser"), None);
    assert_eq!(browser_url_query("com.apple.TextEdit"), None);
    assert_eq!(browser_url_query(""), None);
    assert_eq!(BrowserFamily::Safari.url_script(), SAFARI_URL_SCRIPT);
    assert_eq!(BrowserFamily::Chromium.url_script(), CHROMIUM_URL_SCRIPT);
}

#[test]
fn firefox_never_gets_url() {
    let info = split_macos_fields("Firefox|||org.mozilla.firefox|||Page").unwrap();
    let info = attach_browser_url(info, &ran(true, "https://example.com"));
    assert!(info.url.is_none());
}

#[test]
fn non_browser_never_gets_url() {
    let info = split_macos_fields("Mail|||com.apple.mail|||Inbox").unwrap();
    let info = attach_browser_url(info, &ran(true, "https://example.com"));
    assert!(info.url.is_none());
}

#[test]
fn hyprctl_json_gives_title_and_class() {
    let info = parse_hyprctl_json(r#"{"title":"Terminal","class":"kitty"}"#).unwrap();
    assert_eq!(info.window_title, "Terminal");
    assert_eq!(info.app_name, "kitty");
    assert_eq!(info.bundle_id, None);
    assert_eq!(info.process_name, None);
    assert_eq!(info.url, None);
    let info = hyprctl_window(&ran(true, "{\"title\":\"Terminal\",\"class\":\"kitty\"}\n")).unwrap();
    assert_eq!(info.window_title, "Terminal");
    assert_eq!(info.app_name, "kitty");
}

#[test]
fn hyprctl_missing_members_are_empty() {
    let info = parse_hyprctl_json(r#"{"title":5}"#).unwrap();
    assert_eq!(info.window_title, "");
    assert_eq!(info.app_name, "");
}

#[test]
fn hyprctl_malformed_json_gives_absence() {
    assert!(parse_hyprctl_json("not json").is_none());
    assert!(hyprctl_window(&ran(true, "{")).is_none());
    assert!(hyprctl_window(&ran(false, r#"{"title":"a","class":"b"}"#)).is_none());
    assert!(hyprctl_window(&None).is_none());
}

#[test]
fn kde_title_serves_as_app_name() {
    assert_eq!(kde_window_id(&ran(true, "{abc}\n")).as_deref(), Some("{abc}"));
    assert!(kde_window_id(&ran(false, "x")).is_none());
    assert!(kde_window_id(&None).is_none());
    let info = kde_window(&ran(true, "Konsole\n")).unwrap();
    assert_eq!(info.window_title, "Konsole");
    assert_eq!(info.app_name, "Konsole");
    assert!(kde_window(&None).is_none());
}

#[test]
fn windows_without_foreground_gives_absence() {
    assert!(windows_window(false, &utf16("Editor"), Some("/apps/notepad.exe".to_string())).is_none());
}

#[test]
fn windows_process_failure_keeps_title() {
    let info = windows_window(true, &utf16("Untitled - Notepad"), None).unwrap();
    assert_eq!(info.window_title, "Untitled - Notepad");
    assert_eq!(info.app_name, "");
    assert_eq!(info.process_name, None);
    assert_eq!(info.bundle_id, None);
}

#[test]
fn windows_app_name_is_file_stem() {
    let info = windows_window(true, &utf16("Doc"), Some("/apps/notepad.exe".to_string())).unwrap();
    assert_eq!(info.app_name, "notepad");
    assert_eq!(info.process_name.as_deref(), Some("/apps/notepad.exe"));
    assert_eq!(info.window_title, "Doc");
}

#[test]
fn x11_snapshot_from_comm() {
    let info = x11_window(&ran(true, "vim main.rs\n"), &ran(true, "42\n"), Some("bash\n".to_string()))
        .unwrap();
    assert_eq!(info.window_title, "vim main.rs");
    assert_eq!(info.app_name, "bash");
    assert_eq!(info.process_name.as_deref(), Some("bash"));
}

#[test]
fn x11_missing_comm_keeps_title() {
    let info = x11_window(&ran(true, "Title\n"), &ran(true, "77\n"), None).unwrap();
    assert_eq!(info.window_title, "Title");
    assert_eq!(info.app_name, "");
    assert_eq!(info.process_name, None);
}

#[test]
fn x11_failed_query_gives_absence() {
    assert!(x11_window(&ran(false, "Title\n"), &ran(true, "42"), Some("bash".to_string())).is_none());
    assert!(x11_window(&ran(true, "Title\n"), &ran(false, ""), Some("bash".to_string())).is_none());
}

#[test]
fn kde_failed_name_query_gives_absence() {
    assert!(kde_window(&ran(false, "Konsole\n")).is_none());
}

#[test]
fn hyprctl_snapshot_from_members() {
    let info = hyprctl_snapshot(Some(Some("Terminal".to_string())), Some(Some("kitty".to_string())))
        .unwrap();
    assert_eq!(info.window_title, "Terminal");
    assert_eq!(info.app_name, "kitty");
    let info = hyprctl_snapshot(Some(None), None).unwrap();
    assert_eq!(info.window_title, "");
    assert_eq!(info.app_name, "");
    assert!(hyprctl_snapshot(None, Some(Some("kitty".to_string()))).is_none());
}

#[test]
fn process_snapshot_names() {
    let info = process_snapshot("T".to_string(), Some("/usr/bin/code".to_string()), Some("code".to_string()));
    assert_eq!(info.app_name, "code");
    assert_eq!(info.process_name.as_deref(), Some("/usr/bin/code"));
    assert_eq!(info.window_title, "T");
    let info = process_snapshot("T".to_string(), Some("odd".to_string()), None);
    assert_eq!(info.app_name, "odd");
    let info = process_snapshot("T".to_string(), None, Some("ignored".to_string()));
    assert_eq!(info.app_name, "");
    assert!(info.process_name.is_none() && info.bundle_id.is_none() && info.url.is_none());
}

#[test]
fn x11_tool_missing_gives_absence() {
    assert!(x11_window(&None, &ran(true, "42"), Some("bash".to_string())).is_none());
    assert!(x11_window(&ran(true, "t"), &None, Some("bash".to_string())).is_none());
}

#[test]
fn repeated_resolution_is_equal() {
    let a = macos_window(&ran(true, "Safari|||com.apple.Safari|||My Page")).unwrap();
    let b = macos_window(&ran(true, "Safari|||com.apple.Safari|||My Page")).unwrap();
    assert!(a == b);
    let c = windows_window(true, &utf16("x"), None).unwrap();
    let d = windows_window(true, &utf16("x"), None).unwrap();
    assert!(c == d);
    assert!(!(a == c));
}

#[test]
fn default_snapshot_is_empty() {
    let d = ActiveWindowInfo::default();
    assert_eq!(d.window_title, "");
    assert!(d.bundle_id.is_none() && d.process_name.is_none() && d.url.is_none());
}

#[test]
fn text_search_and_trim() {
    let s: Vec<char> = "a|||b||c".chars().collect();
    let sep: Vec<char> = "|||".chars().collect();
    assert_eq!(find_pattern(&s, &sep, 0), Some(1));
    assert_eq!(find_pattern(&s, &sep, 2), None);
    assert!(contains_pattern(&s, &sep));
    assert_eq!(output_text_of(&b"  hi there \n".to_vec()), "hi there");
    assert_eq!(output_text_of(&vec![0xff, b'a']), "\u{fffd}a");
}
