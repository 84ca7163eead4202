//! The active-window snapshot and the platform-specific rules that build it
//! from what the operating system reports.
use vstd::prelude::*;
use vstd::string::StrSliceExecFns;
use crate::text::{
    chars_of, contains, contains_pattern, find_from, find_pattern,
    output_text, output_text_of, trim_of, trimmed, utf8_lossy_of,
};

verus! {

/// A point-in-time snapshot of the window that holds input focus.
#[derive(Debug, Clone, Default)]
pub struct ActiveWindowInfo {
    pub window_title: String,
    pub app_name: String,
    pub bundle_id: Option<String>,
    pub process_name: Option<String>,
    pub url: Option<String>,
}

/// The mathematical value of an [`ActiveWindowInfo`].
pub ghost struct WindowModel {
    pub window_title: Seq<char>,
    pub app_name: Seq<char>,
    pub bundle_id: Option<Seq<char>>,
    pub process_name: Option<Seq<char>>,
    pub url: Option<Seq<char>>,
}

pub open spec fn opt_view(o: Option<String>) -> Option<Seq<char>> {
    match o {
        Some(s) => Some(s@),
        None => None,
    }
}

impl View for ActiveWindowInfo {
    type V = WindowModel;

    open spec fn view(&self) -> WindowModel {
        WindowModel {
            window_title: self.window_title@,
            app_name: self.app_name@,
            bundle_id: opt_view(self.bundle_id),
            process_name: opt_view(self.process_name),
            url: opt_view(self.url),
        }
    }
}

pub open spec fn opt_model(o: Option<ActiveWindowInfo>) -> Option<WindowModel> {
    match o {
        Some(i) => Some(i@),
        None => None,
    }
}

/// Platform-exclusive identifiers never appear together, and a URL only
/// comes with a bundle identifier.
pub open spec fn well_formed(m: WindowModel) -> bool {
    &&& !(m.bundle_id is Some && m.process_name is Some)
    &&& (m.url is Some ==> m.bundle_id is Some)
}

fn opt_eq(a: &Option<String>, b: &Option<String>) -> (r: bool)
    ensures
        r == (opt_view(*a) == opt_view(*b)),
{
    match (a, b) {
        (Some(x), Some(y)) => x.eq(y),
        (None, None) => true,
        _ => false,
    }
}

impl PartialEq for ActiveWindowInfo {
    fn eq(&self, o: &ActiveWindowInfo) -> (r: bool) {
        self.window_title == o.window_title && self.app_name == o.app_name
            && opt_eq(&self.bundle_id, &o.bundle_id) && opt_eq(&self.process_name, &o.process_name)
            && opt_eq(&self.url, &o.url)
    }
}

impl vstd::std_specs::cmp::PartialEqSpecImpl for ActiveWindowInfo {
    open spec fn obeys_eq_spec() -> bool {
        true
    }

    open spec fn eq_spec(&self, o: &ActiveWindowInfo) -> bool {
        self@ == o@
    }
}

/// What a finished external command reported: whether it exited with
/// success, and its standard output.
#[derive(Debug, Clone)]
pub struct CommandOutput {
    pub success: bool,
    pub stdout: Vec<u8>,
}

/// The separator between the fields of the macOS scripting query's answer.
pub open spec fn field_separator() -> Seq<char> {
    seq!['|', '|', '|']
}

fn separator() -> (r: Vec<char>)
    ensures
        r@ == field_separator(),
{
    let mut v: Vec<char> = Vec::new();
    v.push('|');
    v.push('|');
    v.push('|');
    assert(v@ =~= field_separator());
    v
}

/// The first three `|||`-separated fields of `s` (application name, bundle
/// identifier, window title), or `None` when `s` has fewer than three.
pub open spec fn macos_fields(s: Seq<char>) -> Option<(Seq<char>, Seq<char>, Seq<char>)> {
    let i = find_from(s, field_separator(), 0);
    let j = find_from(s, field_separator(), i + 3);
    let k = find_from(s, field_separator(), j + 3);
    if i < 0 || j < 0 {
        None
    } else {
        Some(
            (
                s.subrange(0, i),
                s.subrange(i + 3, j),
                s.subrange(j + 3, if k < 0 { s.len() as int } else { k }),
            ),
        )
    }
}

/// The snapshot built from the macOS query's fields, before any URL lookup.
pub open spec fn macos_model(s: Seq<char>) -> Option<WindowModel> {
    match macos_fields(s) {
        Some((a, b, t)) => Some(
            WindowModel {
                window_title: t,
                app_name: a,
                bundle_id: Some(b),
                process_name: None,
                url: None,
            },
        ),
        None => None,
    }
}

/// Splits the macOS query's (trimmed) answer into a snapshot.
pub fn split_macos_fields(text: &str) -> (r: Option<ActiveWindowInfo>)
    ensures
        opt_model(r) == macos_model(text@),
{
    let s = chars_of(text);
    let n = s.len();
    let sep = separator();
    proof {
        crate::text::lemma_find_from_sound(s@, sep@, 0);
    }
    let i = match find_pattern(&s, &sep, 0) {
        Some(i) => i,
        None => return None,
    };
    proof {
        crate::text::lemma_find_from_sound(s@, sep@, i + 3);
    }
    assert(i + 3 <= n);
    let j = match find_pattern(&s, &sep, i + 3) {
        Some(j) => j,
        None => return None,
    };
    proof {
        crate::text::lemma_find_from_sound(s@, sep@, j + 3);
    }
    assert(j + 3 <= n);
    let end = match find_pattern(&s, &sep, j + 3) {
        Some(k) => k,
        None => s.len(),
    };
    let app_name = text.substring_char(0, i).to_owned();
    let bundle_id = text.substring_char(i + 3, j).to_owned();
    let window_title = text.substring_char(j + 3, end).to_owned();
    Some(
        ActiveWindowInfo {
            window_title,
            app_name,
            bundle_id: Some(bundle_id),
            process_name: None,
            url: None,
        },
    )
}

/// The macOS snapshot for the scripting query's outcome: absent when the
/// query could not run, failed, or gave fewer than three fields.
pub open spec fn macos_query_model(out: Option<CommandOutput>) -> Option<WindowModel> {
    match out {
        Some(o) => if o.success {
            macos_model(output_text(o.stdout@))
        } else {
            None
        },
        None => None,
    }
}

/// Builds the macOS snapshot (without URL) from the scripting query's outcome.
pub fn macos_window(out: &Option<CommandOutput>) -> (r: Option<ActiveWindowInfo>)
    ensures
        opt_model(r) == macos_query_model(*out),
{
    match out {
        Some(o) => {
            if o.success {
                let text = output_text_of(&o.stdout);
                split_macos_fields(text.as_str())
            } else {
                None
            }
        },
        None => None,
    }
}

/// The scripting query for the frontmost application's name, its bundle
/// identifier and its front window's title, joined by `|||`.
pub const FRONT_WINDOW_SCRIPT: &'static str = r#"
        tell application "System Events"
            set frontApp to first application process whose frontmost is true
            set appName to name of frontApp
            set bundleId to bundle identifier of frontApp
        end tell

        tell application appName
            try
                set windowTitle to name of front window
            on error
                set windowTitle to ""
            end try
        end tell

        return appName & "|||" & bundleId & "|||" & windowTitle
    "#;

/// The scripting query for the active tab's URL in a Chromium-based browser.
pub const CHROMIUM_URL_SCRIPT: &'static str = r#"tell application "Google Chrome" to get URL of active tab of front window"#;

/// The scripting query for the current tab's URL in Safari.
pub const SAFARI_URL_SCRIPT: &'static str = r#"tell application "Safari" to get URL of current tab of front window"#;

/// A browser family whose front tab's URL can be asked for.
#[derive(Debug, Clone, Copy, PartialEq, Eq, Structural)]
pub enum BrowserFamily {
    /// Chrome and the Chromium-based browsers that answer Chrome's query.
    Chromium,
    Safari,
}

impl BrowserFamily {
    /// The scripting query for this family's front tab URL.
    pub fn url_script(self) -> (r: &'static str)
        ensures
            self is Chromium ==> r == CHROMIUM_URL_SCRIPT,
            self is Safari ==> r == SAFARI_URL_SCRIPT,
    {
        match self {
            BrowserFamily::Chromium => CHROMIUM_URL_SCRIPT,
            BrowserFamily::Safari => SAFARI_URL_SCRIPT,
        }
    }
}

/// The bundle identifier names one of the recognised browsers.
pub open spec fn browser_allowed(b: Seq<char>) -> bool {
    contains(b, "com.google.Chrome"@) || contains(b, "com.apple.Safari"@) || contains(
        b,
        "org.mozilla.firefox"@,
    ) || contains(b, "com.microsoft.edgemac"@) || contains(b, "com.brave.Browser"@) || contains(
        b,
        "com.operasoftware.Opera"@,
    ) || contains(b, "company.thebrowser.Browser"@)
}

/// Which URL query fits the bundle identifier, if any: none for an
/// application outside the allow-list, nor for Firefox, nor for the
/// recognised browsers without a query.
pub open spec fn browser_family(b: Seq<char>) -> Option<BrowserFamily> {
    if !browser_allowed(b) {
        None
    } else if contains(b, "Chrome"@) || contains(b, "brave"@) || contains(b, "edgemac"@) {
        Some(BrowserFamily::Chromium)
    } else if contains(b, "Safari"@) {
        Some(BrowserFamily::Safari)
    } else {
        None
    }
}

fn has(b: &Vec<char>, pat: &str) -> (r: bool)
    ensures
        r == contains(b@, pat@),
{
    let p = chars_of(pat);
    contains_pattern(b, &p)
}

/// Chooses the URL query for the application with this bundle identifier;
/// `None` means no query is to be made.
pub fn browser_url_query(bundle_id: &str) -> (r: Option<BrowserFamily>)
    ensures
        r == browser_family(bundle_id@),
{
    let b = chars_of(bundle_id);
    let allowed = has(&b, "com.google.Chrome") || has(&b, "com.apple.Safari") || has(
        &b,
        "org.mozilla.firefox",
    ) || has(&b, "com.microsoft.edgemac") || has(&b, "com.brave.Browser") || has(
        &b,
        "com.operasoftware.Opera",
    ) || has(&b, "company.thebrowser.Browser");
    if !allowed {
        None
    } else if has(&b, "Chrome") || has(&b, "brave") || has(&b, "edgemac") {
        Some(BrowserFamily::Chromium)
    } else if has(&b, "Safari") {
        Some(BrowserFamily::Safari)
    } else {
        None
    }
}

/// The URL that a browser query's outcome gives: its trimmed output, when
/// the query ran, succeeded and printed something.
pub open spec fn browser_url_model(out: Option<CommandOutput>) -> Option<Seq<char>> {
    match out {
        Some(o) => if o.success && output_text(o.stdout@).len() > 0 {
            Some(output_text(o.stdout@))
        } else {
            None
        },
        None => None,
    }
}

/// Reads the URL out of a browser query's outcome.
pub fn browser_url(out: &Option<CommandOutput>) -> (r: Option<String>)
    ensures
        opt_view(r) == browser_url_model(*out),
{
    match out {
        Some(o) => {
            if o.success {
                let url = output_text_of(&o.stdout);
                if url.as_str().is_empty() {
                    None
                } else {
                    Some(url)
                }
            } else {
                None
            }
        },
        None => None,
    }
}

/// The URL a snapshot gets: only for a bundle identifier that has a URL
/// query, and then only what that query gave.
pub open spec fn url_for(bundle_id: Option<Seq<char>>, out: Option<CommandOutput>) -> Option<
    Seq<char>,
> {
    match bundle_id {
        Some(b) => if browser_family(b) is Some {
            browser_url_model(out)
        } else {
            None
        },
        None => None,
    }
}

/// The snapshot with its URL filled in from the browser query's outcome.
pub open spec fn with_url_model(m: WindowModel, out: Option<CommandOutput>) -> WindowModel {
    WindowModel { url: url_for(m.bundle_id, out), ..m }
}

/// Fills in the snapshot's URL from the outcome of the browser query that
/// [`browser_url_query`] chose (`None` when no query was made).
pub fn attach_browser_url(info: ActiveWindowInfo, url_out: &Option<CommandOutput>) -> (r:
    ActiveWindowInfo)
    ensures
        r@ == with_url_model(info@, *url_out),
{
    let url = match &info.bundle_id {
        Some(b) => {
            if browser_url_query(b.as_str()).is_some() {
                browser_url(url_out)
            } else {
                None
            }
        },
        None => None,
    };
    ActiveWindowInfo { url, ..info }
}

/// What `String::from_utf16_lossy` yields for the given code units.
pub uninterp spec fn utf16_lossy_of(u: Seq<u16>) -> Seq<char>;

/// What `Path::file_stem` yields for the given path, as text.
pub uninterp spec fn file_stem_of(p: Seq<char>) -> Option<Seq<char>>;

/// What `Path::file_name` yields for the given path, as text.
pub uninterp spec fn file_name_of(p: Seq<char>) -> Option<Seq<char>>;

/// Relies on `String::from_utf16_lossy`: decodes UTF-16, replacing invalid
/// units; no units give no characters.
#[verifier::external_body]
fn decode_utf16_lossy(u: &[u16]) -> (r: String)
    ensures
        r@ == utf16_lossy_of(u@),
        u@.len() == 0 ==> r@.len() == 0,
{
    String::from_utf16_lossy(u)
}

/// Relies on `Path::file_stem`: the final component without its extension.
#[verifier::external_body]
fn file_stem(p: &str) -> (r: Option<String>)
    ensures
        opt_view(r) == file_stem_of(p@),
{
    std::path::Path::new(p).file_stem().and_then(|s| s.to_str()).map(|s| s.to_string())
}

/// Relies on `Path::file_name`: the final component of the path.
#[verifier::external_body]
fn file_name(p: &str) -> (r: Option<String>)
    ensures
        opt_view(r) == file_name_of(p@),
{
    std::path::Path::new(p).file_name().and_then(|s| s.to_str()).map(|s| s.to_string())
}

/// A snapshot built from a title and the focused window's process: the
/// process's base name (`base_name`, where the path has one) serves as the
/// application name, else the whole process name; without a process name
/// the application name is empty.
pub open spec fn process_snapshot_model(
    window_title: Seq<char>,
    process_name: Option<Seq<char>>,
    base_name: Option<Seq<char>>,
) -> WindowModel {
    WindowModel {
        window_title,
        app_name: match process_name {
            Some(p) => match base_name {
                Some(b) => b,
                None => p,
            },
            None => Seq::empty(),
        },
        bundle_id: None,
        process_name,
        url: None,
    }
}

/// Builds a snapshot from a window title, the focused window's process
/// name (`None` when it could not be read) and the base name taken from it.
pub fn process_snapshot(
    window_title: String,
    process_name: Option<String>,
    base_name: Option<String>,
) -> (r: ActiveWindowInfo)
    ensures
        r@ == process_snapshot_model(window_title@, opt_view(process_name), opt_view(base_name)),
{
    let app_name = match &process_name {
        Some(p) => match base_name {
            Some(b) => b,
            None => p.clone(),
        },
        None => String::new(),
    };
    ActiveWindowInfo { window_title, app_name, bundle_id: None, process_name, url: None }
}

/// The Windows snapshot: absent without a foreground window; otherwise the
/// decoded title, and the executable's path and file stem where it was read.
pub open spec fn windows_model(foreground: bool, title: Seq<u16>, image_path: Option<Seq<char>>) -> Option<WindowModel> {
    if !foreground {
        None
    } else {
        Some(
            process_snapshot_model(
                utf16_lossy_of(title),
                image_path,
                match image_path {
                    Some(p) => file_stem_of(p),
                    None => None,
                },
            ),
        )
    }
}

/// Builds the Windows snapshot from whether a window has focus, its title's
/// code units and its process's image path (`None` when the process could
/// not be opened or queried).
pub fn windows_window(foreground: bool, title: &[u16], image_path: Option<String>) -> (r: Option<ActiveWindowInfo>)
    ensures
        opt_model(r) == windows_model(foreground, title@, opt_view(image_path)),
{
    if !foreground {
        return None;
    }
    let window_title = decode_utf16_lossy(title);
    let stem = match &image_path {
        Some(p) => file_stem(p.as_str()),
        None => None,
    };
    Some(process_snapshot(window_title, image_path, stem))
}

/// The X11 snapshot: absent when either utility call could not run or
/// exited with failure; otherwise the trimmed title, and the trimmed command
/// name where the process's command-name file was read.
pub open spec fn x11_model(title_out: Option<CommandOutput>, pid_out: Option<CommandOutput>, comm: Option<Seq<char>>) -> Option<WindowModel> {
    match (title_out, pid_out) {
        (Some(t), Some(p)) => if t.success && p.success {
            let process_name = match comm {
                Some(c) => Some(trim_of(c)),
                None => None,
            };
            Some(
                process_snapshot_model(
                    output_text(t.stdout@),
                    process_name,
                    match process_name {
                        Some(n) => file_name_of(n),
                        None => None,
                    },
                ),
            )
        } else {
            None
        },
        _ => None,
    }
}

/// Builds the X11 snapshot from the title query, the process-id query and
/// the contents of the process's command-name file.
pub fn x11_window(title_out: &Option<CommandOutput>, pid_out: &Option<CommandOutput>, comm: Option<String>) -> (r: Option<ActiveWindowInfo>)
    ensures
        opt_model(r) == x11_model(*title_out, *pid_out, opt_view(comm)),
{
    let t = match title_out {
        Some(t) => t,
        None => return None,
    };
    let p = match pid_out {
        Some(p) => p,
        None => return None,
    };
    if !t.success || !p.success {
        return None;
    }
    let window_title = output_text_of(&t.stdout);
    let process_name = match &comm {
        Some(c) => Some(trimmed(c.as_str())),
        None => None,
    };
    let base = match &process_name {
        Some(n) => file_name(n.as_str()),
        None => None,
    };
    Some(process_snapshot(window_title, process_name, base))
}

/// What the KDE query's outcome says of the active window's id: its trimmed
/// output, when the query ran and succeeded.
pub open spec fn kde_window_id_model(out: Option<CommandOutput>) -> Option<Seq<char>> {
    match out {
        Some(o) => if o.success {
            Some(output_text(o.stdout@))
        } else {
            None
        },
        None => None,
    }
}

/// Reads the active window's id from the KDE query; `None` sends the
/// resolution on to the compositor query.
pub fn kde_window_id(out: &Option<CommandOutput>) -> (r: Option<String>)
    ensures
        opt_view(r) == kde_window_id_model(*out),
{
    match out {
        Some(o) => {
            if o.success {
                Some(output_text_of(&o.stdout))
            } else {
                None
            }
        },
        None => None,
    }
}

/// The KDE snapshot: the window-name query's trimmed output serves as both
/// title and application name; absent when the query could not run or
/// exited with failure.
pub open spec fn kde_model(name_out: Option<CommandOutput>) -> Option<WindowModel> {
    match name_out {
        Some(o) => if !o.success {
            None
        } else {
            Some(
            WindowModel {
                window_title: output_text(o.stdout@),
                app_name: output_text(o.stdout@),
                bundle_id: None,
                process_name: None,
                url: None,
            },
        )
        },
        None => None,
    }
}

/// Builds the KDE snapshot from the window-name query.
pub fn kde_window(name_out: &Option<CommandOutput>) -> (r: Option<ActiveWindowInfo>)
    ensures
        opt_model(r) == kde_model(*name_out),
{
    match name_out {
        Some(o) => {
            if !o.success {
                return None;
            }
            let window_title = output_text_of(&o.stdout);
            let app_name = window_title.clone();
            Some(
                ActiveWindowInfo {
                    window_title,
                    app_name,
                    bundle_id: None,
                    process_name: None,
                    url: None,
                },
            )
        },
        None => None,
    }
}

/// What parsing `text` as JSON and reading the string member `key` gives:
/// `None` when `text` is not JSON, `Some(None)` when the member is missing
/// or not a string.
pub uninterp spec fn json_string_member_of(text: Seq<char>, key: Seq<char>) -> Option<
    Option<Seq<char>>,
>;

/// Relies on `serde_json::from_str` to parse `text` as a `serde_json::Value`,
/// and on `Value::get` and `Value::as_str` to read the string member `key`.
#[verifier::external_body]
fn json_string_member(text: &str, key: &str) -> (r: Option<Option<String>>)
    ensures
        match r {
            Some(m) => json_string_member_of(text@, key@) == Some(opt_view(m)),
            None => json_string_member_of(text@, key@) is None,
        },
{
    serde_json::from_str::<serde_json::Value>(text).ok().map(
        |v| v.get(key).and_then(|m| m.as_str()).map(|m| m.to_string()),
    )
}

/// A string member read out of parsed JSON, or the empty string.
pub open spec fn member_or_empty(m: Option<Option<Seq<char>>>) -> Seq<char> {
    match m {
        Some(Some(s)) => s,
        _ => Seq::empty(),
    }
}

/// The compositor snapshot from the JSON members read: absent when the text
/// was not JSON; otherwise the `title` and `class` members, each empty where
/// missing or not a string.
pub open spec fn hyprctl_members_model(
    title: Option<Option<Seq<char>>>,
    class: Option<Option<Seq<char>>>,
) -> Option<WindowModel> {
    if title is None {
        None
    } else {
        Some(
            WindowModel {
                window_title: member_or_empty(title),
                app_name: member_or_empty(class),
                bundle_id: None,
                process_name: None,
                url: None,
            },
        )
    }
}

/// The compositor snapshot read from JSON text.
pub open spec fn hyprctl_json_model(text: Seq<char>) -> Option<WindowModel> {
    hyprctl_members_model(json_string_member_of(text, "title"@), json_string_member_of(text, "class"@))
}

/// A JSON member lookup's result, as text.
pub open spec fn member_view(m: Option<Option<String>>) -> Option<Option<Seq<char>>> {
    match m {
        Some(x) => Some(opt_view(x)),
        None => None,
    }
}

fn member_text(m: Option<Option<String>>) -> (r: String)
    ensures
        r@ == member_or_empty(member_view(m)),
{
    match m {
        Some(Some(s)) => s,
        _ => String::new(),
    }
}

/// Builds the compositor snapshot from the `title` and `class` members read
/// out of its JSON answer (outer `None`: the text was not JSON; inner
/// `None`: the member is missing or not a string).
pub fn hyprctl_snapshot(title: Option<Option<String>>, class: Option<Option<String>>) -> (r: Option<ActiveWindowInfo>)
    ensures
        opt_model(r) == hyprctl_members_model(member_view(title), member_view(class)),
{
    if title.is_none() {
        return None;
    }
    let window_title = member_text(title);
    let app_name = member_text(class);
    Some(
        ActiveWindowInfo {
            window_title,
            app_name,
            bundle_id: None,
            process_name: None,
            url: None,
        },
    )
}

/// Reads the compositor's JSON description of the active window.
pub fn parse_hyprctl_json(text: &str) -> (r: Option<ActiveWindowInfo>)
    ensures
        opt_model(r) == hyprctl_json_model(text@),
{
    let title = json_string_member(text, "title");
    let class = json_string_member(text, "class");
    hyprctl_snapshot(title, class)
}

/// The compositor snapshot from its query's outcome: absent when the query
/// could not run, failed, or printed no JSON.
pub open spec fn hyprctl_model(out: Option<CommandOutput>) -> Option<WindowModel> {
    match out {
        Some(o) => if o.success {
            hyprctl_json_model(utf8_lossy_of(o.stdout@))
        } else {
            None
        },
        None => None,
    }
}

/// Builds the compositor snapshot from its query's outcome.
pub fn hyprctl_window(out: &Option<CommandOutput>) -> (r: Option<ActiveWindowInfo>)
    ensures
        opt_model(r) == hyprctl_model(*out),
{
    match out {
        Some(o) => {
            if o.success {
                let text = crate::text::decode_lossy(o.stdout.as_slice());
                parse_hyprctl_json(text.as_str())
            } else {
                None
            }
        },
        None => None,
    }
}

} // verus!
