//! The resolution of the active window as a sequence of steps: each step
//! either names the next OS query to run or delivers the snapshot. The
//! caller runs the queries and hands their answers back.
use vstd::prelude::*;
use crate::active_window::{
    attach_browser_url, browser_family, browser_url_query, hyprctl_model, hyprctl_window,
    kde_model, kde_window, kde_window_id, kde_window_id_model, macos_query_model, macos_window,
    opt_model, opt_view, windows_model, windows_window, with_url_model, x11_model, x11_window,
    ActiveWindowInfo, BrowserFamily, CommandOutput,
};
use crate::text::{output_text, output_text_of};

verus! {

/// The platform the resolver runs on.
#[derive(Debug, Clone, Copy, PartialEq, Eq, Structural)]
pub enum Platform {
    MacOs,
    Windows,
    /// Linux, with `wayland` set when a compositor session is present.
    Linux { wayland: bool },
    Other,
}

/// An OS query the caller is asked to run.
#[derive(Debug, Clone)]
pub enum Query {
    /// The scripting query for the frontmost application, its bundle
    /// identifier and its front window's title.
    MacFrontWindow,
    /// The scripting query for the front tab's URL of a browser.
    BrowserUrl(BrowserFamily),
    /// The foreground window, its title and its process's image path.
    WindowsForeground,
    /// The X11 utility's query for the active window's title.
    X11WindowName,
    /// The X11 utility's query for the active window's process id.
    X11WindowPid,
    /// The command-name file of the process with this id.
    ProcessCommName(String),
    /// The KDE tool's query for the active window's id.
    KdeActiveWindow,
    /// The KDE tool's query for the name of the window with this id.
    KdeWindowName(String),
    /// The compositor's JSON query for the active window.
    HyprctlActiveWindow,
}

/// The answer to a [`Query`].
#[derive(Debug, Clone)]
pub enum Answer {
    /// An external command's outcome; `None` when it could not be run.
    Command(Option<CommandOutput>),
    /// A text file's contents; `None` when it could not be read.
    File(Option<String>),
    /// The foreground window: whether there is one, its title's UTF-16 code
    /// units, and its process's image path where it could be read.
    Foreground { present: bool, title: Vec<u16>, image_path: Option<String> },
}

/// What the resolver does next.
#[derive(Debug, Clone)]
pub enum Step {
    Ask(Query),
    Done(Option<ActiveWindowInfo>),
}

/// Where the resolution stands.
#[derive(Debug, Clone)]
pub enum Resolver {
    MacFront,
    MacUrl(ActiveWindowInfo),
    WindowsForeground,
    X11Name,
    X11Pid(CommandOutput),
    X11Comm(CommandOutput, CommandOutput),
    KdeActive,
    KdeName,
    Hyprctl,
    Finished,
}

/// The command outcome an answer carries; any other answer counts as a
/// command that could not be run.
pub open spec fn command_of(a: Answer) -> Option<CommandOutput> {
    match a {
        Answer::Command(o) => o,
        _ => None,
    }
}

/// The file contents an answer carries; any other answer counts as a file
/// that could not be read.
pub open spec fn file_of(a: Answer) -> Option<Seq<char>> {
    match a {
        Answer::File(t) => opt_view(t),
        _ => None,
    }
}

/// The step finishes with exactly this snapshot.
pub open spec fn done_with(s: Step, m: Option<crate::active_window::WindowModel>) -> bool {
    s matches Step::Done(r) && opt_model(r) == m
}

/// The resolver waits for a browser's URL to add to this snapshot.
pub open spec fn holds_snapshot(s: Resolver, m: crate::active_window::WindowModel) -> bool {
    s matches Resolver::MacUrl(info) && info@ == m
}

/// The step asks for the command-name file of the process with this id.
pub open spec fn asks_comm_name(s: Step, pid: Seq<char>) -> bool {
    s matches Step::Ask(Query::ProcessCommName(p)) && p@ == pid
}

/// The step asks the KDE tool for the name of the window with this id.
pub open spec fn asks_kde_window_name(s: Step, id: Seq<char>) -> bool {
    s matches Step::Ask(Query::KdeWindowName(i)) && i@ == id
}

fn command_answer(a: Answer) -> (r: Option<CommandOutput>)
    ensures
        r == command_of(a),
{
    match a {
        Answer::Command(o) => o,
        _ => None,
    }
}

/// Begins resolving the window that holds input focus on `platform`.
/// Platforms without a mechanism finish at once with no snapshot.
pub fn get_active_window(platform: Platform) -> (r: (Resolver, Step))
    ensures
        platform is MacOs ==> r.0 is MacFront && r.1 matches Step::Ask(Query::MacFrontWindow),
        platform is Windows ==> r.0 is WindowsForeground && r.1 matches Step::Ask(
            Query::WindowsForeground,
        ),
        platform == (Platform::Linux { wayland: false }) ==> r.0 is X11Name && r.1 matches Step::Ask(
            Query::X11WindowName,
        ),
        platform == (Platform::Linux { wayland: true }) ==> r.0 is KdeActive && r.1 matches Step::Ask(
            Query::KdeActiveWindow,
        ),
        platform is Other ==> r.0 is Finished && done_with(r.1, None),
{
    match platform {
        Platform::MacOs => (Resolver::MacFront, Step::Ask(Query::MacFrontWindow)),
        Platform::Windows => (Resolver::WindowsForeground, Step::Ask(Query::WindowsForeground)),
        Platform::Linux { wayland } => {
            if wayland {
                (Resolver::KdeActive, Step::Ask(Query::KdeActiveWindow))
            } else {
                (Resolver::X11Name, Step::Ask(Query::X11WindowName))
            }
        },
        Platform::Other => (Resolver::Finished, Step::Done(None)),
    }
}

impl Resolver {
    /// Takes the answer to the query of the last step and moves on.
    pub fn advance(self, answer: Answer) -> (r: (Resolver, Step))
        ensures
            self is MacFront ==> match macos_query_model(command_of(answer)) {
                None => r.0 is Finished && done_with(r.1, None),
                Some(m) => match browser_family(m.bundle_id->0) {
                    None => r.0 is Finished && done_with(r.1, Some(m)),
                    Some(f) => holds_snapshot(r.0, m) && r.1 == Step::Ask(Query::BrowserUrl(f)),
                },
            },
            self matches Resolver::MacUrl(info) ==> r.0 is Finished && done_with(
                r.1,
                Some(with_url_model(info@, command_of(answer))),
            ),
            self is WindowsForeground ==> r.0 is Finished && match answer {
                Answer::Foreground { present, title, image_path } => done_with(
                    r.1,
                    windows_model(present, title@, opt_view(image_path)),
                ),
                _ => done_with(r.1, None),
            },
            self is X11Name ==> match command_of(answer) {
                Some(t) => if t.success {
                    r.0 == Resolver::X11Pid(t) && r.1 matches Step::Ask(Query::X11WindowPid)
                } else {
                    r.0 is Finished && done_with(r.1, None)
                },
                None => r.0 is Finished && done_with(r.1, None),
            },
            self matches Resolver::X11Pid(t) ==> match command_of(answer) {
                Some(p) => if p.success {
                    r.0 == Resolver::X11Comm(t, p) && asks_comm_name(r.1, output_text(p.stdout@))
                } else {
                    r.0 is Finished && done_with(r.1, None)
                },
                None => r.0 is Finished && done_with(r.1, None),
            },
            self matches Resolver::X11Comm(t, p) ==> r.0 is Finished && done_with(
                r.1,
                x11_model(Some(t), Some(p), file_of(answer)),
            ),
            self is KdeActive ==> match kde_window_id_model(command_of(answer)) {
                Some(id) => r.0 is KdeName && asks_kde_window_name(r.1, id),
                None => r.0 is Hyprctl && r.1 matches Step::Ask(Query::HyprctlActiveWindow),
            },
            self is KdeName ==> match kde_model(command_of(answer)) {
                Some(m) => r.0 is Finished && done_with(r.1, Some(m)),
                None => r.0 is Hyprctl && r.1 matches Step::Ask(Query::HyprctlActiveWindow),
            },
            self is Hyprctl ==> r.0 is Finished && done_with(
                r.1,
                hyprctl_model(command_of(answer)),
            ),
            self is Finished ==> r.0 is Finished && done_with(r.1, None),
    {
        match self {
            Resolver::MacFront => {
                let out = command_answer(answer);
                match macos_window(&out) {
                    None => (Resolver::Finished, Step::Done(None)),
                    Some(info) => {
                        let family = match &info.bundle_id {
                            Some(b) => browser_url_query(b.as_str()),
                            None => None,
                        };
                        match family {
                            None => (Resolver::Finished, Step::Done(Some(info))),
                            Some(f) => (Resolver::MacUrl(info), Step::Ask(Query::BrowserUrl(f))),
                        }
                    },
                }
            },
            Resolver::MacUrl(info) => {
                let out = command_answer(answer);
                (Resolver::Finished, Step::Done(Some(attach_browser_url(info, &out))))
            },
            Resolver::WindowsForeground => match answer {
                Answer::Foreground { present, title, image_path } => (
                    Resolver::Finished,
                    Step::Done(windows_window(present, title.as_slice(), image_path)),
                ),
                _ => (Resolver::Finished, Step::Done(None)),
            },
            Resolver::X11Name => match command_answer(answer) {
                Some(t) => {
                    if t.success {
                        (Resolver::X11Pid(t), Step::Ask(Query::X11WindowPid))
                    } else {
                        (Resolver::Finished, Step::Done(None))
                    }
                },
                None => (Resolver::Finished, Step::Done(None)),
            },
            Resolver::X11Pid(t) => match command_answer(answer) {
                Some(p) => {
                    if p.success {
                        let pid = output_text_of(&p.stdout);
                        (Resolver::X11Comm(t, p), Step::Ask(Query::ProcessCommName(pid)))
                    } else {
                        (Resolver::Finished, Step::Done(None))
                    }
                },
                None => (Resolver::Finished, Step::Done(None)),
            },
            Resolver::X11Comm(t, p) => {
                let comm = match answer {
                    Answer::File(c) => c,
                    _ => None,
                };
                (Resolver::Finished, Step::Done(x11_window(&Some(t), &Some(p), comm)))
            },
            Resolver::KdeActive => {
                let out = command_answer(answer);
                match kde_window_id(&out) {
                    Some(id) => (Resolver::KdeName, Step::Ask(Query::KdeWindowName(id))),
                    None => (Resolver::Hyprctl, Step::Ask(Query::HyprctlActiveWindow)),
                }
            },
            Resolver::KdeName => {
                let out = command_answer(answer);
                match kde_window(&out) {
                    Some(info) => (Resolver::Finished, Step::Done(Some(info))),
                    None => (Resolver::Hyprctl, Step::Ask(Query::HyprctlActiveWindow)),
                }
            },
            Resolver::Hyprctl => {
                let out = command_answer(answer);
                (Resolver::Finished, Step::Done(hyprctl_window(&out)))
            },
            Resolver::Finished => (Resolver::Finished, Step::Done(None)),
        }
    }
}

} // verus!
