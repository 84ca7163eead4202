//! Facts that hold of every snapshot the resolver can build.
use vstd::prelude::*;
use crate::text::find_from;
use crate::active_window::{
    browser_allowed, browser_family, field_separator, hyprctl_model, kde_model, macos_fields, macos_query_model,
    well_formed, windows_model, with_url_model, x11_model, CommandOutput, WindowModel,
};
use crate::text::{
    lemma_absent_char, lemma_find_from_complete, lemma_find_from_sound, occurs_at, output_text,
};

verus! {

/// Every snapshot is well formed: a bundle identifier and a process name
/// never come together, and a URL only comes with a bundle identifier.
pub proof fn lemma_snapshots_well_formed(
    front: Option<CommandOutput>,
    url_out: Option<CommandOutput>,
    foreground: bool,
    title: Seq<u16>,
    image_path: Option<Seq<char>>,
    name_out: Option<CommandOutput>,
    pid_out: Option<CommandOutput>,
    comm: Option<Seq<char>>,
    tool_out: Option<CommandOutput>,
)
    ensures
        macos_query_model(front) matches Some(m) ==> well_formed(with_url_model(m, url_out)),
        windows_model(foreground, title, image_path) matches Some(m) ==> well_formed(m),
        x11_model(name_out, pid_out, comm) matches Some(m) ==> well_formed(m),
        kde_model(tool_out) matches Some(m) ==> well_formed(m),
        hyprctl_model(tool_out) matches Some(m) ==> well_formed(m),
{
}

/// The macOS answer has fewer than three fields exactly when it holds no
/// two non-overlapping `|||` separators; otherwise its start is the first
/// two fields and the third, joined by separators, and the first two
/// fields hold no separator.
pub proof fn lemma_macos_fields_split(s: Seq<char>)
    ensures
        macos_fields(s) is None <==> !(exists|i: int, j: int|
            occurs_at(s, field_separator(), i) && occurs_at(s, field_separator(), j) && i + 3
                <= j),
        macos_fields(s) matches Some(f) ==> {
            &&& s.subrange(0, (f.0.len() + f.1.len() + f.2.len() + 6) as int) == f.0 + field_separator()
                + f.1 + field_separator() + f.2
            &&& forall|k: int| 0 <= k < f.0.len() ==> !occurs_at(s, field_separator(), k)
            &&& forall|k: int|
                f.0.len() + 3 <= k < f.0.len() + 3 + f.1.len() ==> !occurs_at(
                    s,
                    field_separator(),
                    k,
                )
        },
{
    let sep = field_separator();
    let i = find_from(s, sep, 0);
    let j = find_from(s, sep, i + 3);
    let k = find_from(s, sep, j + 3);
    lemma_find_from_sound(s, sep, 0);
    lemma_find_from_sound(s, sep, i + 3);
    lemma_find_from_sound(s, sep, j + 3);
    if i < 0 || j < 0 {
        assert forall|i0: int, j0: int|
            occurs_at(s, sep, i0) && occurs_at(s, sep, j0) && i0 + 3 <= j0 implies false by {
            lemma_find_from_complete(s, sep, 0, i0);
            if i >= 0 {
                lemma_find_from_complete(s, sep, i + 3, j0);
            }
        }
    } else {
        assert(occurs_at(s, sep, i) && occurs_at(s, sep, j) && i + 3 <= j);
        let end = if k < 0 { s.len() as int } else { k };
        let f = macos_fields(s)->0;
        assert(f.0.len() + f.1.len() + f.2.len() + 6 == end);
        assert(s.subrange(0, end) =~= f.0 + sep + f.1 + sep + f.2);
    }
}

/// A bundle identifier is present exactly when the macOS query succeeded
/// and its answer held at least three `|||`-separated fields; the other
/// platforms never give one.
pub proof fn lemma_bundle_id_only_on_macos(
    front: Option<CommandOutput>,
    url_out: Option<CommandOutput>,
    foreground: bool,
    title: Seq<u16>,
    image_path: Option<Seq<char>>,
    name_out: Option<CommandOutput>,
    pid_out: Option<CommandOutput>,
    comm: Option<Seq<char>>,
    tool_out: Option<CommandOutput>,
)
    ensures
        (macos_query_model(front) matches Some(m) && with_url_model(m, url_out).bundle_id is Some)
            <==> (front matches Some(o) && o.success && macos_fields(output_text(o.stdout@)) is Some),
        windows_model(foreground, title, image_path) matches Some(m) ==> m.bundle_id is None,
        x11_model(name_out, pid_out, comm) matches Some(m) ==> m.bundle_id is None,
        kde_model(tool_out) matches Some(m) ==> m.bundle_id is None,
        hyprctl_model(tool_out) matches Some(m) ==> m.bundle_id is None,
{
}

/// A URL is present only for a bundle identifier on the browser allow-list,
/// and only as the non-empty, trimmed output of a successful browser query.
pub proof fn lemma_url_only_for_listed_browsers(m: WindowModel, url_out: Option<CommandOutput>)
    ensures
        with_url_model(m, url_out).url matches Some(u) ==> {
            &&& m.bundle_id matches Some(b) && browser_allowed(b)
            &&& url_out matches Some(o) && o.success && u == output_text(o.stdout@)
            &&& u.len() > 0
        },
{
}

/// Firefox is recognised as a browser but has no URL query, so its
/// snapshots never carry a URL.
pub proof fn lemma_no_url_for_firefox(m: WindowModel, url_out: Option<CommandOutput>)
    requires
        m.bundle_id == Some("org.mozilla.firefox"@),
    ensures
        browser_family("org.mozilla.firefox"@) is None,
        with_url_model(m, url_out).url is None,
{
    let f = "org.mozilla.firefox"@;
    reveal_strlit("org.mozilla.firefox");
    reveal_strlit("Chrome");
    reveal_strlit("brave");
    reveal_strlit("edgemac");
    reveal_strlit("Safari");
    lemma_absent_char(f, "Chrome"@, 0, 0);
    lemma_absent_char(f, "brave"@, 0, 0);
    lemma_absent_char(f, "edgemac"@, 1, 0);
    lemma_absent_char(f, "Safari"@, 0, 0);
}

} // verus!
