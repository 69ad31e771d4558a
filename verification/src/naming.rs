//! Derivation of the stable application name: from the executable path's
//! file stem when a path is known, from a bundle identifier's last
//! component, or as a best-effort heuristic over the window title.

use vstd::prelude::*;

use crate::model::Application;
use crate::text::{
    contains_ci, match_at, rfind, str_contains_ci, str_rfind, trim_chars, trim_str,
};

verus! {

/// The canonical name for a title that mentions one of a fixed table of
/// well-known applications, matched case-insensitively; `None` when the
/// title mentions none of them.
pub open spec fn known_app_name(t: Seq<char>) -> Option<Seq<char>> {
    if contains_ci(t, "visual studio code"@) || contains_ci(t, "vscode"@) {
        Some("Visual Studio Code"@)
    } else if contains_ci(t, "google chrome"@) || contains_ci(t, "chrome"@) {
        Some("Google Chrome"@)
    } else if contains_ci(t, "firefox"@) {
        Some("Firefox"@)
    } else if contains_ci(t, "microsoft edge"@) || contains_ci(t, "edge"@) {
        Some("Microsoft Edge"@)
    } else if contains_ci(t, "notepad++"@) {
        Some("Notepad++"@)
    } else if contains_ci(t, "notepad"@) && !contains_ci(t, "notepad++"@) {
        Some("Notepad"@)
    } else if contains_ci(t, "explorer"@) {
        Some("File Explorer"@)
    } else if contains_ci(t, "cmd"@) || contains_ci(t, "command prompt"@) {
        Some("Command Prompt"@)
    } else if contains_ci(t, "powershell"@) {
        Some("PowerShell"@)
    } else if contains_ci(t, "terminal"@) {
        Some("Windows Terminal"@)
    } else if contains_ci(t, "word"@) {
        Some("Microsoft Word"@)
    } else if contains_ci(t, "excel"@) {
        Some("Microsoft Excel"@)
    } else if contains_ci(t, "powerpoint"@) {
        Some("Microsoft PowerPoint"@)
    } else if contains_ci(t, "outlook"@) {
        Some("Microsoft Outlook"@)
    } else {
        None
    }
}

/// The trimmed text after the rightmost occurrence of the separator, when
/// that occurrence exists and the trimmed text is non-empty.
pub open spec fn sep_tail(t: Seq<char>, sep: Seq<char>) -> Option<Seq<char>> {
    match rfind(t, sep) {
        Some(i) => {
            let part = trim_chars(t.subrange(i + sep.len() as int, t.len() as int));
            if part.len() > 0 {
                Some(part)
            } else {
                None
            }
        },
        None => None,
    }
}

/// The fallback label for a title that names no well-known application:
/// the segment after the rightmost separator token, or the title itself,
/// truncated with an ellipsis when longer than fifty characters.
pub open spec fn title_fallback(t: Seq<char>) -> Seq<char> {
    if sep_tail(t, " - "@) is Some {
        sep_tail(t, " - "@)->0
    } else if sep_tail(t, " \u{2014} "@) is Some {
        sep_tail(t, " \u{2014} "@)->0
    } else if sep_tail(t, " \u{2022} "@) is Some {
        sep_tail(t, " \u{2022} "@)->0
    } else if t.len() > 50 {
        t.subrange(0, 47) + "..."@
    } else {
        t
    }
}

/// The best-effort label extracted from a window title.
pub open spec fn name_from_title(t: Seq<char>) -> Seq<char> {
    if t.len() == 0 {
        "Unknown Application"@
    } else {
        match known_app_name(t) {
            Some(n) => n,
            None => title_fallback(t),
        }
    }
}

fn known_app_exec(title: &str) -> (r: Option<String>)
    ensures
        match (r, known_app_name(title@)) {
            (Some(s), Some(v)) => s@ == v && s@.len() > 0,
            (None, None) => true,
            _ => false,
        },
{
    if str_contains_ci(title, "visual studio code") || str_contains_ci(title, "vscode") {
        proof {
            reveal_strlit("Visual Studio Code");
        }
        Some(String::from_str("Visual Studio Code"))
    } else if str_contains_ci(title, "google chrome") || str_contains_ci(title, "chrome") {
        proof {
            reveal_strlit("Google Chrome");
        }
        Some(String::from_str("Google Chrome"))
    } else if str_contains_ci(title, "firefox") {
        proof {
            reveal_strlit("Firefox");
        }
        Some(String::from_str("Firefox"))
    } else if str_contains_ci(title, "microsoft edge") || str_contains_ci(title, "edge") {
        proof {
            reveal_strlit("Microsoft Edge");
        }
        Some(String::from_str("Microsoft Edge"))
    } else if str_contains_ci(title, "notepad++") {
        proof {
            reveal_strlit("Notepad++");
        }
        Some(String::from_str("Notepad++"))
    } else if str_contains_ci(title, "notepad") && !str_contains_ci(title, "notepad++") {
        proof {
            reveal_strlit("Notepad");
        }
        Some(String::from_str("Notepad"))
    } else if str_contains_ci(title, "explorer") {
        proof {
            reveal_strlit("File Explorer");
        }
        Some(String::from_str("File Explorer"))
    } else if str_contains_ci(title, "cmd") || str_contains_ci(title, "command prompt") {
        proof {
            reveal_strlit("Command Prompt");
        }
        Some(String::from_str("Command Prompt"))
    } else if str_contains_ci(title, "powershell") {
        proof {
            reveal_strlit("PowerShell");
        }
        Some(String::from_str("PowerShell"))
    } else if str_contains_ci(title, "terminal") {
        proof {
            reveal_strlit("Windows Terminal");
        }
        Some(String::from_str("Windows Terminal"))
    } else if str_contains_ci(title, "word") {
        proof {
            reveal_strlit("Microsoft Word");
        }
        Some(String::from_str("Microsoft Word"))
    } else if str_contains_ci(title, "excel") {
        proof {
            reveal_strlit("Microsoft Excel");
        }
        Some(String::from_str("Microsoft Excel"))
    } else if str_contains_ci(title, "powerpoint") {
        proof {
            reveal_strlit("Microsoft PowerPoint");
        }
        Some(String::from_str("Microsoft PowerPoint"))
    } else if str_contains_ci(title, "outlook") {
        proof {
            reveal_strlit("Microsoft Outlook");
        }
        Some(String::from_str("Microsoft Outlook"))
    } else {
        None
    }
}

fn sep_tail_exec(title: &str, sep: &str) -> (r: Option<String>)
    ensures
        match (r, sep_tail(title@, sep@)) {
            (Some(s), Some(v)) => s@ == v && s@.len() > 0,
            (None, None) => true,
            _ => false,
        },
{
    match str_rfind(title, sep) {
        Some(i) => {
            proof {
                crate::text::lemma_rfind_some(title@, sep@, i as nat);
            }
            let sl = sep.unicode_len();
            let tl = title.unicode_len();
            let rest = title.substring_char(i + sl, tl);
            let part = trim_str(rest);
            if part.as_str().unicode_len() > 0 {
                Some(part)
            } else {
                None
            }
        },
        None => None,
    }
}

fn title_fallback_exec(title: &str) -> (r: String)
    requires
        title@.len() > 0,
    ensures
        r@ == title_fallback(title@),
        r@.len() > 0,
{
    if let Some(part) = sep_tail_exec(title, " - ") {
        return part;
    }
    if let Some(part) = sep_tail_exec(title, " \u{2014} ") {
        return part;
    }
    if let Some(part) = sep_tail_exec(title, " \u{2022} ") {
        return part;
    }
    let len = title.unicode_len();
    if len > 50 {
        let mut s = String::from_str(title.substring_char(0, 47));
        s.append("...");
        proof {
            reveal_strlit("...");
        }
        s
    } else {
        String::from_str(title)
    }
}

impl Application {
    /// The best-effort label extracted from a window title: a well-known
    /// application name the title mentions, else the segment after the
    /// rightmost separator token, else the (possibly truncated) title;
    /// a fixed label for an empty title. Never empty.
    pub fn extract_app_name_from_title(title: &str) -> (r: String)
        ensures
            r@ == name_from_title(title@),
            r@.len() > 0,
    {
        if title.unicode_len() == 0 {
            proof {
                reveal_strlit("Unknown Application");
            }
            return String::from_str("Unknown Application");
        }
        match known_app_exec(title) {
            Some(n) => n,
            None => title_fallback_exec(title),
        }
    }
}

/// A path separator character; both directions are accepted, as the
/// paths come from different operating systems.
pub open spec fn is_path_sep(c: char) -> bool {
    c == '/' || c == '\\'
}

fn is_path_sep_exec(c: char) -> (r: bool)
    ensures
        r == is_path_sep(c),
{
    c == '/' || c == '\\'
}

/// Where the last path component begins in `p[0..n]`: just after the
/// rightmost separator, or at the start when there is none.
pub open spec fn comp_start(p: Seq<char>, n: int) -> int
    decreases n,
{
    if n <= 0 {
        0
    } else if is_path_sep(p[n - 1]) {
        n
    } else {
        comp_start(p, n - 1)
    }
}

/// The rightmost index in `[1, n)` holding a dot, if any. Index zero is
/// excluded: a name that is nothing but an extension keeps its dot.
pub open spec fn last_dot_from(c: Seq<char>, n: int) -> Option<int>
    decreases n,
{
    if n <= 1 {
        None
    } else if c[n - 1] == '.' {
        Some(n - 1)
    } else {
        last_dot_from(c, n - 1)
    }
}

/// The file stem of a path: its last component without the extension.
/// `None` when the path ends in a separator or is empty.
pub open spec fn file_stem(p: Seq<char>) -> Option<Seq<char>> {
    let cs = comp_start(p, p.len() as int);
    let c = p.subrange(cs, p.len() as int);
    if c.len() == 0 {
        None
    } else {
        match last_dot_from(c, c.len() as int) {
            Some(i) => Some(c.subrange(0, i)),
            None => Some(c),
        }
    }
}

proof fn lemma_comp_start_at(p: Seq<char>, cs: int, n: int)
    requires
        0 <= cs <= n <= p.len(),
        forall|i: int| cs <= i < n ==> !is_path_sep(p[i]),
        cs > 0 ==> is_path_sep(p[cs - 1]),
    ensures
        comp_start(p, n) == cs,
    decreases n,
{
    if n > cs {
        lemma_comp_start_at(p, cs, n - 1);
    }
}

proof fn lemma_last_dot_at(c: Seq<char>, d: int, n: int)
    requires
        1 <= d < n <= c.len(),
        c[d] == '.',
        forall|i: int| d < i < n ==> c[i] != '.',
    ensures
        last_dot_from(c, n) == Some(d),
    decreases n,
{
    if n - 1 > d {
        lemma_last_dot_at(c, d, n - 1);
    }
}

proof fn lemma_no_dot(c: Seq<char>, n: int)
    requires
        n <= c.len(),
        forall|i: int| 1 <= i < n ==> c[i] != '.',
    ensures
        last_dot_from(c, n) is None,
    decreases n,
{
    if n > 1 {
        lemma_no_dot(c, n - 1);
    }
}

/// The file stem of a path string: the last component (after the
/// rightmost `/` or `\`) with its extension removed. `None` when the
/// path is empty or ends in a separator; never empty when present.
pub fn file_stem_of(path: &str) -> (r: Option<String>)
    ensures
        match (r, file_stem(path@)) {
            (Some(s), Some(v)) => s@ == v && s@.len() > 0,
            (None, None) => true,
            _ => false,
        },
{
    let len = path.unicode_len();
    let mut cs: usize = len;
    while cs > 0 && !is_path_sep_exec(path.get_char(cs - 1))
        invariant
            cs <= len,
            len == path@.len(),
            forall|i: int| cs <= i < len ==> !is_path_sep(path@[i]),
        decreases cs,
    {
        cs = cs - 1;
    }
    proof {
        lemma_comp_start_at(path@, cs as int, len as int);
    }
    if cs == len {
        proof {
            assert(path@.subrange(cs as int, len as int).len() == 0);
        }
        return None;
    }
    let ghost c = path@.subrange(cs as int, len as int);
    let mut d: usize = len;
    while d > cs + 1 && path.get_char(d - 1) != '.'
        invariant
            cs < d <= len || d == cs + 1,
            cs + 1 <= d,
            cs < len,
            len == path@.len(),
            forall|i: int| d <= i < len ==> path@[i] != '.',
        decreases d,
    {
        d = d - 1;
    }
    let stem = if d > cs + 1 {
        // a dot stands at d - 1, and none to its right
        proof {
            assert(c[d - 1 - cs as int] == path@[d - 1]);
            assert(forall|i: int| d - cs < i < c.len() ==> c[i] == path@[i + cs] && c[i] != '.');
            lemma_last_dot_at(c, d - 1 - cs as int, c.len() as int);
        }
        path.substring_char(cs, d - 1)
    } else {
        proof {
            assert(forall|i: int| 1 <= i < c.len() ==> c[i] == path@[i + cs] && c[i] != '.');
            lemma_no_dot(c, c.len() as int);
        }
        path.substring_char(cs, len)
    };
    proof {
        assert(c.subrange(0, d - 1 - cs as int) =~= path@.subrange(cs as int, d - 1));
        assert(c.subrange(0, c.len() as int) =~= c);
    }
    Some(String::from_str(stem))
}

/// The stable name, derived preferentially from the executable path's
/// file stem, with the title heuristic as the fallback.
pub open spec fn derived_name(title: Seq<char>, path: Seq<char>) -> Seq<char> {
    if path.len() > 0 {
        match file_stem(path) {
            Some(s) => s,
            None => name_from_title(title),
        }
    } else {
        name_from_title(title)
    }
}

/// Derives the stable application name from the window title and the
/// executable path. The result is never empty.
pub fn derive_name(title: &str, path: &str) -> (r: String)
    ensures
        r@ == derived_name(title@, path@),
        r@.len() > 0,
{
    if path.unicode_len() > 0 {
        match file_stem_of(path) {
            Some(s) => s,
            None => Application::extract_app_name_from_title(title),
        }
    } else {
        Application::extract_app_name_from_title(title)
    }
}

/// The derived name is never empty, whatever the title and path are.
pub proof fn lemma_derived_name_nonempty(title: Seq<char>, path: Seq<char>)
    ensures
        derived_name(title, path).len() > 0,
{
    lemma_name_from_title_nonempty(title);
    if path.len() > 0 && file_stem(path) is Some {
        let cs = comp_start(path, path.len() as int);
        let c = path.subrange(cs, path.len() as int);
        if c.len() > 0 {
            match last_dot_from(c, c.len() as int) {
                Some(i) => {
                    lemma_last_dot_bounds(c, c.len() as int);
                },
                None => {},
            }
        }
    }
}

proof fn lemma_last_dot_bounds(c: Seq<char>, n: int)
    requires
        n <= c.len(),
        last_dot_from(c, n) is Some,
    ensures
        1 <= last_dot_from(c, n)->0 < n,
    decreases n,
{
    if n > 1 && c[n - 1] != '.' {
        lemma_last_dot_bounds(c, n - 1);
    }
}

impl Application {
    /// The stable name taken from a bundle identifier: its last
    /// dot-separated component, or the given fallback name when the
    /// identifier is empty or ends in a dot.
    pub fn extract_app_name_from_bundle_id(bundle_id: &str, fallback_name: &str) -> (r: String)
        ensures
            r@ == bundle_name(bundle_id@, fallback_name@),
    {
        let len = bundle_id.unicode_len();
        if len == 0 {
            return String::from_str(fallback_name);
        }
        let mut k: usize = len;
        while k > 0 && bundle_id.get_char(k - 1) != '.'
            invariant
                k <= len,
                len == bundle_id@.len(),
                forall|i: int| k <= i < len ==> bundle_id@[i] != '.',
            decreases k,
        {
            k = k - 1;
        }
        proof {
            lemma_dot_comp_start_at(bundle_id@, k as int, len as int);
        }
        if k == len {
            proof {
                assert(bundle_id@.subrange(k as int, len as int).len() == 0);
            }
            String::from_str(fallback_name)
        } else {
            String::from_str(bundle_id.substring_char(k, len))
        }
    }
}

/// Where the last dot-separated component of `p[0..n]` begins.
pub open spec fn dot_comp_start(p: Seq<char>, n: int) -> int
    decreases n,
{
    if n <= 0 {
        0
    } else if p[n - 1] == '.' {
        n
    } else {
        dot_comp_start(p, n - 1)
    }
}

/// The name a bundle identifier yields: its last dot-separated
/// component when that is non-empty, else the fallback name.
pub open spec fn bundle_name(bundle_id: Seq<char>, fallback: Seq<char>) -> Seq<char> {
    if bundle_id.len() == 0 {
        fallback
    } else {
        let last = bundle_id.subrange(dot_comp_start(bundle_id, bundle_id.len() as int),
            bundle_id.len() as int);
        if last.len() > 0 {
            last
        } else {
            fallback
        }
    }
}

/// A bundle identifier yields a non-empty name whenever the fallback
/// name is non-empty.
pub proof fn lemma_bundle_name_nonempty(bundle_id: Seq<char>, fallback: Seq<char>)
    requires
        fallback.len() > 0,
    ensures
        bundle_name(bundle_id, fallback).len() > 0,
{
}

proof fn lemma_dot_comp_start_at(p: Seq<char>, cs: int, n: int)
    requires
        0 <= cs <= n <= p.len(),
        forall|i: int| cs <= i < n ==> p[i] != '.',
        cs > 0 ==> p[cs - 1] == '.',
    ensures
        dot_comp_start(p, n) == cs,
    decreases n,
{
    if n > cs {
        lemma_dot_comp_start_at(p, cs, n - 1);
    }
}

/// Name derivation prefers the path: whenever the path has a file stem,
/// the derived name is that stem, whatever the title says.
pub proof fn lemma_name_prefers_path(title: Seq<char>, path: Seq<char>, stem: Seq<char>)
    requires
        file_stem(path) == Some(stem),
    ensures
        derived_name(title, path) == stem,
{
    if path.len() == 0 {
        assert(path.subrange(0, 0).len() == 0);
    }
}

/// A title that holds none of the separator tokens yields no separator
/// segment.
proof fn lemma_no_sep_tail(t: Seq<char>, sep: Seq<char>)
    requires
        forall|k: int| !match_at(t, sep, k),
    ensures
        sep_tail(t, sep) is None,
{
    if rfind(t, sep) is Some {
        crate::text::lemma_rfind_some(t, sep, rfind(t, sep)->0);
    }
}

/// A short title that names no well-known application and holds none of
/// the separator tokens is kept as the label unmodified.
pub proof fn lemma_title_passthrough(t: Seq<char>)
    requires
        0 < t.len() <= 50,
        known_app_name(t) is None,
        forall|k: int| !match_at(t, " - "@, k),
        forall|k: int| !match_at(t, " \u{2014} "@, k),
        forall|k: int| !match_at(t, " \u{2022} "@, k),
    ensures
        name_from_title(t) == t,
{
    lemma_no_sep_tail(t, " - "@);
    lemma_no_sep_tail(t, " \u{2014} "@);
    lemma_no_sep_tail(t, " \u{2022} "@);
}

/// A long title that names no well-known application and holds none of
/// the separator tokens is truncated to its first forty-seven
/// characters with an ellipsis appended.
pub proof fn lemma_title_truncation(t: Seq<char>)
    requires
        t.len() > 50,
        known_app_name(t) is None,
        forall|k: int| !match_at(t, " - "@, k),
        forall|k: int| !match_at(t, " \u{2014} "@, k),
        forall|k: int| !match_at(t, " \u{2022} "@, k),
    ensures
        name_from_title(t) == t.subrange(0, 47) + "..."@,
{
    lemma_no_sep_tail(t, " - "@);
    lemma_no_sep_tail(t, " \u{2014} "@);
    lemma_no_sep_tail(t, " \u{2022} "@);
}

/// The extracted label is never empty.
pub proof fn lemma_name_from_title_nonempty(t: Seq<char>)
    ensures
        name_from_title(t).len() > 0,
{
    reveal_strlit("Unknown Application");
    reveal_strlit("Visual Studio Code");
    reveal_strlit("Google Chrome");
    reveal_strlit("Firefox");
    reveal_strlit("Microsoft Edge");
    reveal_strlit("Notepad++");
    reveal_strlit("Notepad");
    reveal_strlit("File Explorer");
    reveal_strlit("Command Prompt");
    reveal_strlit("PowerShell");
    reveal_strlit("Windows Terminal");
    reveal_strlit("Microsoft Word");
    reveal_strlit("Microsoft Excel");
    reveal_strlit("Microsoft PowerPoint");
    reveal_strlit("Microsoft Outlook");
    reveal_strlit("...");
}

} // verus!
