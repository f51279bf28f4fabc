//! `jin link`: which remote URLs are accepted, how a remote is set up,
//! and what is reported of it.

use vstd::prelude::*;
use vstd::string::*;
use crate::model::error::JinError;
use crate::commands::common::strs;
use crate::commands::export::{join_strings, join_with};
use crate::commands::list::{add_opt, NameSet};
use crate::order::sorted_strict;
use crate::text::{concat2, concat3, concat4, has_prefix, starts_with, string_of};

verus! {

/// No character of `s` is a newline: what `.+` matches.
pub open spec fn no_newline(s: Seq<char>) -> bool {
    forall|i: int| 0 <= i < s.len() ==> s[i] != '\n'
}

/// A non-empty run without `c`: what `[^c]+` matches.
pub open spec fn run_without(s: Seq<char>, c: char) -> bool {
    s.len() > 0 && forall|i: int| 0 <= i < s.len() ==> s[i] != c
}

/// `scheme`, a host without `/`, a `/`, and a rest without newlines, with
/// `tail` at the end: what `^scheme[^/]+/.+tail$` matches.
pub open spec fn host_form(url: Seq<char>, scheme: Seq<char>, tail: Seq<char>) -> bool {
    exists|h: Seq<char>, rest: Seq<char>|
        #![trigger scheme + h + "/"@ + rest + tail]
        run_without(h, '/') && rest.len() > 0 && no_newline(rest) && url == scheme + h + "/"@ + rest + tail
}

/// `git@`, a host without `:`, a `:`, a character other than `/`, and a
/// rest without newlines, with `tail` at the end: what
/// `^git@[^:]+:[^/].+tail$` matches.
pub open spec fn scp_form(url: Seq<char>, tail: Seq<char>) -> bool {
    exists|h: Seq<char>, c: char, rest: Seq<char>|
        #![trigger "git@"@ + h + ":"@ + seq![c] + rest + tail]
        run_without(h, ':') && c != '/' && rest.len() > 0 && no_newline(rest) && url == "git@"@ + h
            + ":"@ + seq![c] + rest + tail
}

/// An absolute path, perhaps after `file://`, with a rest without
/// newlines: what `^(file://)?/.+$` matches.
pub open spec fn file_form(url: Seq<char>) -> bool {
    exists|rest: Seq<char>|
        #![trigger "/"@ + rest]
        rest.len() > 0 && no_newline(rest) && (url == "/"@ + rest || url == "file://"@ + "/"@ + rest)
}

/// What the `k`-th URL pattern matches, as the `regex` crate reads it
/// (`.` matches no newline, `$` only the end of the text).
pub open spec fn pattern_form(k: int, url: Seq<char>) -> bool {
    if k == 0 {
        host_form(url, "https://"@, ".git"@)
    } else if k == 1 {
        host_form(url, "https://"@, seq![])
    } else if k == 2 {
        scp_form(url, ".git"@)
    } else if k == 3 {
        scp_form(url, seq![])
    } else if k == 4 {
        host_form(url, "ssh://git@"@, ".git"@)
    } else if k == 5 {
        host_form(url, "ssh://git@"@, seq![])
    } else if k == 6 {
        host_form(url, "git://"@, ".git"@)
    } else if k == 7 {
        host_form(url, "git://"@, seq![])
    } else {
        file_form(url)
    }
}

/// Compiles `pattern` with `regex::Regex::new` and runs `Regex::is_match`
/// on `text`; a pattern that does not compile matches nothing. For the
/// URL patterns the contract states what each matches; of another
/// pattern it states nothing.
#[verifier::external_body]
fn regex_is_match(pattern: &str, text: &str) -> (r: bool)
    ensures
        forall|k: int| 0 <= k < 9 && pattern@ == #[trigger] url_patterns()[k] ==> r == pattern_form(k, text@),
{
    match regex::Regex::new(pattern) {
        Ok(re) => re.is_match(text),
        Err(_) => false,
    }
}

/// The URL forms a remote may take: HTTPS, SSH with a colon or a scheme,
/// the Git protocol (each with or without `.git`), and absolute file
/// paths.
pub open spec fn url_patterns() -> Seq<Seq<char>> {
    seq![
        "^https://[^/]+/.+\\.git$"@,
        "^https://[^/]+/.+$"@,
        "^git@[^:]+:[^/].+\\.git$"@,
        "^git@[^:]+:[^/].+$"@,
        "^ssh://git@[^/]+/.+\\.git$"@,
        "^ssh://git@[^/]+/.+$"@,
        "^git://[^/]+/.+\\.git$"@,
        "^git://[^/]+/.+$"@,
        "^(file://)?/.+$"@,
    ]
}

/// Whether one of the URL forms matches.
pub open spec fn url_form_ok(url: Seq<char>) -> bool {
    exists|i: int| 0 <= i < 9 && #[trigger] pattern_form(i, url)
}

/// The message for a URL of no accepted form.
pub open spec fn invalid_url_message(url: Seq<char>) -> Seq<char> {
    "Invalid remote URL format: "@ + url + invalid_url_tail()@
}

/// The list of supported forms that ends the invalid-URL message.
pub open spec fn invalid_url_tail() -> &'static str {
    "\n\nSupported formats:\n  HTTPS: https://github.com/org/repo.git\n  SSH:   git@github.com:org/repo.git\n  Git:   git://server.local/repo.git\n  File:  /absolute/path or file:///absolute/path"
}

/// Checks the form of a remote URL.
pub fn validate_git_url(url: &str) -> (r: Result<(), JinError>)
    ensures
        r is Ok <==> url@.len() > 0 && url_form_ok(url@),
        url@.len() == 0 ==> (r matches Err(JinError::Config(m)) && m@ == "URL cannot be empty"@),
        url@.len() > 0 && !url_form_ok(url@) ==> (r matches Err(JinError::Config(m)) && m@
            == invalid_url_message(url@)),
{
    if url.unicode_len() == 0 {
        return Err(JinError::Config("URL cannot be empty".to_owned()));
    }
    let patterns: Vec<&str> = vec![
        "^https://[^/]+/.+\\.git$",
        "^https://[^/]+/.+$",
        "^git@[^:]+:[^/].+\\.git$",
        "^git@[^:]+:[^/].+$",
        "^ssh://git@[^/]+/.+\\.git$",
        "^ssh://git@[^/]+/.+$",
        "^git://[^/]+/.+\\.git$",
        "^git://[^/]+/.+$",
        "^(file://)?/.+$",
    ];
    let ghost ps = url_patterns();
    assert(patterns@.len() == 9);
    assert(forall|i: int| 0 <= i < 9 ==> (#[trigger] patterns@[i])@ == ps[i]);
    let mut i: usize = 0;
    while i < patterns.len()
        invariant
            i <= patterns@.len(),
            patterns@.len() == 9,
            url@.len() > 0,
            ps == url_patterns(),
            forall|k: int| 0 <= k < 9 ==> (#[trigger] patterns@[k])@ == ps[k],
            forall|k: int| 0 <= k < i ==> !#[trigger] pattern_form(k, url@),
        decreases patterns@.len() - i,
    {
        let matched = regex_is_match(patterns[i], url);
        assert(patterns@[i as int]@ == url_patterns()[i as int]);
        assert(matched == pattern_form(i as int, url@));
        if matched {
            return Ok(());
        }
        i = i + 1;
    }
    Err(JinError::Config(concat3(
        "Invalid remote URL format: ",
        url,
        "\n\nSupported formats:\n  HTTPS: https://github.com/org/repo.git\n  SSH:   git@github.com:org/repo.git\n  Git:   git://server.local/repo.git\n  File:  /absolute/path or file:///absolute/path",
    )))
}

/// The error of linking where a remote is already configured.
pub fn remote_exists_error(existing_url: Option<&str>, url: &str) -> (r: JinError)
    ensures
        r matches JinError::AlreadyExists(m) && m@ == "Remote 'origin' already configured\nCurrent remote: "@
            + match existing_url {
            Some(u) => u@,
            None => "(unknown)"@,
        } + "\n\nTo change remote, use:\n  jin link "@ + url@ + " --force"@,
{
    let current = match existing_url {
        Some(u) => u,
        None => "(unknown)",
    };
    let head = concat2("Remote 'origin' already configured\nCurrent remote: ", current);
    JinError::AlreadyExists(concat4(head.as_str(), "\n\nTo change remote, use:\n  jin link ", url, " --force"))
}

/// Whether a URL names a local repository: a `file://` URL or an absolute
/// path.
pub open spec fn is_file_url_spec(url: Seq<char>) -> bool {
    has_prefix(url, "file://"@) || has_prefix(url, "/"@)
}

/// Whether a URL names a local repository.
pub fn is_file_url(url: &str) -> (r: bool)
    ensures
        r == is_file_url_spec(url@),
{
    starts_with(url, "file://") || starts_with(url, "/")
}

/// The URL handed to Git: an absolute path becomes a `file://` URL.
pub fn normalize_url(url: &str) -> (r: String)
    ensures
        r@ == (if has_prefix(url@, "/"@) && !has_prefix(url@, "file://"@) {
            "file://"@ + url@
        } else {
            url@
        }),
{
    if starts_with(url, "/") && !starts_with(url, "file://") {
        concat2("file://", url)
    } else {
        url.to_owned()
    }
}

/// How testing the connection to a remote failed.
#[derive(Debug, Clone, Copy, PartialEq, Eq, Structural)]
pub enum ConnectFailure {
    /// Authentication was refused.
    Auth,
    /// The repository was not found.
    NotFound,
    /// Anything else.
    Other,
}

/// The error of a remote that cannot be reached.
pub fn connectivity_error(kind: ConnectFailure) -> (r: JinError)
    ensures
        r matches JinError::Config(m) && m@ == match kind {
            ConnectFailure::Auth => "Cannot access remote repository\nPossible causes:\n  - Missing SSH key or credentials\n  - Repository requires authentication\n\nCheck your SSH keys: ssh -T git@github.com"@,
            ConnectFailure::NotFound => "Repository not found or not accessible\nPossible causes:\n  - Repository does not exist\n  - Incorrect URL\n  - Missing access permissions"@,
            ConnectFailure::Other => "Cannot access remote repository\nPossible causes:\n  - Network connectivity issues\n  - Firewall blocking access\n  - Certificate validation failure"@,
        },
{
    match kind {
        ConnectFailure::Auth => JinError::Config(
            "Cannot access remote repository\nPossible causes:\n  - Missing SSH key or credentials\n  - Repository requires authentication\n\nCheck your SSH keys: ssh -T git@github.com".to_owned(),
        ),
        ConnectFailure::NotFound => JinError::Config(
            "Repository not found or not accessible\nPossible causes:\n  - Repository does not exist\n  - Incorrect URL\n  - Missing access permissions".to_owned(),
        ),
        ConnectFailure::Other => JinError::Config(
            "Cannot access remote repository\nPossible causes:\n  - Network connectivity issues\n  - Firewall blocking access\n  - Certificate validation failure".to_owned(),
        ),
    }
}

/// What `jin link` prints once the remote is configured, given where the
/// configuration is stored.
pub fn linked_lines(config_path: &str) -> (r: Vec<String>)
    ensures
        strs(r@) == seq![
            "Configured remote 'origin' for Jin repository"@,
            "Stored in: "@ + config_path@,
            seq![],
        ],
{
    let lines = vec![
        "Configured remote 'origin' for Jin repository".to_owned(),
        concat2("Stored in: ", config_path),
        String::new(),
    ];
    assert(strs(lines@) =~= seq![
        "Configured remote 'origin' for Jin repository"@,
        "Stored in: "@ + config_path@,
        seq![],
    ]);
    lines
}

/// The name a ref gives after `prefix`, as the unanchored pattern
/// `prefix([^/]+)` captures it: at the first occurrence of `prefix`
/// followed by a character other than `/`, the run of such characters.
pub open spec fn captured_after(name: Seq<char>, prefix: Seq<char>) -> Option<Seq<char>> {
    if exists|i: int| capture_starts(name, prefix, i) {
        let i = choose|i: int| capture_starts(name, prefix, i) && forall|j: int| 0 <= j < i ==> !capture_starts(name, prefix, j);
        let b = i + prefix.len();
        let e = choose|e: int| run_end(name, b, e);
        Some(name.subrange(b, e))
    } else {
        None
    }
}

/// Whether `e` ends the run of characters other than `/` that starts at
/// `b`: the run is not empty, and `e` is the end of `name` or a `/`.
pub open spec fn run_end(name: Seq<char>, b: int, e: int) -> bool {
    &&& b < e <= name.len()
    &&& forall|k: int| b <= k < e ==> name[k] != '/'
    &&& (e == name.len() || name[e] == '/')
}

/// Whether the pattern `prefix([^/]+)` matches at position `i`.
pub open spec fn capture_starts(name: Seq<char>, prefix: Seq<char>, i: int) -> bool {
    0 <= i && i + prefix.len() < name.len() && name.subrange(i, i + prefix.len()) == prefix && name[i + prefix.len()] != '/'
}

/// The name captured after `prefix` in `name`, if any.
pub fn capture_after(name: &str, prefix: &str) -> (r: Option<String>)
    ensures
        match r {
            Some(c) => captured_after(name@, prefix@) == Some(c@),
            None => captured_after(name@, prefix@) is None,
        },
{
    let cs = crate::text::chars_of(name);
    let ps = crate::text::chars_of(prefix);
    let n = cs.len();
    let m = ps.len();
    let mut i: usize = 0;
    while i < n
        invariant
            i <= n,
            n == cs@.len(),
            m == ps@.len(),
            cs@ == name@,
            ps@ == prefix@,
            forall|j: int| 0 <= j < i ==> !capture_starts(name@, prefix@, j),
        decreases n - i,
    {
        if m < n - i && crate::text::chars_eq_str(&cs.as_slice()[i..i + m], prefix) && cs[i + m] != '/' {
            assert(cs@.subrange(i as int, i + m) == name@.subrange(i as int, i + m));
            assert(capture_starts(name@, prefix@, i as int));
            let b = i + m;
            let mut e = b + 1;
            while e < n && cs[e] != '/'
                invariant
                    b < e <= n,
                    n == cs@.len(),
                    cs@ == name@,
                    forall|k: int| b <= k < e ==> name@[k] != '/',
                decreases n - e,
            {
                e = e + 1;
            }
            let ghost w = choose|w: int| capture_starts(name@, prefix@, w) && forall|j: int| 0 <= j < w ==> !capture_starts(name@, prefix@, j);
            assert(w == i) by {
                if w < i {
                } else if w > i {
                    assert(!capture_starts(name@, prefix@, i as int));
                }
            }
            assert(run_end(name@, b as int, e as int));
            let ghost f = choose|f: int| run_end(name@, b as int, f);
            assert(run_end(name@, b as int, f));
            assert(f == e) by {
                if f < e {
                    assert(name@[f] != '/');
                } else if f > e {
                    assert(name@[e as int] != '/');
                }
            }
            let out = string_of(&cs.as_slice()[b..e]);
            assert(out@ =~= name@.subrange(b as int, e as int));
            return Some(out);
        }
        proof {
            if capture_starts(name@, prefix@, i as int) {
                assert(cs@.subrange(i as int, i + m) == name@.subrange(i as int, i + m));
            }
        }
        i = i + 1;
    }
    None
}

/// The names that refs give after `prefix`.
pub open spec fn captured_set(refs: Seq<Seq<char>>, prefix: Seq<char>) -> Set<Seq<char>>
    decreases refs.len(),
{
    if refs.len() == 0 {
        Set::empty()
    } else {
        add_opt(captured_set(refs.drop_last(), prefix), captured_after(refs.last(), prefix))
    }
}

/// Adds the name a ref gives after `prefix`, if any.
fn add_captured(set: &mut NameSet, r: &str, prefix: &str)
    ensures
        final(set)@ == add_opt(old(set)@, captured_after(r@, prefix@)),
{
    if let Some(c) = capture_after(r, prefix) {
        set.insert(c);
    }
}

/// The modes, scopes and projects that the remote's refs name.
pub fn remote_names(refs: &Vec<String>) -> (r: (NameSet, NameSet, NameSet))
    ensures
        r.0@ == captured_set(strs(refs@), "refs/jin/layers/mode/"@),
        r.1@ == captured_set(strs(refs@), "refs/jin/layers/scope/"@),
        r.2@ == captured_set(strs(refs@), "refs/jin/layers/project/"@),
{
    let mut modes = NameSet::new();
    let mut scopes = NameSet::new();
    let mut projects = NameSet::new();
    let ghost rs = strs(refs@);
    let mut i: usize = 0;
    assert(rs.subrange(0, 0) =~= Seq::<Seq<char>>::empty());
    while i < refs.len()
        invariant
            i <= refs@.len(),
            rs == strs(refs@),
            modes@ == captured_set(rs.subrange(0, i as int), "refs/jin/layers/mode/"@),
            scopes@ == captured_set(rs.subrange(0, i as int), "refs/jin/layers/scope/"@),
            projects@ == captured_set(rs.subrange(0, i as int), "refs/jin/layers/project/"@),
        decreases refs@.len() - i,
    {
        let r = refs[i].as_str();
        assert(rs.subrange(0, i + 1).drop_last() =~= rs.subrange(0, i as int));
        assert(rs.subrange(0, i + 1).last() == r@);
        add_captured(&mut modes, r, "refs/jin/layers/mode/");
        add_captured(&mut scopes, r, "refs/jin/layers/scope/");
        add_captured(&mut projects, r, "refs/jin/layers/project/");
        i = i + 1;
    }
    assert(rs.subrange(0, refs@.len() as int) =~= rs);
    (modes, scopes, projects)
}

/// The line of one kind of name, sorted and comma-separated.
pub open spec fn names_line(label: Seq<char>, names: Seq<Seq<char>>) -> Seq<char> {
    label + join_with(names, ", "@)
}

/// What `jin link` prints of the configurations the remote offers, given
/// each kind of name in increasing order: nothing when there are none.
pub open spec fn available_report(modes: Seq<Seq<char>>, scopes: Seq<Seq<char>>, projects: Seq<Seq<char>>) -> Seq<Seq<char>> {
    if modes.len() == 0 && scopes.len() == 0 && projects.len() == 0 {
        seq![]
    } else {
        seq!["Available configurations:"@] + (if modes.len() > 0 {
            seq![names_line("  Modes: "@, modes)]
        } else {
            seq![]
        }) + (if scopes.len() > 0 {
            seq![names_line("  Scopes: "@, scopes)]
        } else {
            seq![]
        }) + (if projects.len() > 0 {
            seq![names_line("  Projects: "@, projects)]
        } else {
            seq![]
        }) + seq![seq![]]
    }
}

/// What `jin link` prints of the configurations the remote offers.
pub fn available_lines(modes: &NameSet, scopes: &NameSet, projects: &NameSet) -> (r: Vec<String>)
    ensures
        exists|m: Seq<Seq<char>>, s: Seq<Seq<char>>, p: Seq<Seq<char>>|
            sorted_strict(m) && sorted_strict(s) && sorted_strict(p) && (forall|x: Seq<char>| m.contains(x) <==> modes@.contains(x))
                && (forall|x: Seq<char>| s.contains(x) <==> scopes@.contains(x)) && (forall|x: Seq<char>| p.contains(x) <==> projects@.contains(x))
                && strs(r@) == available_report(m, s, p),
{
    let m = modes.sorted();
    let s = scopes.sorted();
    let p = projects.sorted();
    let mut lines: Vec<String> = Vec::new();
    if m.len() == 0 && s.len() == 0 && p.len() == 0 {
        assert(strs(lines@) =~= available_report(strs(m@), strs(s@), strs(p@)));
        return lines;
    }
    lines.push("Available configurations:".to_owned());
    if m.len() > 0 {
        let j = join_strings(&m, ", ");
        lines.push(concat2("  Modes: ", j.as_str()));
    }
    if s.len() > 0 {
        let j = join_strings(&s, ", ");
        lines.push(concat2("  Scopes: ", j.as_str()));
    }
    if p.len() > 0 {
        let j = join_strings(&p, ", ");
        lines.push(concat2("  Projects: ", j.as_str()));
    }
    lines.push(String::new());
    assert(strs(m@).len() == m@.len() && strs(s@).len() == s@.len() && strs(p@).len() == p@.len());
    assert(strs(lines@) =~= available_report(strs(m@), strs(s@), strs(p@)));
    lines
}

} // verus!
