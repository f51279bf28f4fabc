//! `jin init`: what initializing reports, and how entries are added to
//! and taken from the project's `.gitignore`.

use vstd::prelude::*;
use vstd::string::*;
use crate::commands::common::strs;
use crate::commands::export::{join_strings, join_with};
use crate::text::{
    chars_eq_str, concat2, concat3, lemma_split_nonempty, split_chars, split_spec, string_of, trim,
    trim_spec, views,
};

verus! {

/// What `jin init` prints in a project that is already initialized.
pub fn already_initialized_lines() -> (r: Vec<String>)
    ensures
        strs(r@) == seq!["Jin is already initialized in this directory"@],
{
    let lines = vec!["Jin is already initialized in this directory".to_owned()];
    assert(strs(lines@) =~= seq!["Jin is already initialized in this directory"@]);
    lines
}

/// What `jin init` prints once it created `jin_dir`.
pub fn initialized_lines(jin_dir: &str) -> (r: Vec<String>)
    ensures
        strs(r@) == seq![
            "Initialized Jin in "@ + jin_dir@,
            seq![],
            "Next steps:"@,
            "  1. Create a mode:     jin mode create <name>"@,
            "  2. Activate the mode: jin mode use <name>"@,
            "  3. Add files:         jin add <file> --mode"@,
        ],
{
    let lines = vec![
        concat2("Initialized Jin in ", jin_dir),
        String::new(),
        "Next steps:".to_owned(),
        "  1. Create a mode:     jin mode create <name>".to_owned(),
        "  2. Activate the mode: jin mode use <name>".to_owned(),
        "  3. Add files:         jin add <file> --mode".to_owned(),
    ];
    assert(strs(lines@) =~= seq![
        "Initialized Jin in "@ + jin_dir@,
        seq![],
        "Next steps:"@,
        "  1. Create a mode:     jin mode create <name>"@,
        "  2. Activate the mode: jin mode use <name>"@,
        "  3. Add files:         jin add <file> --mode"@,
    ]);
    lines
}

/// The lines of a text as `str::lines` sees them, before each loses a
/// trailing carriage return: the pieces between newlines, without the
/// empty piece after a final newline, and none for empty text. Trimmed,
/// they are the trimmed lines `str::lines` yields.
pub open spec fn line_pieces(c: Seq<char>) -> Seq<Seq<char>> {
    if c.len() == 0 {
        seq![]
    } else if c.last() == '\n' {
        split_spec(c, '\n').drop_last()
    } else {
        split_spec(c, '\n')
    }
}

/// `s` without every trailing `/`.
pub open spec fn trim_slashes(s: Seq<char>) -> Seq<char>
    decreases s.len(),
{
    if s.len() > 0 && s.last() == '/' {
        trim_slashes(s.drop_last())
    } else {
        s
    }
}

/// Whether a line of `.gitignore` already names the entry, with or
/// without its trailing slashes.
pub open spec fn names_entry(line: Seq<char>, entry: Seq<char>) -> bool {
    trim_spec(line) == entry || trim_spec(line) == trim_slashes(entry)
}

/// What is appended to `.gitignore` to add `entry`, given its contents
/// (`None` where there is no file): nothing when a line already names it;
/// otherwise the entry on a line of its own, after a newline where the
/// contents do not end with one.
pub open spec fn gitignore_addition(contents: Option<Seq<char>>, entry: Seq<char>) -> Option<Seq<char>> {
    match contents {
        None => Some(entry + "\n"@),
        Some(c) => if exists|i: int| 0 <= i < line_pieces(c).len() && names_entry(#[trigger] line_pieces(c)[i], entry) {
            None
        } else if c.len() > 0 && c.last() != '\n' {
            Some("\n"@ + entry + "\n"@)
        } else {
            Some(entry + "\n"@)
        },
    }
}

fn trim_slashes_exec(s: &str) -> (r: String)
    ensures
        r@ == trim_slashes(s@),
{
    let cs = crate::text::chars_of(s);
    let mut n = cs.len();
    assert(cs@.subrange(0, n as int) =~= s@);
    while n > 0 && cs[n - 1] == '/'
        invariant
            n <= cs@.len(),
            trim_slashes(cs@.subrange(0, n as int)) == trim_slashes(s@),
        decreases n,
    {
        assert(cs@.subrange(0, n as int).drop_last() =~= cs@.subrange(0, n - 1));
        n = n - 1;
    }
    assert(cs@ =~= s@);
    string_of(&cs.as_slice()[0..n])
}

/// What to append to `.gitignore` to add `entry`.
#[verifier::loop_isolation(false)]
pub fn gitignore_append(contents: &Option<String>, entry: &str) -> (r: Option<String>)
    ensures
        match r {
            Some(t) => gitignore_addition(
                match contents {
                    Some(c) => Some(c@),
                    None => None,
                },
                entry@,
            ) == Some(t@),
            None => gitignore_addition(
                match contents {
                    Some(c) => Some(c@),
                    None => None,
                },
                entry@,
            ) is None,
        },
{
    proof {
        reveal_strlit("\n");
    }
    let c = match contents {
        None => return Some(concat2(entry, "\n")),
        Some(c) => c,
    };
    let stripped = trim_slashes_exec(entry);
    let pieces = split_chars(c.as_str(), '\n');
    proof {
        lemma_split_nonempty(c@, '\n');
    }
    let cs = crate::text::chars_of(c.as_str());
    let ends_nl = cs.len() > 0 && cs[cs.len() - 1] == '\n';
    let count = if cs.len() == 0 {
        0
    } else if ends_nl {
        pieces.len() - 1
    } else {
        pieces.len()
    };
    let ghost lp = line_pieces(c@);
    assert(cs@ == c@);
    assert(count == lp.len());
    let mut i: usize = 0;
    while i < count
        invariant
            i <= count,
            count == lp.len(),
            count <= pieces@.len(),
            lp == line_pieces(c@),
            forall|j: int| 0 <= j < count ==> lp[j] == (#[trigger] pieces@[j])@,
            stripped@ == trim_slashes(entry@),
            forall|j: int| 0 <= j < i ==> !names_entry(#[trigger] lp[j], entry@),
        decreases count - i,
    {
        let line = string_of(pieces[i].as_slice());
        let t = trim(line.as_str());
        if crate::text::str_eq(t.as_str(), entry) || crate::text::str_eq(t.as_str(), stripped.as_str()) {
            assert(names_entry(lp[i as int], entry@));
            assert(names_entry(line_pieces(c@)[i as int], entry@));
            return None;
        }
        i = i + 1;
    }
    assert(!(exists|j: int| 0 <= j < lp.len() && names_entry(#[trigger] lp[j], entry@)));
    if cs.len() > 0 && !ends_nl {
        Some(concat3("\n", entry, "\n"))
    } else {
        Some(concat2(entry, "\n"))
    }
}

/// The lines of `c + e + "\n"` end with `e`, for an entry `e` on one line
/// and contents that are empty or end with a newline.
proof fn lemma_entry_last_line(c: Seq<char>, e: Seq<char>)
    requires
        !e.contains('\n'),
        c.len() == 0 || c.last() == '\n',
    ensures
        ({
            let lp = line_pieces(c + e + seq!['\n']);
            lp.len() >= 1 && lp.last() == e
        }),
{
    let n = c + e + seq!['\n'];
    assert(n.len() > 0 && n.last() == '\n');
    crate::text::lemma_split_plain(e, '\n');
    if c.len() == 0 {
        assert(n =~= e + seq!['\n'] + Seq::<char>::empty());
        crate::text::lemma_split_around(e, Seq::<char>::empty(), '\n');
        assert(split_spec(Seq::<char>::empty(), '\n') == seq![Seq::<char>::empty()]);
        assert(split_spec(n, '\n') =~= seq![e, Seq::<char>::empty()]);
    } else {
        let c2 = c.drop_last();
        assert(c =~= c2 + seq!['\n']);
        assert(n =~= c2 + seq!['\n'] + (e + seq!['\n'] + Seq::<char>::empty()));
        crate::text::lemma_split_around(c2, e + seq!['\n'] + Seq::<char>::empty(), '\n');
        crate::text::lemma_split_around(e, Seq::<char>::empty(), '\n');
        assert(split_spec(Seq::<char>::empty(), '\n') == seq![Seq::<char>::empty()]);
        assert(split_spec(e + seq!['\n'] + Seq::<char>::empty(), '\n') =~= seq![e, Seq::<char>::empty()]);
        lemma_split_nonempty(c2, '\n');
        assert(split_spec(n, '\n') =~= split_spec(c2, '\n') + seq![e, Seq::<char>::empty()]);
    }
    assert(line_pieces(n) == split_spec(n, '\n').drop_last());
}

/// Adding an entry to `.gitignore` is idempotent: once what
/// `gitignore_append` returns has been appended, the entry is named by a
/// line and a second call adds nothing. This holds for an entry on one
/// line that is its own trim.
pub proof fn lemma_gitignore_append_idempotent(contents: Option<Seq<char>>, entry: Seq<char>)
    requires
        !entry.contains('\n'),
        trim_spec(entry) == entry,
    ensures
        gitignore_addition(contents, entry) matches Some(a) ==> gitignore_addition(
            Some(
                match contents {
                    Some(c) => c,
                    None => Seq::<char>::empty(),
                } + a,
            ),
            entry,
        ) is None,
{
    reveal_strlit("\n");
    let c = match contents {
        Some(c) => c,
        None => Seq::<char>::empty(),
    };
    if let Some(a) = gitignore_addition(contents, entry) {
        let base = if c.len() > 0 && c.last() != '\n' {
            assert(a == "\n"@ + entry + "\n"@);
            c + seq!['\n']
        } else {
            assert(a == entry + "\n"@);
            c
        };
        assert(c + a =~= base + entry + seq!['\n']);
        lemma_entry_last_line(base, entry);
        let lp = line_pieces(c + a);
        assert(names_entry(lp[lp.len() - 1], entry));
    }
}

/// The lines of a text other than those that, trimmed, are `entry`.
pub open spec fn lines_without(ps: Seq<Seq<char>>, entry: Seq<char>) -> Seq<Seq<char>>
    decreases ps.len(),
{
    if ps.len() == 0 {
        seq![]
    } else if trim_spec(ps.last()) == entry {
        lines_without(ps.drop_last(), entry)
    } else {
        lines_without(ps.drop_last(), entry).push(ps.last())
    }
}

/// The contents of `.gitignore` without the lines that name `entry`, or
/// `None` where no line does.
pub fn gitignore_remove(contents: &str, entry: &str) -> (r: Option<String>)
    ensures
        ({
            let ps = split_spec(contents@, '\n');
            let kept = lines_without(ps, entry@);
            match r {
                None => kept.len() == ps.len(),
                Some(t) => kept.len() != ps.len() && t@ == join_with(kept, "\n"@),
            }
        }),
{
    let pieces = split_chars(contents, '\n');
    let ghost ps = split_spec(contents@, '\n');
    let mut kept: Vec<String> = Vec::new();
    let mut i: usize = 0;
    while i < pieces.len()
        invariant
            i <= pieces@.len(),
            views(pieces@) == ps,
            ps == split_spec(contents@, '\n'),
            strs(kept@) == lines_without(ps.subrange(0, i as int), entry@),
        decreases pieces@.len() - i,
    {
        assert(ps.subrange(0, i + 1).drop_last() =~= ps.subrange(0, i as int));
        assert(ps[i as int] == pieces@[i as int]@);
        let line = string_of(pieces[i].as_slice());
        let t = trim(line.as_str());
        if !crate::text::str_eq(t.as_str(), entry) {
            let ghost k0 = strs(kept@);
            kept.push(line);
            assert(strs(kept@) =~= k0.push(ps[i as int]));
        }
        i = i + 1;
    }
    assert(ps.subrange(0, pieces@.len() as int) =~= ps);
    proof {
        lemma_lines_without_len(ps, entry@);
    }
    if kept.len() == pieces.len() {
        None
    } else {
        proof {
            reveal_strlit("\n");
        }
        Some(join_strings(&kept, "\n"))
    }
}

proof fn lemma_lines_without_len(ps: Seq<Seq<char>>, entry: Seq<char>)
    ensures
        lines_without(ps, entry).len() <= ps.len(),
    decreases ps.len(),
{
    if ps.len() > 0 {
        lemma_lines_without_len(ps.drop_last(), entry);
    }
}

} // verus!
