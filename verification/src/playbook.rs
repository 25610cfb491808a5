//! Playbook lines: the records built from a loaded text file. Reading the
//! file is the caller's business; the builder here is handed the raw lines,
//! drops blank lines (and, when asked, comment lines), and numbers what is
//! left with stable 1-based ids.

use vstd::prelude::*;

use crate::text::{char_is_space, is_space_char};

verus! {

/// One line of a loaded playbook: its 1-based rank among the kept lines and
/// its text.
#[derive(Debug, Clone)]
pub struct PlaybookLine {
    pub id: usize,
    pub content: String,
}

impl PlaybookLine {
    /// Builds a record from its rank and its text.
    pub fn new(id: usize, content: String) -> (r: PlaybookLine)
        ensures
            r.id == id,
            r.content@ == content@,
    {
        PlaybookLine { id, content }
    }
}

/// A line with its leading whitespace removed.
pub open spec fn trimmed_left(s: Seq<char>) -> Seq<char>
    decreases s.len(),
{
    if s.len() == 0 {
        s
    } else if is_space_char(s[0]) {
        trimmed_left(s.drop_first())
    } else {
        s
    }
}

/// A line containing nothing but whitespace.
pub open spec fn is_blank_line(s: Seq<char>) -> bool {
    trimmed_left(s).len() == 0
}

/// A line whose first non-whitespace character is `'#'`.
pub open spec fn is_comment_line(s: Seq<char>) -> bool {
    trimmed_left(s).len() > 0 && trimmed_left(s)[0] == '#'
}

/// Which lines a loaded file keeps: blank lines always go, comment lines go
/// when comments are ignored.
pub open spec fn kept_line(s: Seq<char>, ignore_comments: bool) -> bool {
    !is_blank_line(s) && !(ignore_comments && is_comment_line(s))
}

/// The views of the lines a file load keeps, in file order.
pub open spec fn kept_views(lines: Seq<String>, ignore_comments: bool) -> Seq<Seq<char>> {
    lines.map_values(|s: String| s@).filter(|v: Seq<char>| kept_line(v, ignore_comments))
}

proof fn lemma_trimmed_left_skip(s: Seq<char>, i: int)
    requires
        0 <= i <= s.len(),
        forall|k: int| 0 <= k < i ==> is_space_char(s[k]),
    ensures
        trimmed_left(s) == trimmed_left(s.skip(i)),
    decreases i,
{
    if i > 0 {
        assert(trimmed_left(s) == trimmed_left(s.drop_first()));
        assert(s.drop_first() =~= s.skip(1));
        lemma_trimmed_left_skip(s.skip(1), i - 1);
        assert(s.skip(1).skip(i - 1) =~= s.skip(i));
    } else {
        assert(s.skip(0) =~= s);
    }
}

fn first_nonspace_idx(s: &str) -> (r: Option<usize>)
    ensures
        match r {
            Some(i) => i < s@.len() && !is_space_char(s@[i as int]) && (forall|k: int|
                0 <= k < i ==> is_space_char(s@[k])),
            None => forall|k: int| 0 <= k < s@.len() ==> is_space_char(s@[k]),
        },
{
    let n = s.unicode_len();
    let mut i: usize = 0;
    while i < n
        invariant
            i <= n,
            n == s@.len(),
            forall|k: int| 0 <= k < i ==> is_space_char(s@[k]),
        decreases n - i,
    {
        if !char_is_space(s.get_char(i)) {
            return Some(i);
        }
        i += 1;
    }
    None
}

/// Decides whether a loaded file keeps this line.
pub fn line_kept(s: &str, ignore_comments: bool) -> (r: bool)
    ensures
        r == kept_line(s@, ignore_comments),
{
    match first_nonspace_idx(s) {
        None => {
            proof {
                lemma_trimmed_left_skip(s@, s@.len() as int);
                assert(s@.skip(s@.len() as int) =~= Seq::<char>::empty());
            }
            false
        },
        Some(i) => {
            proof {
                lemma_trimmed_left_skip(s@, i as int);
                assert(trimmed_left(s@.skip(i as int)) == s@.skip(i as int));
                assert(s@.skip(i as int)[0] == s@[i as int]);
            }
            let c = s.get_char(i);
            if ignore_comments && c == '#' {
                false
            } else {
                true
            }
        },
    }
}

/// Builds the playbook records for a loaded file: the kept lines in file
/// order, each under its 1-based rank among the kept lines.
pub fn build_playbook_lines(lines: Vec<String>, ignore_comments: bool) -> (r: Vec<PlaybookLine>)
    ensures
        r@.len() == kept_views(lines@, ignore_comments).len(),
        forall|i: int|
            0 <= i < r@.len() ==> (#[trigger] r@[i]).id == i + 1 && r@[i].content@ == kept_views(
                lines@,
                ignore_comments,
            )[i],
{
    let ghost all = lines@;
    let ghost p = |v: Seq<char>| kept_line(v, ignore_comments);
    let mut out: Vec<PlaybookLine> = Vec::new();
    let n = lines.len();
    let mut i: usize = 0;
    proof {
        assert(all.take(0).map_values(|s: String| s@).filter(p) =~= Seq::<Seq<char>>::empty());
    }
    while i < n
        invariant
            i <= n,
            n == lines@.len(),
            all == lines@,
            p == (|v: Seq<char>| kept_line(v, ignore_comments)),
            out@.len() == all.take(i as int).map_values(|s: String| s@).filter(p).len(),
            out@.len() <= i,
            forall|k: int|
                0 <= k < out@.len() ==> (#[trigger] out@[k]).id == k + 1 && out@[k].content@
                    == all.take(i as int).map_values(|s: String| s@).filter(p)[k],
        decreases n - i,
    {
        let ghost taken_pre = all.take(i as int).map_values(|s: String| s@);
        proof {
            assert(all.take(i + 1).map_values(|s: String| s@) =~= taken_pre.push(all[i as int]@));
            crate::seq_util::lemma_filter_push(taken_pre, all[i as int]@, p);
        }
        if line_kept(lines[i].as_str(), ignore_comments) {
            let id = out.len() + 1;
            out.push(PlaybookLine::new(id, lines[i].clone()));
        }
        i += 1;
    }
    proof {
        assert(all.take(n as int) =~= all);
    }
    out
}

} // verus!
