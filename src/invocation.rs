//! Turning a command string into a ready-to-spawn description.
use vstd::prelude::*;

use crate::outcome::RunError;

verus! {

/// A character with the Unicode `White_Space` property, the set that
/// `char::is_whitespace` tests.
pub open spec fn is_white_space(c: char) -> bool {
    ('\u{9}' <= c && c <= '\u{d}') || c == ' ' || c == '\u{85}' || c == '\u{a0}'
        || c == '\u{1680}' || ('\u{2000}' <= c && c <= '\u{200a}') || c == '\u{2028}'
        || c == '\u{2029}' || c == '\u{202f}' || c == '\u{205f}' || c == '\u{3000}'
}

/// Splitting a prefix of a command line: the words completed so far, and the
/// word being read at its end (empty where the prefix ends in white space).
pub open spec fn split_prefix(s: Seq<char>) -> (Seq<Seq<char>>, Seq<char>)
    decreases s.len(),
{
    if s.len() == 0 {
        (seq![], seq![])
    } else {
        let (done, cur) = split_prefix(s.drop_last());
        let c = s.last();
        if !is_white_space(c) {
            (done, cur.push(c))
        } else if cur.len() > 0 {
            (done.push(cur), seq![])
        } else {
            (done, seq![])
        }
    }
}

/// The maximal runs of non-white-space characters of `s`, in order.
pub open spec fn words(s: Seq<char>) -> Seq<Seq<char>> {
    let (done, cur) = split_prefix(s);
    if cur.len() > 0 {
        done.push(cur)
    } else {
        done
    }
}

/// The characters of each string of `v`.
pub open spec fn strings_view(v: Seq<String>) -> Seq<Seq<char>> {
    v.map_values(|w: String| w@)
}

/// Whether `c` is white space (see `is_white_space`).
pub fn is_blank(c: char) -> (r: bool)
    ensures
        r == is_white_space(c),
{
    ('\u{9}' <= c && c <= '\u{d}') || c == ' ' || c == '\u{85}' || c == '\u{a0}'
        || c == '\u{1680}' || ('\u{2000}' <= c && c <= '\u{200a}') || c == '\u{2028}'
        || c == '\u{2029}' || c == '\u{202f}' || c == '\u{205f}' || c == '\u{3000}'
}

/// The white-space separated words of `s`. No quoting or escaping is
/// recognised.
pub fn split_words(s: &str) -> (r: Vec<String>)
    ensures
        strings_view(r@) == words(s@),
{
    let n = s.unicode_len();
    let mut out: Vec<String> = Vec::new();
    let mut start: usize = 0;
    let mut i: usize = 0;
    while i < n
        invariant
            n == s@.len(),
            start <= i <= n,
            split_prefix(s@.take(i as int)) == (strings_view(out@), s@.subrange(start as int, i as int)),
        decreases n - i,
    {
        let c = s.get_char(i);
        proof {
            assert(s@.take(i + 1).drop_last() =~= s@.take(i as int));
            assert(s@.take(i + 1).last() == c);
        }
        if is_blank(c) {
            if start < i {
                let w = String::from_str(s.substring_char(start, i));
                let ghost before = out@;
                out.push(w);
                proof {
                    assert(strings_view(out@) =~= strings_view(before).push(w@));
                }
            }
            start = i + 1;
            proof {
                assert(s@.subrange(start as int, i + 1) =~= Seq::<char>::empty());
            }
        } else {
            proof {
                assert(s@.subrange(start as int, i + 1) =~= s@.subrange(start as int, i as int).push(c));
            }
        }
        i = i + 1;
    }
    proof {
        assert(s@.take(n as int) =~= s@);
    }
    if start < n {
        let w = String::from_str(s.substring_char(start, n));
        let ghost before = out@;
        out.push(w);
        proof {
            assert(strings_view(out@) =~= strings_view(before).push(w@));
        }
    }
    out
}

/// A command ready to be spawned: the program, its arguments in order, and
/// the directory it runs in (the caller's own when `None`).
#[derive(Debug, PartialEq, Eq)]
pub struct Invocation {
    pub program: String,
    pub args: Vec<String>,
    pub cwd: Option<String>,
}

impl Invocation {
    /// Builds an invocation from a command string split on white space, the
    /// first word being the program. Fails with `InvalidCommand` when the
    /// string holds no word.
    pub fn parse(command: &str, cwd: Option<String>) -> (r: Result<Invocation, RunError>)
        ensures
            r is Err <==> words(command@).len() == 0,
            r is Err ==> r == Err::<Invocation, RunError>(RunError::InvalidCommand),
            r matches Ok(inv) ==> {
                &&& inv.program@ == words(command@)[0]
                &&& strings_view(inv.args@) == words(command@).drop_first()
                &&& inv.cwd == cwd
            },
    {
        let mut argv = split_words(command);
        if argv.len() == 0 {
            return Err(RunError::InvalidCommand);
        }
        let ghost all = argv@;
        let program = argv.remove(0);
        proof {
            assert(strings_view(argv@) =~= strings_view(all).drop_first());
        }
        Ok(Invocation { program, args: argv, cwd })
    }
}

} // verus!
