//! Command lines and the environment that commands run with.
use vstd::prelude::*;
use crate::text::{lines_of, shell_words, shlex_split, split_at_equals, text_lines};

verus! {

/// The texts of a list of strings.
pub open spec fn texts_of(v: Seq<String>) -> Seq<Seq<char>> {
    v.map_values(|x: String| x@)
}

/// `s[i]` is the first `'='` of `s`.
pub open spec fn first_equals_at(s: Seq<char>, i: int) -> bool {
    0 <= i < s.len() && s[i] == '=' && forall|j: int| 0 <= j < i ==> s[j] != '='
}

/// A line cut at its first `'='` into a name and a value.
pub open spec fn env_entry(s: Seq<char>) -> Option<(Seq<char>, Seq<char>)> {
    if exists|i: int| first_equals_at(s, i) {
        let i = choose|i: int| first_equals_at(s, i);
        Some((s.subrange(0, i), s.subrange(i + 1, s.len() as int)))
    } else {
        None
    }
}

/// The entries of the lines that hold a `'='`, in order.
pub open spec fn env_entries(ls: Seq<Seq<char>>) -> Seq<(Seq<char>, Seq<char>)>
    decreases ls.len(),
{
    if ls.len() == 0 {
        seq![]
    } else {
        env_entries(ls.drop_last()) + match env_entry(ls.last()) {
            Some(e) => seq![e],
            None => seq![],
        }
    }
}

/// The texts of a list of entries.
pub open spec fn entry_texts(v: Seq<(String, String)>) -> Seq<(Seq<char>, Seq<char>)> {
    v.map_values(|p: (String, String)| (p.0@, p.1@))
}

/// The variables that `env` printed, one `NAME=value` per line. Lines
/// without a `'='` are skipped; a value may itself hold `'='`.
pub fn parse_env(out: &str) -> (r: Vec<(String, String)>)
    ensures
        entry_texts(r@) == env_entries(text_lines(out@)),
{
    let lines = lines_of(out);
    let ghost ls = text_lines(out@);
    let mut r: Vec<(String, String)> = Vec::new();
    let mut i: usize = 0;
    while i < lines.len()
        invariant
            0 <= i <= lines@.len(),
            texts_of(lines@) == ls,
            entry_texts(r@) == env_entries(ls.take(i as int)),
        decreases lines@.len() - i,
    {
        let ghost before = r@;
        let ghost l = lines@[i as int]@;
        assert(ls.take(i + 1).drop_last() =~= ls.take(i as int));
        assert(ls.take(i + 1).last() == l);
        match split_at_equals(lines[i].as_str()) {
            Some(e) => {
                let ghost k = choose|k: int|
                    0 <= k < l.len() && l[k] == '=' && (forall|j: int| 0 <= j < k ==> l[j] != '=')
                        && e.0@ == l.subrange(0, k) && e.1@ == l.subrange(k + 1, l.len() as int);
                proof {
                    assert(first_equals_at(l, k));
                    let c = choose|c: int| first_equals_at(l, c);
                    if c < k {
                        assert(l[c] != '=');
                    } else if k < c {
                        assert(l[k] != '=');
                    }
                    assert(env_entry(l) == Some((e.0@, e.1@)));
                }
                r.push(e);
                assert(entry_texts(r@) =~= entry_texts(before) + seq![(l.subrange(0, k), l.subrange(k + 1, l.len() as int))]);
            },
            None => {
                assert(!exists|c: int| first_equals_at(l, c));
                assert(env_entry(l).is_none());
                assert(seq![] + env_entries(ls.take(i as int)) =~= env_entries(ls.take(i as int)));
                assert(env_entries(ls.take(i as int)) + Seq::<(Seq<char>, Seq<char>)>::empty() =~= env_entries(ls.take(i as int)));
            },
        }
        i = i + 1;
    }
    assert(ls.take(i as int) =~= ls);
    r
}

/// A command line cut into its program and its arguments.
pub open spec fn command_parts(line: Seq<char>) -> Option<(Seq<char>, Seq<Seq<char>>)> {
    match shell_words(line) {
        Some(w) => if w.len() > 0 {
            Some((w[0], w.drop_first()))
        } else {
            None
        },
        None => None,
    }
}

/// Splits a command line as a shell would, into the program and its
/// arguments; `None` where the line does not tokenize or names no program.
pub fn split_command(line: &str) -> (r: Option<(String, Vec<String>)>)
    ensures
        match r {
            Some((p, a)) => command_parts(line@) == Some((p@, texts_of(a@))),
            None => command_parts(line@).is_none(),
        },
{
    match shlex_split(line) {
        None => None,
        Some(w) => {
            if w.len() == 0 {
                None
            } else {
                let mut rest: Vec<String> = Vec::new();
                let mut i: usize = 1;
                while i < w.len()
                    invariant
                        1 <= i <= w@.len(),
                        texts_of(rest@) == texts_of(w@).subrange(1, i as int),
                    decreases w@.len() - i,
                {
                    let ghost before = rest@;
                    let x = w[i].clone();
                    rest.push(x);
                    assert(rest@ == before.push(x));
                    assert(texts_of(before.push(x)) =~= texts_of(before).push(x@));
                    assert(texts_of(rest@) =~= texts_of(w@).subrange(1, i + 1));
                    i = i + 1;
                }
                assert(texts_of(w@).subrange(1, i as int) =~= texts_of(w@).drop_first());
                Some((w[0].clone(), rest))
            }
        },
    }
}

} // verus!
