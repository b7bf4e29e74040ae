//! Include directories from the Makefile that nginx's `configure` writes.
use vstd::prelude::*;

use crate::text::{chars_of, lines_of, std_lines, string_of, trim_of, trimmed};

verus! {

/// Whether the flag `-I ` starts at position `i` of `s`.
pub open spec fn flag_at(s: Seq<char>, i: int) -> bool {
    0 <= i && i + 3 <= s.len() && s[i] == '-' && s[i + 1] == 'I' && s[i + 2] == ' '
}

/// The first position at or after `from` where `-I ` starts.
pub open spec fn first_flag(s: Seq<char>, from: int) -> Option<int>
    decreases s.len() - from,
{
    if from < 0 || from + 3 > s.len() {
        None
    } else if flag_at(s, from) {
        Some(from)
    } else {
        first_flag(s, from + 1)
    }
}

/// An include part: one with a trailing line continuation `\` loses it and
/// its surrounding white space; any other is kept as it is.
pub open spec fn include_part(p: Seq<char>) -> Seq<char> {
    if p.len() > 0 && p.last() == '\\' {
        trimmed(p.drop_last())
    } else {
        p
    }
}

/// The include path that follows the first `-I ` of a line, up to the next
/// `-I ` or the end of the line; `None` for a line without the flag.
pub open spec fn after_i_flag(line: Seq<char>) -> Option<Seq<char>> {
    match first_flag(line, 0) {
        None => None,
        Some(i) => {
            let rest = line.skip(i + 3);
            let piece = match first_flag(rest, 0) {
                None => rest,
                Some(j) => rest.take(j),
            };
            Some(include_part(piece))
        },
    }
}

/// The variable that lists the include directories.
pub open spec fn all_incs() -> Seq<char> {
    seq!['A', 'L', 'L', '_', 'I', 'N', 'C', 'S']
}

/// Whether `line` starts with `ALL_INCS`.
pub open spec fn starts_all_incs(line: Seq<char>) -> bool {
    line.len() >= 8 && line.take(8) == all_incs()
}

/// The include directories listed by the lines `lines`: nothing before the
/// line that starts with `ALL_INCS`, whose own flag (if any) is taken;
/// after it, one directory per line until the first line without `-I `.
pub open spec fn includes_of(lines: Seq<Seq<char>>, started: bool) -> Seq<Seq<char>>
    decreases lines.len(),
{
    if lines.len() == 0 {
        Seq::empty()
    } else if !started {
        if starts_all_incs(lines[0]) {
            let first = match after_i_flag(lines[0].skip(8)) {
                Some(p) => seq![p],
                None => Seq::empty(),
            };
            first + includes_of(lines.drop_first(), true)
        } else {
            includes_of(lines.drop_first(), false)
        }
    } else {
        match after_i_flag(lines[0]) {
            Some(p) => seq![p] + includes_of(lines.drop_first(), true),
            None => Seq::empty(),
        }
    }
}

/// The first position at or after `from` in `s` where `-I ` starts.
fn find_flag(s: &Vec<char>, from: usize) -> (r: Option<usize>)
    requires
        from <= s@.len(),
    ensures
        r matches Some(i) ==> (first_flag(s@, from as int) == Some(i as int) && from <= i && i + 3 <= s@.len()),
        r.is_none() ==> first_flag(s@, from as int).is_none(),
    decreases s@.len() - from,
{
    if s.len() < 3 || from > s.len() - 3 {
        None
    } else if s[from] == '-' && s[from + 1] == 'I' && s[from + 2] == ' ' {
        Some(from)
    } else {
        find_flag(s, from + 1)
    }
}

proof fn lemma_first_flag_shift(s: Seq<char>, k: int, from: int)
    requires
        0 <= k <= s.len(),
        0 <= from,
    ensures
        first_flag(s.skip(k), from) == match first_flag(s, k + from) {
            Some(i) => Some(i - k),
            None => None::<int>,
        },
    decreases s.len() - k - from,
{
    if from + 3 <= s.skip(k).len() {
        assert(flag_at(s.skip(k), from) == flag_at(s, k + from));
        lemma_first_flag_shift(s, k, from + 1);
    }
}

/// The include path after the first `-I ` of `line`.
fn extract_after_i_flag(line: &Vec<char>, start: usize) -> (r: Option<String>)
    requires
        start <= line@.len(),
    ensures
        r.is_some() == after_i_flag(line@.skip(start as int)).is_some(),
        r matches Some(p) ==> after_i_flag(line@.skip(start as int)) == Some(p@),
{
    let ghost l = line@.skip(start as int);
    proof {
        lemma_first_flag_shift(line@, start as int, 0);
    }
    let len = line.len();
    match find_flag(line, start) {
        None => None,
        Some(i) => {
            assert(i + 3 <= len);
            let begin = i + 3;
            let end = match find_flag(line, begin) {
                None => line.len(),
                Some(j) => j,
            };
            proof {
                let rest = l.skip(i - start + 3);
                assert(rest =~= line@.skip(begin as int));
                lemma_first_flag_shift(line@, begin as int, 0);
            }
            let mut piece: Vec<char> = Vec::new();
            let mut k: usize = begin;
            while k < end
                invariant
                    begin <= k <= end <= line@.len(),
                    piece@ == line@.subrange(begin as int, k as int),
                decreases end - k,
            {
                piece.push(line[k]);
                assert(piece@ =~= line@.subrange(begin as int, k + 1));
                k = k + 1;
            }
            proof {
                let rest = line@.skip(begin as int);
                match first_flag(rest, 0) {
                    None => assert(piece@ =~= rest),
                    Some(j) => assert(piece@ =~= rest.take(j)),
                }
            }
            let n = piece.len();
            if n > 0 && piece[n - 1] == '\\' {
                let body = string_of(&piece.as_slice()[0..n - 1]);
                proof {
                    assert(body@ =~= piece@.drop_last());
                }
                Some(trim_of(body.as_str()))
            } else {
                Some(string_of(piece.as_slice()))
            }
        },
    }
}

/// Whether `line` starts with `ALL_INCS`.
fn is_all_incs(line: &Vec<char>) -> (r: bool)
    ensures
        r == starts_all_incs(line@),
{
    if line.len() < 8 {
        return false;
    }
    let r = line[0] == 'A' && line[1] == 'L' && line[2] == 'L' && line[3] == '_' && line[4] == 'I'
        && line[5] == 'N' && line[6] == 'C' && line[7] == 'S';
    proof {
        let t = line@.take(8);
        let a = all_incs();
        assert(a[0] == 'A' && a[1] == 'L' && a[2] == 'L' && a[3] == '_' && a[4] == 'I' && a[5] == 'N'
            && a[6] == 'C' && a[7] == 'S');
        if r {
            assert(t =~= a);
        } else if t == a {
            assert(t[0] == a[0] && t[1] == a[1] && t[2] == a[2] && t[3] == a[3]);
            assert(t[4] == a[4] && t[5] == a[5] && t[6] == a[6] && t[7] == a[7]);
        }
    }
    r
}

/// The include directories that the Makefile `contents` lists under `ALL_INCS`.
pub fn parse_includes_from_makefile(contents: &str) -> (r: Vec<String>)
    ensures
        r@.map_values(|p: String| p@) == includes_of(std_lines(contents@), false),
{
    let lines = lines_of(contents);
    let ghost ls = std_lines(contents@);
    let mut includes: Vec<String> = Vec::new();
    let mut includes_lines = false;
    let mut i: usize = 0;
    proof {
        assert(ls.skip(0) =~= ls);
        assert(includes@.map_values(|p: String| p@) =~= Seq::<Seq<char>>::empty());
        assert(lines@.map_values(|l: String| l@).len() == lines@.len());
    }
    while i < lines.len()
        invariant
            0 <= i <= lines@.len(),
            ls == std_lines(contents@),
            lines@.map_values(|l: String| l@) == ls,
            includes@.map_values(|p: String| p@) + includes_of(ls.skip(i as int), includes_lines)
                == includes_of(ls, false),
        decreases lines@.len() - i,
    {
        let ghost before = includes@;
        let ghost rest = ls.skip(i as int);
        proof {
            assert(rest[0] == lines@[i as int]@);
            assert(rest.drop_first() =~= ls.skip(i + 1));
        }
        let line = chars_of(lines[i].as_str());
        if !includes_lines {
            if is_all_incs(&line) {
                includes_lines = true;
                match extract_after_i_flag(&line, 8) {
                    Some(part) => {
                        includes.push(part);
                        proof {
                            assert(includes@.map_values(|p: String| p@) =~= before.map_values(|p: String| p@).push(part@));
                        }
                    },
                    None => {},
                }
                proof {
                    assert(line@.skip(8) == rest[0].skip(8));
                    assert(includes@.map_values(|p: String| p@) + includes_of(ls.skip(i + 1), true)
                        =~= includes_of(ls, false));
                }
                i = i + 1;
                continue;
            }
        }
        if includes_lines {
            match extract_after_i_flag(&line, 0) {
                Some(part) => {
                    proof {
                        assert(line@.skip(0) =~= line@);
                    }
                    includes.push(part);
                    proof {
                        assert(includes@.map_values(|p: String| p@) =~= before.map_values(|p: String| p@).push(part@));
                        assert(includes@.map_values(|p: String| p@) + includes_of(ls.skip(i + 1), true)
                            =~= includes_of(ls, false));
                    }
                },
                None => {
                    proof {
                        assert(line@.skip(0) =~= line@);
                        assert(includes@.map_values(|p: String| p@) =~= includes_of(ls, false));
                    }
                    return includes;
                },
            }
        }
        i = i + 1;
    }
    proof {
        assert(ls.skip(i as int) =~= Seq::<Seq<char>>::empty());
        assert(includes@.map_values(|p: String| p@) =~= includes_of(ls, false));
    }
    includes
}

} // verus!
