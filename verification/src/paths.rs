//! Path manipulation on `/`-separated paths held as strings: joining, and the file name,
//! extension and stem of a path, as `std::path` defines them on Unix.

use vstd::prelude::*;
use vstd::string::*;
use crate::text::{chars_of, opt_view, push_char, string_from, string_of_chars, strings_view};

verus! {

/// The pieces of `s` between occurrences of `sep`, as `str::split` yields them.
pub open spec fn split_on(s: Seq<char>, sep: char) -> Seq<Seq<char>>
    decreases s.len(),
{
    if s.len() == 0 {
        seq![Seq::<char>::empty()]
    } else {
        let p = split_on(s.drop_last(), sep);
        if s.last() == sep {
            p.push(Seq::<char>::empty())
        } else {
            p.update(p.len() - 1, p.last().push(s.last()))
        }
    }
}

/// Splitting always yields at least one piece.
pub proof fn lemma_split_nonempty(s: Seq<char>, sep: char)
    ensures
        split_on(s, sep).len() >= 1,
    decreases s.len(),
{
    if s.len() > 0 {
        lemma_split_nonempty(s.drop_last(), sep);
    }
}

/// Index of the last occurrence of `c` in `s`, or -1 when there is none.
pub open spec fn last_index_of(s: Seq<char>, c: char) -> int
    decreases s.len(),
{
    if s.len() == 0 {
        -1
    } else if s.last() == c {
        s.len() - 1
    } else {
        last_index_of(s.drop_last(), c)
    }
}

pub proof fn lemma_last_index_bounds(s: Seq<char>, c: char)
    ensures
        -1 <= last_index_of(s, c) < s.len(),
        last_index_of(s, c) >= 0 ==> s[last_index_of(s, c)] == c,
        forall|j: int| last_index_of(s, c) < j < s.len() ==> s[j] != c,
    decreases s.len(),
{
    if s.len() > 0 && s.last() != c {
        lemma_last_index_bounds(s.drop_last(), c);
        assert forall|j: int| last_index_of(s, c) < j < s.len() implies s[j] != c by {
            if j < s.len() - 1 {
                assert(s.drop_last()[j] == s[j]);
            }
        }
    }
}

/// The normal components among the pieces of a path: empty pieces and `.` are left out.
pub open spec fn normal_components(parts: Seq<Seq<char>>) -> Seq<Seq<char>>
    decreases parts.len(),
{
    if parts.len() == 0 {
        Seq::empty()
    } else {
        let r = normal_components(parts.drop_last());
        let c = parts.last();
        if c.len() == 0 || c == seq!['.'] {
            r
        } else {
            r.push(c)
        }
    }
}

/// `Path::file_name`: the last normal component, unless the path ends in `..`.
pub open spec fn file_name(path: Seq<char>) -> Option<Seq<char>> {
    let cs = normal_components(split_on(path, '/'));
    if cs.len() == 0 || cs.last() == seq!['.', '.'] {
        None
    } else {
        Some(cs.last())
    }
}

/// `Path::extension`: what follows the last `.` of the file name, when that `.` is not its
/// first character.
pub open spec fn extension(path: Seq<char>) -> Option<Seq<char>> {
    match file_name(path) {
        None => None,
        Some(n) => {
            let k = last_index_of(n, '.');
            if k <= 0 {
                None
            } else {
                Some(n.subrange(k + 1, n.len() as int))
            }
        },
    }
}

/// `Path::file_stem`: the file name without its extension.
pub open spec fn file_stem(path: Seq<char>) -> Option<Seq<char>> {
    match file_name(path) {
        None => None,
        Some(n) => {
            let k = last_index_of(n, '.');
            if k <= 0 {
                Some(n)
            } else {
                Some(n.subrange(0, k))
            }
        },
    }
}

/// `PathBuf::join`: an absolute `p` replaces `base`; otherwise `p` is appended, with a
/// separator when `base` is non-empty and does not end in one.
pub open spec fn join_path(base: Seq<char>, p: Seq<char>) -> Seq<char> {
    if p.len() > 0 && p[0] == '/' {
        p
    } else if base.len() > 0 && base.last() != '/' {
        base + seq!['/'] + p
    } else {
        base + p
    }
}

/// The pieces of `s` between occurrences of `sep`.
pub fn split_str(s: &str, sep: char) -> (res: Vec<String>)
    ensures
        strings_view(res@) == split_on(s@, sep),
{
    let v = chars_of(s);
    let mut pieces: Vec<String> = Vec::new();
    let mut current = String::new();
    let mut i: usize = 0;
    proof {
        assert(v@.take(0) =~= Seq::<char>::empty());
        assert(strings_view(pieces@).push(current@) =~= split_on(v@.take(0), sep));
    }
    while i < v.len()
        invariant
            v@ == s@,
            i <= v@.len(),
            strings_view(pieces@).push(current@) == split_on(v@.take(i as int), sep),
        decreases v@.len() - i,
    {
        let c = v[i];
        proof {
            assert(v@.take(i + 1).drop_last() =~= v@.take(i as int));
            assert(v@.take(i + 1).last() == c);
            lemma_split_nonempty(v@.take(i as int), sep);
        }
        if c == sep {
            let piece = current;
            pieces.push(piece);
            current = String::new();
            proof {
                assert(strings_view(pieces@).push(current@) =~= split_on(v@.take(i as int), sep).push(Seq::<char>::empty()));
            }
        } else {
            push_char(&mut current, c);
            proof {
                let p = split_on(v@.take(i as int), sep);
                assert(strings_view(pieces@).push(current@) =~= p.update(p.len() - 1, p.last().push(c)));
            }
        }
        i = i + 1;
    }
    pieces.push(current);
    proof {
        assert(v@.take(v@.len() as int) =~= v@);
        assert(strings_view(pieces@) =~= split_on(v@, sep));
    }
    pieces
}

/// Index of the last occurrence of `c` in `v`.
pub fn last_index(v: &Vec<char>, c: char) -> (r: Option<usize>)
    ensures
        match r {
            Some(k) => k as int == last_index_of(v@, c),
            None => last_index_of(v@, c) == -1,
        },
{
    let mut i = v.len();
    proof {
        assert(v@.take(i as int) =~= v@);
    }
    while i > 0
        invariant
            i <= v@.len(),
            last_index_of(v@.take(i as int), c) == last_index_of(v@, c),
        decreases i,
    {
        proof {
            assert(v@.take(i as int).drop_last() =~= v@.take(i - 1));
        }
        if v[i - 1] == c {
            return Some(i - 1);
        }
        i = i - 1;
    }
    None
}

fn is_dot(v: &Vec<char>) -> (r: bool)
    ensures
        r == (v@ == seq!['.']),
{
    if v.len() == 1 && v[0] == '.' {
        assert(v@ =~= seq!['.']);
        true
    } else {
        false
    }
}

fn is_dot_dot(v: &Vec<char>) -> (r: bool)
    ensures
        r == (v@ == seq!['.', '.']),
{
    if v.len() == 2 && v[0] == '.' && v[1] == '.' {
        assert(v@ =~= seq!['.', '.']);
        true
    } else {
        false
    }
}

/// `Path::file_name`.
pub fn file_name_of(path: &str) -> (res: Option<String>)
    ensures
        opt_view(res) == file_name(path@),
{
    let parts = split_str(path, '/');
    let mut last: Option<String> = None;
    let mut count: usize = 0;
    let mut i: usize = 0;
    while i < parts.len()
        invariant
            i <= parts@.len(),
            ({
                let cs = normal_components(strings_view(parts@).take(i as int));
                &&& count as int == cs.len()
                &&& count > 0 ==> last is Some && last->0@ == cs.last()
                &&& count == 0 ==> last is None
                &&& count <= i
            }),
        decreases parts@.len() - i,
    {
        proof {
            assert(strings_view(parts@).take(i + 1).drop_last() =~= strings_view(parts@).take(i as int));
        }
        let c = chars_of(parts[i].as_str());
        if c.len() != 0 && !is_dot(&c) {
            last = Some(parts[i].clone());
            count = count + 1;
        }
        i = i + 1;
    }
    proof {
        assert(strings_view(parts@).take(parts@.len() as int) =~= strings_view(parts@));
    }
    match last {
        None => None,
        Some(name) => {
            let c = chars_of(name.as_str());
            if is_dot_dot(&c) {
                None
            } else {
                Some(name)
            }
        },
    }
}

/// `Path::extension`.
pub fn extension_of(path: &str) -> (res: Option<String>)
    ensures
        opt_view(res) == extension(path@),
{
    match file_name_of(path) {
        None => None,
        Some(name) => {
            let c = chars_of(name.as_str());
            match last_index(&c, '.') {
                Some(k) => {
                    if k == 0 {
                        None
                    } else {
                        proof { lemma_last_index_bounds(c@, '.'); }
                        Some(string_of_chars(&c, k + 1, c.len()))
                    }
                },
                None => None,
            }
        },
    }
}

/// `Path::file_stem`.
pub fn file_stem_of(path: &str) -> (res: Option<String>)
    ensures
        opt_view(res) == file_stem(path@),
{
    match file_name_of(path) {
        None => None,
        Some(name) => {
            let c = chars_of(name.as_str());
            match last_index(&c, '.') {
                Some(k) => {
                    if k == 0 {
                        Some(name)
                    } else {
                        proof { lemma_last_index_bounds(c@, '.'); }
                        Some(string_of_chars(&c, 0, k))
                    }
                },
                None => Some(name),
            }
        },
    }
}

/// `PathBuf::join`.
pub fn join(base: &str, p: &str) -> (res: String)
    ensures
        res@ == join_path(base@, p@),
{
    let pn = p.unicode_len();
    if pn > 0 && p.get_char(0) == '/' {
        return string_from(p);
    }
    let bn = base.unicode_len();
    let mut res = string_from(base);
    if bn > 0 && base.get_char(bn - 1) != '/' {
        push_char(&mut res, '/');
    }
    res.append(p);
    res
}

} // verus!
