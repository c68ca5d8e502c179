//! Character-level string helpers with exact specifications.

use vstd::prelude::*;
use vstd::string::*;

verus! {

/// The character for a decimal digit.
pub open spec fn digit_char(d: int) -> char {
    if d == 0 { '0' }
    else if d == 1 { '1' }
    else if d == 2 { '2' }
    else if d == 3 { '3' }
    else if d == 4 { '4' }
    else if d == 5 { '5' }
    else if d == 6 { '6' }
    else if d == 7 { '7' }
    else if d == 8 { '8' }
    else { '9' }
}

/// Decimal rendering of a natural number, without leading zeros.
pub open spec fn decimal(n: nat) -> Seq<char>
    decreases n,
{
    if n < 10 {
        seq![digit_char(n as int)]
    } else {
        decimal(n / 10).push(digit_char((n % 10) as int))
    }
}

/// Appends one character to a string (`String::push`).
#[verifier::external_body]
pub(crate) fn push_char(s: &mut String, c: char)
    ensures
        final(s)@ == old(s)@.push(c),
{
    s.push(c);
}

fn digit_of(d: u64) -> (c: char)
    requires
        d < 10,
    ensures
        c == digit_char(d as int),
{
    match d {
        0 => '0',
        1 => '1',
        2 => '2',
        3 => '3',
        4 => '4',
        5 => '5',
        6 => '6',
        7 => '7',
        8 => '8',
        _ => '9',
    }
}

/// Appends the decimal rendering of `n`.
pub fn push_decimal(s: &mut String, n: u64)
    ensures
        final(s)@ == old(s)@ + decimal(n as nat),
    decreases n,
{
    if n >= 10 {
        push_decimal(s, n / 10);
    }
    push_char(s, digit_of(n % 10));
    proof {
        assert(old(s)@ + decimal(n as nat) =~= (old(s)@ + if n >= 10 { decimal((n / 10) as nat) } else { Seq::empty() }).push(digit_char((n % 10) as int)));
    }
}

} // verus!

verus! {

/// The views of a sequence of strings.
pub open spec fn strings_view(v: Seq<String>) -> Seq<Seq<char>> {
    v.map_values(|s: String| s@)
}

/// The view of an optional string.
pub open spec fn opt_view(o: Option<String>) -> Option<Seq<char>> {
    match o {
        Some(s) => Some(s@),
        None => None,
    }
}

/// `p` occurs in `s` starting at index `i`.
pub open spec fn occurs_at(s: Seq<char>, p: Seq<char>, i: int) -> bool {
    0 <= i && i + p.len() <= s.len() && s.subrange(i, i + p.len()) == p
}

/// `p` occurs somewhere in `s`.
pub open spec fn contains_sub(s: Seq<char>, p: Seq<char>) -> bool {
    exists|i: int| #[trigger] occurs_at(s, p, i)
}

/// `s` begins with `p`.
pub open spec fn has_prefix(s: Seq<char>, p: Seq<char>) -> bool {
    p.len() <= s.len() && s.subrange(0, p.len() as int) == p
}

/// A new string with the given contents.
pub fn string_from(s: &str) -> (res: String)
    ensures
        res@ == s@,
{
    String::from_str(s)
}

/// Copies a string slice into a vector of its characters.
pub fn chars_of(s: &str) -> (v: Vec<char>)
    ensures
        v@ == s@,
{
    let n = s.unicode_len();
    let mut v: Vec<char> = Vec::new();
    let mut i: usize = 0;
    while i < n
        invariant
            n == s@.len(),
            i <= n,
            v@ == s@.subrange(0, i as int),
        decreases n - i,
    {
        v.push(s.get_char(i));
        i = i + 1;
    }
    v
}

/// Appends the characters `v[from..to]`.
pub fn push_chars(s: &mut String, v: &Vec<char>, from: usize, to: usize)
    requires
        from <= to <= v@.len(),
    ensures
        final(s)@ == old(s)@ + v@.subrange(from as int, to as int),
{
    let mut i = from;
    while i < to
        invariant
            from <= i <= to <= v@.len(),
            s@ == old(s)@ + v@.subrange(from as int, i as int),
        decreases to - i,
    {
        push_char(s, v[i]);
        i = i + 1;
        proof {
            assert(v@.subrange(from as int, i as int) =~= v@.subrange(from as int, i - 1).push(v@[i - 1]));
        }
    }
}

/// A string made of the characters `v[from..to]`.
pub fn string_of_chars(v: &Vec<char>, from: usize, to: usize) -> (res: String)
    requires
        from <= to <= v@.len(),
    ensures
        res@ == v@.subrange(from as int, to as int),
{
    let mut s = String::new();
    push_chars(&mut s, v, from, to);
    proof {
        assert(Seq::<char>::empty() + v@.subrange(from as int, to as int) =~= v@.subrange(from as int, to as int));
    }
    s
}

/// Whether two string slices hold the same characters.
pub fn str_eq(a: &str, b: &str) -> (r: bool)
    ensures
        r == (a@ == b@),
{
    let x = String::from_str(a);
    let y = String::from_str(b);
    x == y
}

/// Whether `p` occurs in `v` at index `i`.
pub fn chars_occur_at(v: &Vec<char>, p: &Vec<char>, i: usize) -> (r: bool)
    ensures
        r == occurs_at(v@, p@, i as int),
{
    let n = v.len();
    if i > n || p.len() > n - i {
        return false;
    }
    let mut k: usize = 0;
    while k < p.len()
        invariant
            n == v@.len(),
            i + p@.len() <= v@.len(),
            k <= p@.len(),
            forall|j: int| 0 <= j < k ==> v@[i + j] == p@[j],
        decreases p@.len() - k,
    {
        if v[i + k] != p[k] {
            proof {
                assert(v@.subrange(i as int, i + p@.len())[k as int] != p@[k as int]);
            }
            return false;
        }
        k = k + 1;
    }
    proof {
        assert(v@.subrange(i as int, i + p@.len()) =~= p@);
    }
    true
}

/// Whether `p` occurs anywhere in `v`.
pub fn chars_contain(v: &Vec<char>, p: &Vec<char>) -> (r: bool)
    ensures
        r == contains_sub(v@, p@),
{
    if p.len() > v.len() {
        proof {
            assert forall|i: int| !occurs_at(v@, p@, i) by {}
        }
        return false;
    }
    let last = v.len() - p.len();
    let mut i: usize = 0;
    loop
        invariant_except_break
            i <= last,
            last + p@.len() == v@.len(),
            forall|j: int| 0 <= j < i ==> !occurs_at(v@, p@, j),
        ensures
            last + p@.len() == v@.len(),
            forall|j: int| 0 <= j <= last ==> !occurs_at(v@, p@, j),
        decreases last - i,
    {
        if chars_occur_at(v, p, i) {
            return true;
        }
        if i == last {
            break;
        }
        i = i + 1;
    }
    proof {
        assert forall|j: int| !occurs_at(v@, p@, j) by {
            if 0 <= j && j + p@.len() <= v@.len() {
                assert(j <= last);
            }
        }
    }
    false
}

/// Whether `p` occurs anywhere in `s`.
pub fn str_contains(s: &str, p: &str) -> (r: bool)
    ensures
        r == contains_sub(s@, p@),
{
    let v = chars_of(s);
    let q = chars_of(p);
    chars_contain(&v, &q)
}

/// Whether `s` begins with `p`.
pub fn str_starts_with(s: &str, p: &str) -> (r: bool)
    ensures
        r == has_prefix(s@, p@),
{
    let v = chars_of(s);
    let q = chars_of(p);
    chars_occur_at(&v, &q, 0)
}

/// A copy of a vector of strings.
pub fn clone_strings(v: &Vec<String>) -> (res: Vec<String>)
    ensures
        res@ == v@,
{
    let mut res: Vec<String> = Vec::new();
    let mut i: usize = 0;
    while i < v.len()
        invariant
            i <= v@.len(),
            res@ == v@.subrange(0, i as int),
        decreases v@.len() - i,
    {
        res.push(v[i].clone());
        i = i + 1;
        proof {
            assert(res@ =~= v@.subrange(0, i as int));
        }
    }
    proof {
        assert(res@ =~= v@);
    }
    res
}

/// A copy of an optional string.
pub fn clone_opt_string(o: &Option<String>) -> (res: Option<String>)
    ensures
        res == *o,
{
    match o {
        Some(s) => Some(s.clone()),
        None => None,
    }
}

} // verus!

verus! {

/// What `str::to_lowercase` returns for a string.
pub uninterp spec fn lowercase(s: Seq<char>) -> Seq<char>;

/// What `str::trim` returns for a string.
pub uninterp spec fn trimmed(s: Seq<char>) -> Seq<char>;

/// Every character is ASCII.
pub open spec fn is_ascii_text(s: Seq<char>) -> bool {
    forall|i: int| 0 <= i < s.len() ==> (#[trigger] s[i] as int) < 128
}

/// ASCII lowercasing of one character: `A`–`Z` become `a`–`z`, all else is kept.
pub open spec fn ascii_lower(c: char) -> char {
    if 65 <= (c as int) <= 90 {
        ((c as int) + 32) as char
    } else {
        c
    }
}

/// ASCII uppercasing of one character: `a`–`z` become `A`–`Z`, all else is kept.
pub open spec fn ascii_upper(c: char) -> char {
    if 97 <= (c as int) <= 122 {
        ((c as int) - 32) as char
    } else {
        c
    }
}

/// ASCII lowercasing of a text.
pub open spec fn ascii_lowered(s: Seq<char>) -> Seq<char> {
    s.map_values(|c: char| ascii_lower(c))
}

/// ASCII uppercasing of a text.
pub open spec fn ascii_uppered(s: Seq<char>) -> Seq<char> {
    s.map_values(|c: char| ascii_upper(c))
}

/// ASCII text without uppercase letters.
pub open spec fn is_lower_ascii_text(s: Seq<char>) -> bool {
    forall|i: int| 0 <= i < s.len() ==> (#[trigger] s[i] as int) < 128 && !(65 <= (s[i] as int) <= 90)
}

/// A lowercase ASCII text is its own ASCII lowercasing, and so is its uppercasing once
/// lowercased again.
pub proof fn lemma_lower_ascii_text(s: Seq<char>)
    requires
        is_lower_ascii_text(s),
    ensures
        is_ascii_text(s),
        ascii_lowered(s) == s,
        is_ascii_text(ascii_uppered(s)),
        ascii_lowered(ascii_uppered(s)) == s,
{
    assert(ascii_lowered(s) =~= s);
    assert forall|i: int| 0 <= i < ascii_uppered(s).len() implies (#[trigger] ascii_uppered(s)[i] as int) < 128 by {
        assert(ascii_uppered(s)[i] == ascii_upper(s[i]));
    }
    assert forall|i: int| 0 <= i < s.len() implies #[trigger] ascii_lowered(ascii_uppered(s))[i] == s[i] by {
        assert(ascii_uppered(s)[i] == ascii_upper(s[i]));
    }
    assert(ascii_lowered(ascii_uppered(s)) =~= s);
}

/// A printable, non-space ASCII character (never whitespace).
pub open spec fn is_visible_ascii(c: char) -> bool {
    33 <= (c as int) <= 126
}

/// `str::to_lowercase`. Its result is named by `lowercase`; of ASCII input the contract
/// also states that `A`–`Z` become `a`–`z` and every other character is kept. Of non-ASCII
/// input (Unicode case mapping) nothing more is stated.
#[verifier::external_body]
pub(crate) fn to_lowercase(s: &str) -> (res: String)
    ensures
        res@ == lowercase(s@),
        is_ascii_text(s@) ==> res@ == ascii_lowered(s@),
{
    s.to_lowercase()
}

/// `str::trim`. Its result is named by `trimmed`; the contract also states that it is a
/// contiguous part of the input, and that a string which is empty or begins and ends with
/// a printable non-space ASCII character is returned unchanged. Which characters count as
/// whitespace (the Unicode White_Space property) is not stated.
#[verifier::external_body]
pub(crate) fn trim(s: &str) -> (res: String)
    ensures
        res@ == trimmed(s@),
        contains_sub(s@, res@),
        s@.len() == 0 ==> res@ == s@,
        s@.len() > 0 && is_visible_ascii(s@[0]) && is_visible_ascii(s@.last()) ==> res@ == s@,
{
    s.trim().to_string()
}

} // verus!

verus! {

/// Whether a vector of strings holds `s`.
pub fn strings_contain(v: &Vec<String>, s: &str) -> (r: bool)
    ensures
        r == strings_view(v@).contains(s@),
{
    let mut i: usize = 0;
    while i < v.len()
        invariant
            i <= v@.len(),
            forall|j: int| 0 <= j < i ==> v@[j]@ != s@,
        decreases v@.len() - i,
    {
        if str_eq(v[i].as_str(), s) {
            proof {
                assert(strings_view(v@)[i as int] == s@);
            }
            return true;
        }
        i = i + 1;
    }
    proof {
        assert forall|j: int| 0 <= j < strings_view(v@).len() implies strings_view(v@)[j] != s@ by {
            assert(strings_view(v@)[j] == v@[j]@);
        }
    }
    false
}

/// Whether a vector of string slices holds `s`.
pub fn strs_contain(v: &Vec<&str>, s: &str) -> (r: bool)
    ensures
        r == v@.map_values(|x: &str| x@).contains(s@),
{
    let mut i: usize = 0;
    while i < v.len()
        invariant
            i <= v@.len(),
            forall|j: int| 0 <= j < i ==> v@[j]@ != s@,
        decreases v@.len() - i,
    {
        if str_eq(v[i], s) {
            proof {
                assert(v@.map_values(|x: &str| x@)[i as int] == s@);
            }
            return true;
        }
        i = i + 1;
    }
    proof {
        let w = v@.map_values(|x: &str| x@);
        assert forall|j: int| 0 <= j < w.len() implies #[trigger] w[j] != s@ by {
            assert(w[j] == v@[j]@);
        }
    }
    false
}

} // verus!

verus! {

/// What a sequence holds after a push.
pub proof fn lemma_push_contains<A>(s: Seq<A>, x: A)
    ensures
        forall|k: A| #[trigger] s.push(x).contains(k) <==> s.contains(k) || k == x,
{
    assert forall|k: A| #[trigger] s.push(x).contains(k) <==> s.contains(k) || k == x by {
        if s.contains(k) {
            let j = choose|j: int| 0 <= j < s.len() && s[j] == k;
            assert(s.push(x)[j] == k);
        }
        if k == x {
            assert(s.push(x)[s.len() as int] == k);
        }
        if s.push(x).contains(k) {
            let j = choose|j: int| 0 <= j < s.len() + 1 && s.push(x)[j] == k;
            if j < s.len() {
                assert(s[j] == k);
            }
        }
    }
}

} // verus!
