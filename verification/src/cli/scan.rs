//! Scanning a subcommand's arguments into option values, flags and positional arguments.

use vstd::prelude::*;
use crate::cli::{
    allows_version, grammar_long, grammar_short, lookup_grammar_long, lookup_grammar_short, option_name,
    option_name_exec, positional_capacity, positional_capacity_exec, unknown_starts_positional, CliError,
    CliErrorView, Grammar, OptSpec, SubcommandKind, OPT_PORT, OPT_TIMEOUT,
};
use crate::text::{chars_of, str_eq, string_of_chars, strings_view};

verus! {

/// What scanning a subcommand's arguments has found so far.
pub struct ScanView {
    /// Option values in the order given, each with its option's identifier.
    pub values: Seq<(u8, Seq<char>)>,
    /// Flags given.
    pub flags: Seq<u8>,
    pub positionals: Seq<Seq<char>>,
    /// An option waiting for its value.
    pub pending: Option<OptSpec>,
    /// Every further argument is positional.
    pub only_positional: bool,
    pub error: Option<CliErrorView>,
}

pub open spec fn scan_start() -> ScanView {
    ScanView {
        values: Seq::empty(),
        flags: Seq::empty(),
        positionals: Seq::empty(),
        pending: None,
        only_positional: false,
        error: None,
    }
}

/// Index of the first `c` in `s`, or -1.
pub open spec fn first_index_of(s: Seq<char>, c: char) -> int
    decreases s.len(),
{
    if s.len() == 0 {
        -1
    } else if s[0] == c {
        0
    } else {
        let r = first_index_of(s.drop_first(), c);
        if r < 0 { -1 } else { r + 1 }
    }
}

pub proof fn lemma_first_index_of(s: Seq<char>, c: char, i: int)
    requires
        0 <= i <= s.len(),
        forall|k: int| 0 <= k < i ==> s[k] != c,
        i < s.len() ==> s[i] == c,
    ensures
        first_index_of(s, c) == (if i < s.len() { i } else { -1 }),
    decreases i,
{
    if i > 0 {
        assert forall|k: int| 0 <= k < i - 1 implies s.drop_first()[k] != c by {
            assert(s.drop_first()[k] == s[k + 1]);
        }
        lemma_first_index_of(s.drop_first(), c, i - 1);
    }
}

/// An argument that reads as an option, and so cannot be an option's value.
pub open spec fn is_option_like(tok: Seq<char>) -> bool {
    tok.len() >= 2 && tok[0] == '-'
}

/// A natural number written in decimal digits.
pub open spec fn digits_value(s: Seq<char>) -> nat
    decreases s.len(),
{
    if s.len() == 0 {
        0
    } else {
        digits_value(s.drop_last()) * 10 + ((s.last() as nat) - ('0' as nat)) as nat
    }
}

pub open spec fn all_digits(s: Seq<char>) -> bool {
    forall|k: int| 0 <= k < s.len() ==> '0' <= #[trigger] s[k] <= '9'
}

/// A number as an integer option reads it: an optional sign and at least one decimal digit,
/// giving a value from 0 to `max`.
pub open spec fn parse_bounded(s: Seq<char>, max: nat) -> Option<nat> {
    let signed = s.len() > 0 && (s[0] == '+' || s[0] == '-');
    let body = if signed { s.drop_first() } else { s };
    if body.len() == 0 || !all_digits(body) {
        None
    } else if s[0] == '-' {
        if digits_value(body) == 0 { Some(0) } else { None }
    } else if digits_value(body) <= max {
        Some(digits_value(body))
    } else {
        None
    }
}

/// The largest value an integer option accepts, if it is one.
pub open spec fn numeric_max(id: u8) -> Option<nat> {
    if id == OPT_PORT {
        Some(0xFFFF)
    } else if id == OPT_TIMEOUT {
        Some(0xFFFF_FFFF)
    } else {
        None
    }
}

/// Whether an option accepts a value.
pub open spec fn value_ok(id: u8, v: Seq<char>) -> bool {
    match numeric_max(id) {
        Some(max) => parse_bounded(v, max) is Some,
        None => true,
    }
}

/// Some value was recorded for option `id`.
pub open spec fn has_value(values: Seq<(u8, Seq<char>)>, id: u8) -> bool {
    exists|k: int| 0 <= k < values.len() && #[trigger] values[k].0 == id
}

pub open spec fn with_error(s: ScanView, e: CliErrorView) -> ScanView {
    ScanView { error: Some(e), ..s }
}

pub open spec fn record_value(s: ScanView, o: OptSpec, v: Seq<char>) -> ScanView {
    if !o.multiple && has_value(s.values, o.id) {
        with_error(s, CliErrorView::DuplicateArgument(option_name(o.id)))
    } else if !value_ok(o.id, v) {
        with_error(s, CliErrorView::InvalidValue(v))
    } else {
        ScanView { values: s.values.push((o.id, v)), pending: None, ..s }
    }
}

pub open spec fn record_flag(s: ScanView, o: OptSpec) -> ScanView {
    if s.flags.contains(o.id) {
        with_error(s, CliErrorView::DuplicateArgument(option_name(o.id)))
    } else {
        ScanView { flags: s.flags.push(o.id), ..s }
    }
}

/// A positional argument: a grammar without a limit takes any number, the first of which makes
/// every further argument positional; one with a limit refuses those beyond it.
pub open spec fn add_positional(g: Grammar, s: ScanView, tok: Seq<char>) -> ScanView {
    match positional_capacity(g) {
        None => ScanView { positionals: s.positionals.push(tok), only_positional: true, ..s },
        Some(n) => if s.positionals.len() < n {
            ScanView { positionals: s.positionals.push(tok), ..s }
        } else {
            with_error(s, CliErrorView::UnknownArgument(tok))
        },
    }
}

/// An option the grammar does not have: `launch` takes it as the start of its pipeline.
pub open spec fn unknown_option(g: Grammar, s: ScanView, tok: Seq<char>) -> ScanView {
    if unknown_starts_positional(g) {
        add_positional(g, s, tok)
    } else {
        with_error(s, CliErrorView::UnknownArgument(tok))
    }
}

pub open spec fn scan_long(g: Grammar, s: ScanView, tok: Seq<char>) -> ScanView {
    let body = tok.skip(2);
    let eq = first_index_of(body, '=');
    let name = if eq < 0 { body } else { body.take(eq) };
    match grammar_long(g, name) {
        None => if name == "help"@ {
            with_error(s, CliErrorView::Help)
        } else if allows_version(g) && name == "version"@ {
            with_error(s, CliErrorView::Version)
        } else {
            unknown_option(g, s, tok)
        },
        Some(o) => if o.takes_value {
            if eq < 0 {
                ScanView { pending: Some(o), ..s }
            } else {
                record_value(s, o, body.skip(eq + 1))
            }
        } else if eq < 0 {
            record_flag(s, o)
        } else {
            with_error(s, CliErrorView::InvalidValue(tok))
        },
    }
}

pub open spec fn scan_short(g: Grammar, s: ScanView, tok: Seq<char>) -> ScanView {
    match grammar_short(g, tok[1]) {
        None => if tok.len() == 2 && tok[1] == 'h' {
            with_error(s, CliErrorView::Help)
        } else if allows_version(g) && tok.len() == 2 && tok[1] == 'V' {
            with_error(s, CliErrorView::Version)
        } else {
            unknown_option(g, s, tok)
        },
        Some(o) => if o.takes_value {
            if tok.len() == 2 {
                ScanView { pending: Some(o), ..s }
            } else if tok[2] == '=' {
                record_value(s, o, tok.skip(3))
            } else {
                record_value(s, o, tok.skip(2))
            }
        } else if tok.len() == 2 {
            record_flag(s, o)
        } else {
            with_error(s, CliErrorView::UnknownArgument(tok))
        },
    }
}

/// One argument of a subcommand.
pub open spec fn scan_step(g: Grammar, s: ScanView, tok: Seq<char>) -> ScanView {
    if s.error is Some {
        s
    } else if s.pending is Some {
        if is_option_like(tok) {
            with_error(s, CliErrorView::MissingValue(option_name(s.pending->0.id)))
        } else {
            record_value(s, s.pending->0, tok)
        }
    } else if s.only_positional {
        add_positional(g, s, tok)
    } else if tok.len() == 2 && tok[0] == '-' && tok[1] == '-' {
        ScanView { only_positional: true, ..s }
    } else if tok.len() > 2 && tok[0] == '-' && tok[1] == '-' {
        scan_long(g, s, tok)
    } else if is_option_like(tok) {
        scan_short(g, s, tok)
    } else {
        add_positional(g, s, tok)
    }
}

/// The scan of a subcommand's arguments.
pub open spec fn scan(g: Grammar, toks: Seq<Seq<char>>) -> ScanView
    decreases toks.len(),
{
    if toks.len() == 0 {
        scan_start()
    } else {
        scan_step(g, scan(g, toks.drop_last()), toks.last())
    }
}

/// The scan, with an option left without its value turned into an error.
pub open spec fn scanned(g: Grammar, toks: Seq<Seq<char>>) -> ScanView {
    let s = scan(g, toks);
    if s.error is None && s.pending is Some {
        with_error(s, CliErrorView::MissingValue(option_name(s.pending->0.id)))
    } else {
        s
    }
}

/// The first value given for option `id`.
pub open spec fn first_value(values: Seq<(u8, Seq<char>)>, id: u8) -> Option<Seq<char>>
    decreases values.len(),
{
    if values.len() == 0 {
        None
    } else if values[0].0 == id {
        Some(values[0].1)
    } else {
        first_value(values.drop_first(), id)
    }
}

/// Every value given for option `id`, in order.
pub open spec fn all_values(values: Seq<(u8, Seq<char>)>, id: u8) -> Seq<Seq<char>>
    decreases values.len(),
{
    if values.len() == 0 {
        Seq::empty()
    } else {
        let r = all_values(values.drop_last(), id);
        if values.last().0 == id { r.push(values.last().1) } else { r }
    }
}

/// The state of a scan.
pub struct ScanState {
    pub values: Vec<(u8, String)>,
    pub flags: Vec<u8>,
    pub positionals: Vec<String>,
    pub pending: Option<OptSpec>,
    pub only_positional: bool,
    pub error: Option<CliError>,
}

pub open spec fn values_view(v: Seq<(u8, String)>) -> Seq<(u8, Seq<char>)> {
    v.map_values(|p: (u8, String)| (p.0, p.1@))
}

pub open spec fn opt_error_view(e: Option<CliError>) -> Option<CliErrorView> {
    match e {
        Some(x) => Some(x@),
        None => None,
    }
}

impl View for ScanState {
    type V = ScanView;

    open spec fn view(&self) -> ScanView {
        ScanView {
            values: values_view(self.values@),
            flags: self.flags@,
            positionals: strings_view(self.positionals@),
            pending: self.pending,
            only_positional: self.only_positional,
            error: opt_error_view(self.error),
        }
    }
}

/// Whether a value was recorded for option `id`.
fn has_value_exec(values: &Vec<(u8, String)>, id: u8) -> (r: bool)
    ensures
        r == has_value(values_view(values@), id),
{
    let mut i: usize = 0;
    while i < values.len()
        invariant
            i <= values@.len(),
            forall|k: int| 0 <= k < i ==> values@[k].0 != id,
        decreases values@.len() - i,
    {
        if values[i].0 == id {
            proof {
                assert(values_view(values@)[i as int].0 == id);
            }
            return true;
        }
        i = i + 1;
    }
    proof {
        assert forall|k: int| 0 <= k < values_view(values@).len() implies #[trigger] values_view(values@)[k].0 != id by {
            assert(values_view(values@)[k].0 == values@[k].0);
        }
    }
    false
}

/// Whether `flags` holds `id`.
pub fn has_flag_exec(flags: &Vec<u8>, id: u8) -> (r: bool)
    ensures
        r == flags@.contains(id),
{
    let mut i: usize = 0;
    while i < flags.len()
        invariant
            i <= flags@.len(),
            forall|k: int| 0 <= k < i ==> flags@[k] != id,
        decreases flags@.len() - i,
    {
        if flags[i] == id {
            return true;
        }
        i = i + 1;
    }
    false
}

proof fn lemma_digits_prefix(s: Seq<char>, i: int)
    requires
        0 <= i <= s.len(),
        all_digits(s),
    ensures
        digits_value(s.take(i)) <= digits_value(s),
    decreases s.len(),
{
    if i < s.len() {
        assert(s.drop_last().take(i) =~= s.take(i));
        assert(all_digits(s.drop_last())) by {
            assert forall|k: int| 0 <= k < s.drop_last().len() implies '0' <= #[trigger] s.drop_last()[k] <= '9' by {
                assert(s.drop_last()[k] == s[k]);
            }
        }
        lemma_digits_prefix(s.drop_last(), i);
    } else {
        assert(s.take(i) =~= s);
    }
}

/// Reads a number as an integer option does; `None` where `parse_bounded` refuses it.
pub fn parse_number(s: &str, max: u64) -> (r: Option<u64>)
    requires
        max <= 0xFFFF_FFFF,
    ensures
        match r {
            Some(n) => parse_bounded(s@, max as nat) == Some(n as nat),
            None => parse_bounded(s@, max as nat) is None,
        },
{
    let v = chars_of(s);
    let n = v.len();
    if n == 0 {
        return None;
    }
    let signed = v[0] == '+' || v[0] == '-';
    let start: usize = if signed { 1 } else { 0 };
    let ghost body = if signed { v@.drop_first() } else { v@ };
    proof {
        assert(body =~= v@.skip(start as int));
    }
    if start == n {
        return None;
    }
    let mut acc: u64 = 0;
    let mut i: usize = start;
    while i < n
        invariant
            n == v@.len(),
            v@ == s@,
            n > 0,
            signed == (v@[0] == '+' || v@[0] == '-'),
            start == (if signed { 1usize } else { 0usize }),
            body == (if signed { v@.drop_first() } else { v@ }),
            start <= i <= n,
            body =~= v@.skip(start as int),
            acc <= max <= 0xFFFF_FFFF,
            acc == digits_value(body.take(i - start)),
            all_digits(body.take(i - start)),
        decreases n - i,
    {
        let c = v[i];
        if c < '0' || c > '9' {
            proof {
                assert(body[i - start] == c);
                assert(!all_digits(body));
            }
            return None;
        }
        let d = (c as u64) - ('0' as u64);
        proof {
            assert(body.take(i - start + 1).drop_last() =~= body.take(i - start));
            assert(body.take(i - start + 1).last() == c);
            assert(all_digits(body.take(i - start + 1))) by {
                assert forall|k: int| 0 <= k < body.take(i - start + 1).len() implies '0' <= #[trigger] body.take(i - start + 1)[k] <= '9' by {
                    if k < i - start {
                        assert(body.take(i - start + 1)[k] == body.take(i - start)[k]);
                    }
                }
            }
        }
        if acc * 10 + d > max {
            proof {
                if all_digits(body) {
                    lemma_digits_prefix(body, i - start + 1);
                }
            }
            return None;
        }
        acc = acc * 10 + d;
        i = i + 1;
    }
    proof {
        assert(body.take(i - start) =~= body);
    }
    if v[0] == '-' && acc != 0 {
        return None;
    }
    Some(acc)
}

/// Index of the first `c` in `v` at or after `from`.
fn index_of_char(v: &Vec<char>, from: usize, c: char) -> (r: Option<usize>)
    requires
        from <= v@.len(),
    ensures
        match r {
            Some(e) => from <= e < v@.len() && first_index_of(v@.skip(from as int), c) == e - from,
            None => first_index_of(v@.skip(from as int), c) == -1,
        },
{
    let mut i = from;
    while i < v.len()
        invariant
            from <= i <= v@.len(),
            forall|k: int| from <= k < i ==> v@[k] != c,
        decreases v@.len() - i,
    {
        if v[i] == c {
            proof {
                lemma_first_index_of(v@.skip(from as int), c, i - from);
            }
            return Some(i);
        }
        i = i + 1;
    }
    proof {
        lemma_first_index_of(v@.skip(from as int), c, i - from);
    }
    None
}

fn value_ok_exec(id: u8, v: &String) -> (r: bool)
    ensures
        r == value_ok(id, v@),
{
    if id == OPT_PORT {
        parse_number(v.as_str(), 0xFFFF).is_some()
    } else if id == OPT_TIMEOUT {
        parse_number(v.as_str(), 0xFFFF_FFFF).is_some()
    } else {
        true
    }
}

fn record_value_exec(st: &mut ScanState, o: OptSpec, v: String)
    ensures
        final(st)@ == record_value(old(st)@, o, v@),
{
    if !o.multiple && has_value_exec(&st.values, o.id) {
        st.error = Some(CliError::DuplicateArgument(option_name_exec(o.id)));
    } else if !value_ok_exec(o.id, &v) {
        st.error = Some(CliError::InvalidValue(v));
    } else {
        let ghost old_values = st.values@;
        st.values.push((o.id, v));
        st.pending = None;
        proof {
            assert(values_view(st.values@) =~= values_view(old_values).push((o.id, v@)));
        }
    }
}

fn record_flag_exec(st: &mut ScanState, o: OptSpec)
    ensures
        final(st)@ == record_flag(old(st)@, o),
{
    if has_flag_exec(&st.flags, o.id) {
        st.error = Some(CliError::DuplicateArgument(option_name_exec(o.id)));
    } else {
        st.flags.push(o.id);
    }
}

fn add_positional_exec(g: Grammar, st: &mut ScanState, tok: String)
    ensures
        final(st)@ == add_positional(g, old(st)@, tok@),
{
    let ghost old_pos = st.positionals@;
    match positional_capacity_exec(g) {
        None => {
            st.positionals.push(tok);
            st.only_positional = true;
            proof {
                assert(strings_view(st.positionals@) =~= strings_view(old_pos).push(tok@));
            }
        },
        Some(n) => {
            if st.positionals.len() < n {
                st.positionals.push(tok);
                proof {
                    assert(strings_view(st.positionals@) =~= strings_view(old_pos).push(tok@));
                }
            } else {
                st.error = Some(CliError::UnknownArgument(tok));
            }
        },
    }
}

fn unknown_option_exec(g: Grammar, st: &mut ScanState, tok: String)
    ensures
        final(st)@ == unknown_option(g, old(st)@, tok@),
{
    if g == Grammar::Pop(SubcommandKind::Launch) {
        add_positional_exec(g, st, tok);
    } else {
        st.error = Some(CliError::UnknownArgument(tok));
    }
}

fn scan_long_exec(g: Grammar, st: &mut ScanState, tok: &String, v: &Vec<char>)
    requires
        v@ == tok@,
        v@.len() > 2,
    ensures
        final(st)@ == scan_long(g, old(st)@, tok@),
{
    let n = v.len();
    let eq = index_of_char(v, 2, '=');
    let name_end = match eq {
        Some(e) => e,
        None => n,
    };
    let name = string_of_chars(v, 2, name_end);
    proof {
        let body = tok@.skip(2);
        assert(body =~= v@.skip(2));
        match eq {
            Some(e) => {
                assert(body.take(e - 2) =~= v@.subrange(2, e as int));
                assert(body.skip(e - 2 + 1) =~= v@.subrange(e + 1, n as int));
            },
            None => {
                assert(body =~= v@.subrange(2, n as int));
            },
        }
    }
    match lookup_grammar_long(g, name.as_str()) {
        None => {
            if str_eq(name.as_str(), "help") {
                st.error = Some(CliError::Help);
            } else if g == Grammar::CtlTop && str_eq(name.as_str(), "version") {
                st.error = Some(CliError::Version);
            } else {
                unknown_option_exec(g, st, tok.clone());
            }
        },
        Some(o) => {
            if o.takes_value {
                match eq {
                    None => {
                        st.pending = Some(o);
                    },
                    Some(e) => {
                        let value = string_of_chars(v, e + 1, n);
                        record_value_exec(st, o, value);
                    },
                }
            } else {
                match eq {
                    None => {
                        record_flag_exec(st, o);
                    },
                    Some(_) => {
                        st.error = Some(CliError::InvalidValue(tok.clone()));
                    },
                }
            }
        },
    }
}

fn scan_short_exec(g: Grammar, st: &mut ScanState, tok: &String, v: &Vec<char>)
    requires
        v@ == tok@,
        v@.len() >= 2,
    ensures
        final(st)@ == scan_short(g, old(st)@, tok@),
{
    let n = v.len();
    match lookup_grammar_short(g, v[1]) {
        None => {
            if n == 2 && v[1] == 'h' {
                st.error = Some(CliError::Help);
            } else if g == Grammar::CtlTop && n == 2 && v[1] == 'V' {
                st.error = Some(CliError::Version);
            } else {
                unknown_option_exec(g, st, tok.clone());
            }
        },
        Some(o) => {
            if o.takes_value {
                if n == 2 {
                    st.pending = Some(o);
                } else if v[2] == '=' {
                    let value = string_of_chars(v, 3, n);
                    proof {
                        assert(tok@.skip(3) =~= v@.subrange(3, n as int));
                    }
                    record_value_exec(st, o, value);
                } else {
                    let value = string_of_chars(v, 2, n);
                    proof {
                        assert(tok@.skip(2) =~= v@.subrange(2, n as int));
                    }
                    record_value_exec(st, o, value);
                }
            } else if n == 2 {
                record_flag_exec(st, o);
            } else {
                st.error = Some(CliError::UnknownArgument(tok.clone()));
            }
        },
    }
}

/// Takes one argument of a subcommand into the scan.
pub fn scan_step_exec(g: Grammar, st: &mut ScanState, tok: &String)
    ensures
        final(st)@ == scan_step(g, old(st)@, tok@),
{
    if st.error.is_some() {
        return;
    }
    let v = chars_of(tok.as_str());
    let n = v.len();
    match st.pending {
        Some(o) => {
            if n >= 2 && v[0] == '-' {
                st.error = Some(CliError::MissingValue(option_name_exec(o.id)));
            } else {
                record_value_exec(st, o, tok.clone());
            }
            return;
        },
        None => {},
    }
    if st.only_positional {
        add_positional_exec(g, st, tok.clone());
    } else if n == 2 && v[0] == '-' && v[1] == '-' {
        st.only_positional = true;
    } else if n > 2 && v[0] == '-' && v[1] == '-' {
        scan_long_exec(g, st, tok, &v);
    } else if n >= 2 && v[0] == '-' {
        scan_short_exec(g, st, tok, &v);
    } else {
        add_positional_exec(g, st, tok.clone());
    }
}

/// Scans the arguments `toks[from..]` of a subcommand.
pub fn scan_tokens(g: Grammar, toks: &Vec<String>, from: usize) -> (st: ScanState)
    requires
        from <= toks@.len(),
    ensures
        st@ == scanned(g, strings_view(toks@).skip(from as int)),
{
    let mut st = ScanState {
        values: Vec::new(),
        flags: Vec::new(),
        positionals: Vec::new(),
        pending: None,
        only_positional: false,
        error: None,
    };
    proof {
        assert(values_view(st.values@) =~= Seq::empty());
        assert(strings_view(st.positionals@) =~= Seq::empty());
        assert(strings_view(toks@).subrange(from as int, from as int) =~= Seq::empty());
    }
    let mut i = from;
    while i < toks.len()
        invariant
            from <= i <= toks@.len(),
            st@ == scan(g, strings_view(toks@).subrange(from as int, i as int)),
        decreases toks@.len() - i,
    {
        proof {
            let t = strings_view(toks@).subrange(from as int, i + 1);
            assert(t.drop_last() =~= strings_view(toks@).subrange(from as int, i as int));
            assert(t.last() == toks@[i as int]@);
        }
        scan_step_exec(g, &mut st, &toks[i]);
        i = i + 1;
    }
    proof {
        assert(strings_view(toks@).subrange(from as int, i as int) =~= strings_view(toks@).skip(from as int));
    }
    if st.error.is_none() {
        match st.pending {
            Some(o) => {
                st.error = Some(CliError::MissingValue(option_name_exec(o.id)));
            },
            None => {},
        }
    }
    st
}

/// The first value given for option `id`.
pub fn first_value_exec(values: &Vec<(u8, String)>, id: u8) -> (r: Option<String>)
    ensures
        opt_view_eq(r, first_value(values_view(values@), id)),
{
    let mut i: usize = 0;
    proof {
        assert(values_view(values@).skip(0) =~= values_view(values@));
    }
    while i < values.len()
        invariant
            i <= values@.len(),
            first_value(values_view(values@), id) == first_value(values_view(values@).skip(i as int), id),
        decreases values@.len() - i,
    {
        proof {
            assert(values_view(values@).skip(i as int).drop_first() =~= values_view(values@).skip(i + 1));
            assert(values_view(values@).skip(i as int)[0] == values_view(values@)[i as int]);
        }
        if values[i].0 == id {
            return Some(values[i].1.clone());
        }
        i = i + 1;
    }
    proof {
        assert(values_view(values@).skip(i as int).len() == 0);
    }
    None
}

/// `r` holds a string with view `o`'s contents, or is `None` with it.
pub open spec fn opt_view_eq(r: Option<String>, o: Option<Seq<char>>) -> bool {
    match r {
        Some(s) => o == Some(s@),
        None => o is None,
    }
}

/// Every value given for option `id`, in order.
pub fn all_values_exec(values: &Vec<(u8, String)>, id: u8) -> (r: Vec<String>)
    ensures
        strings_view(r@) == all_values(values_view(values@), id),
{
    let mut r: Vec<String> = Vec::new();
    let mut i: usize = 0;
    proof {
        assert(values_view(values@).take(0) =~= Seq::empty());
        assert(strings_view(r@) =~= Seq::empty());
    }
    while i < values.len()
        invariant
            i <= values@.len(),
            strings_view(r@) == all_values(values_view(values@).take(i as int), id),
        decreases values@.len() - i,
    {
        let ghost before = r@;
        proof {
            let t = values_view(values@).take(i + 1);
            assert(t.drop_last() =~= values_view(values@).take(i as int));
            assert(t.last() == values_view(values@)[i as int]);
        }
        if values[i].0 == id {
            r.push(values[i].1.clone());
            proof {
                assert(strings_view(r@) =~= strings_view(before).push(values@[i as int].1@));
            }
        }
        i = i + 1;
    }
    proof {
        assert(values_view(values@).take(i as int) =~= values_view(values@));
    }
    r
}

/// Words that none reads as an option.
pub open spec fn plain_words(ws: Seq<Seq<char>>) -> bool {
    forall|i: int| 0 <= i < ws.len() ==> !(#[trigger] ws[i].len() > 0 && ws[i][0] == '-')
}

/// `launch` takes plain words as the words of its positional pipeline.
pub proof fn lemma_launch_scans_plain_words(ws: Seq<Seq<char>>)
    requires
        plain_words(ws),
    ensures
        scan(Grammar::Pop(SubcommandKind::Launch), ws).error is None,
        scan(Grammar::Pop(SubcommandKind::Launch), ws).pending is None,
        scan(Grammar::Pop(SubcommandKind::Launch), ws).values.len() == 0,
        scan(Grammar::Pop(SubcommandKind::Launch), ws).flags.len() == 0,
        scan(Grammar::Pop(SubcommandKind::Launch), ws).positionals == ws,
        ws.len() > 0 ==> scan(Grammar::Pop(SubcommandKind::Launch), ws).only_positional,
    decreases ws.len(),
{
    if ws.len() > 0 {
        assert(plain_words(ws.drop_last())) by {
            assert forall|i: int| 0 <= i < ws.drop_last().len() implies !(#[trigger] ws.drop_last()[i].len() > 0
                && ws.drop_last()[i][0] == '-') by {
                assert(ws.drop_last()[i] == ws[i]);
            }
        }
        lemma_launch_scans_plain_words(ws.drop_last());
        let last = ws[ws.len() - 1];
        assert(!(last.len() > 0 && last[0] == '-'));
        assert(ws.drop_last().push(ws.last()) =~= ws);
    }
}

} // verus!

verus! {

/// Every value a scan records is one its option accepts.
pub open spec fn values_accepted(values: Seq<(u8, Seq<char>)>) -> bool {
    forall|k: int| 0 <= k < values.len() ==> value_ok(#[trigger] values[k].0, values[k].1)
}

pub proof fn lemma_scan_values_accepted(g: Grammar, toks: Seq<Seq<char>>)
    ensures
        values_accepted(scan(g, toks).values),
        values_accepted(scanned(g, toks).values),
    decreases toks.len(),
{
    if toks.len() > 0 {
        lemma_scan_values_accepted(g, toks.drop_last());
        let s = scan(g, toks.drop_last());
        let t = scan(g, toks);
        assert(values_accepted(t.values)) by {
            assert forall|k: int| 0 <= k < t.values.len() implies value_ok(#[trigger] t.values[k].0, t.values[k].1) by {
                if k < s.values.len() {
                    assert(t.values[k] == s.values[k]);
                }
            }
        }
    }
}

/// The first value given for an option is one of the values.
pub proof fn lemma_first_value_in(values: Seq<(u8, Seq<char>)>, id: u8)
    ensures
        first_value(values, id) matches Some(v) ==> exists|k: int| 0 <= k < values.len() && #[trigger] values[k] == (id, v),
    decreases values.len(),
{
    if values.len() > 0 && values[0].0 != id {
        lemma_first_value_in(values.drop_first(), id);
        if let Some(v) = first_value(values, id) {
            let k = choose|k: int| 0 <= k < values.drop_first().len() && #[trigger] values.drop_first()[k] == (id, v);
            assert(values[k + 1] == (id, v));
        }
    } else if values.len() > 0 {
        assert(values[0] == (id, values[0].1));
    }
}

} // verus!
