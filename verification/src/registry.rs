//! Element listings of the GStreamer registry: detail levels, the information given of an
//! element factory at each level, and the ordering of the listing by name.

use vstd::prelude::*;
use vstd::string::*;
use vstd::multiset::Multiset;
use crate::text::{chars_of, opt_view, string_from};

verus! {

/// Detail level for element information.
#[derive(Debug, Clone, Copy, PartialEq, Eq, PartialOrd, Ord, Structural)]
pub enum DetailLevel {
    /// Only name and plugin_name (the level named `none`).
    NameOnly,
    /// Adds long_name, klass, description, author, rank.
    Summary,
    /// Adds pad_templates.
    Full,
}

impl DetailLevel {
    /// The position of the level in the order NameOnly < Summary < Full.
    pub open spec fn rank(self) -> int {
        match self {
            DetailLevel::NameOnly => 0,
            DetailLevel::Summary => 1,
            DetailLevel::Full => 2,
        }
    }

    /// The level's name.
    pub open spec fn name(self) -> Seq<char> {
        match self {
            DetailLevel::NameOnly => "none"@,
            DetailLevel::Summary => "summary"@,
            DetailLevel::Full => "full"@,
        }
    }

    pub fn level(&self) -> (r: u8)
        ensures
            r as int == self.rank(),
    {
        match self {
            DetailLevel::NameOnly => 0,
            DetailLevel::Summary => 1,
            DetailLevel::Full => 2,
        }
    }

    /// Whether `self` gives at least as much detail as `other`.
    pub fn at_least(&self, other: DetailLevel) -> (r: bool)
        ensures
            r == (self.rank() >= other.rank()),
    {
        self.level() >= other.level()
    }

    /// The larger of two levels.
    pub fn max_level(self, other: DetailLevel) -> (r: DetailLevel)
        ensures
            r.rank() == if self.rank() >= other.rank() { self.rank() } else { other.rank() },
            r == self || r == other,
    {
        if self.level() >= other.level() { self } else { other }
    }

    /// Parses a detail level name.
    pub fn parse(s: &str) -> (r: Result<DetailLevel, String>)
        ensures
            r is Ok ==> r->Ok_0.name() == s@,
            r is Err ==> (forall|d: DetailLevel| #[trigger] d.name() != s@)
                && r->Err_0@ == "Invalid detail level: '"@ + s@ + "'. Expected 'none', 'summary', or 'full'"@,
    {
        let v = string_from(s);
        if v == string_from("none") {
            Ok(DetailLevel::NameOnly)
        } else if v == string_from("summary") {
            Ok(DetailLevel::Summary)
        } else if v == string_from("full") {
            Ok(DetailLevel::Full)
        } else {
            proof {
                assert forall|d: DetailLevel| #[trigger] d.name() != s@ by {
                    match d {
                        DetailLevel::NameOnly => {},
                        DetailLevel::Summary => {},
                        DetailLevel::Full => {},
                    }
                }
            }
            let mut e = string_from("Invalid detail level: '");
            e.append(s);
            e.append("'. Expected 'none', 'summary', or 'full'");
            Err(e)
        }
    }
}

impl std::str::FromStr for DetailLevel {
    type Err = String;

    fn from_str(s: &str) -> (r: Result<Self, Self::Err>)
        ensures
            r is Ok ==> r->Ok_0.name() == s@,
            r is Err ==> (forall|d: DetailLevel| #[trigger] d.name() != s@)
                && r->Err_0@ == "Invalid detail level: '"@ + s@ + "'. Expected 'none', 'summary', or 'full'"@,
    {
        DetailLevel::parse(s)
    }
}

/// Information about a pad template.
#[derive(Debug, Clone)]
pub struct PadTemplateInfo {
    pub name: String,
    pub direction: String,
    pub presence: String,
    pub caps: String,
}

/// Information about a GStreamer element factory.
#[derive(Debug, Clone)]
pub struct ElementInfo {
    pub name: String,
    pub plugin_name: String,
    pub long_name: Option<String>,
    pub klass: Option<String>,
    pub description: Option<String>,
    pub author: Option<String>,
    pub rank: Option<i32>,
    pub pad_templates: Option<Vec<PadTemplateInfo>>,
}

/// Direction of a pad template.
#[derive(Debug, Clone, Copy, PartialEq, Eq, Structural)]
pub enum PadDirection {
    Src,
    Sink,
    Unknown,
}

/// Presence of a pad template.
#[derive(Debug, Clone, Copy, PartialEq, Eq, Structural)]
pub enum PadPresence {
    Always,
    Sometimes,
    Request,
}

/// A static pad template as read from a factory.
#[derive(Debug, Clone)]
pub struct PadTemplateData {
    pub name_template: String,
    pub direction: PadDirection,
    pub presence: PadPresence,
    pub caps: String,
}

/// What is read of an element factory: its name, its plugin's name, its metadata, its rank
/// and its static pad templates.
#[derive(Debug, Clone)]
pub struct FactoryData {
    pub name: String,
    pub plugin_name: Option<String>,
    pub long_name: Option<String>,
    pub klass: Option<String>,
    pub description: Option<String>,
    pub author: Option<String>,
    pub rank: i32,
    pub pad_templates: Vec<PadTemplateData>,
}

impl PadDirection {
    pub open spec fn name(self) -> Seq<char> {
        match self {
            PadDirection::Src => "src"@,
            PadDirection::Sink => "sink"@,
            PadDirection::Unknown => "unknown"@,
        }
    }
}

impl PadPresence {
    pub open spec fn name(self) -> Seq<char> {
        match self {
            PadPresence::Always => "always"@,
            PadPresence::Sometimes => "sometimes"@,
            PadPresence::Request => "request"@,
        }
    }
}

/// A metadata entry, or the empty string when the factory has none.
pub open spec fn or_empty(o: Option<String>) -> Seq<char> {
    match o {
        Some(s) => s@,
        None => Seq::empty(),
    }
}

/// The pad template info describes the template data.
pub open spec fn describes_pad(p: PadTemplateInfo, d: PadTemplateData) -> bool {
    &&& p.name@ == d.name_template@
    &&& p.direction@ == d.direction.name()
    &&& p.presence@ == d.presence.name()
    &&& p.caps@ == d.caps@
}

/// The element info gives of the factory what `detail` asks for: always the name and
/// plugin name; from Summary on the metadata and rank; at Full the pad templates.
pub open spec fn describes_element(e: ElementInfo, f: FactoryData, detail: DetailLevel) -> bool {
    &&& e.name@ == f.name@
    &&& e.plugin_name@ == or_empty(f.plugin_name)
    &&& if detail.rank() >= 1 {
        &&& opt_view(e.long_name) == Some(or_empty(f.long_name))
        &&& opt_view(e.klass) == Some(or_empty(f.klass))
        &&& opt_view(e.description) == Some(or_empty(f.description))
        &&& opt_view(e.author) == Some(or_empty(f.author))
        &&& e.rank == Some(f.rank)
    } else {
        &&& e.long_name is None
        &&& e.klass is None
        &&& e.description is None
        &&& e.author is None
        &&& e.rank is None
    }
    &&& if detail.rank() >= 2 {
        &&& e.pad_templates is Some
        &&& e.pad_templates->0@.len() == f.pad_templates@.len()
        &&& forall|i: int| 0 <= i < f.pad_templates@.len() ==> describes_pad(#[trigger] e.pad_templates->0@[i], f.pad_templates@[i])
    } else {
        e.pad_templates is None
    }
}

/// At full detail each pad template's texts say what the factory's template is: its
/// presence reads `always`, `sometimes` or `request` exactly when the template is always
/// present, present sometimes or made on request, and its direction reads `src` or `sink`
/// exactly when it is a source or a sink pad.
pub proof fn lemma_pad_texts_name_the_template(e: ElementInfo, f: FactoryData, i: int)
    requires
        describes_element(e, f, DetailLevel::Full),
        0 <= i < f.pad_templates@.len(),
    ensures
        e.pad_templates->0@[i].presence@ == "always"@ <==> f.pad_templates@[i].presence == PadPresence::Always,
        e.pad_templates->0@[i].presence@ == "sometimes"@ <==> f.pad_templates@[i].presence == PadPresence::Sometimes,
        e.pad_templates->0@[i].presence@ == "request"@ <==> f.pad_templates@[i].presence == PadPresence::Request,
        e.pad_templates->0@[i].direction@ == "src"@ <==> f.pad_templates@[i].direction == PadDirection::Src,
        e.pad_templates->0@[i].direction@ == "sink"@ <==> f.pad_templates@[i].direction == PadDirection::Sink,
{
    reveal_strlit("always");
    reveal_strlit("sometimes");
    reveal_strlit("request");
    reveal_strlit("src");
    reveal_strlit("sink");
    reveal_strlit("unknown");
    assert(DetailLevel::Full.rank() >= 2);
    let p = e.pad_templates->0@[i];
    let d = f.pad_templates@[i];
    assert(describes_pad(p, d));
    assert("always"@[0] != "sometimes"@[0] && "always"@[0] != "request"@[0] && "sometimes"@[0] != "request"@[0]);
    assert("src"@[1] != "sink"@[1] && "src"@[0] != "unknown"@[0] && "sink"@[0] != "unknown"@[0]);
}

fn text_or_empty(o: &Option<String>) -> (r: String)
    ensures
        r@ == or_empty(*o),
{
    match o {
        Some(s) => s.clone(),
        None => String::new(),
    }
}

fn direction_name(d: PadDirection) -> (r: String)
    ensures
        r@ == d.name(),
{
    match d {
        PadDirection::Src => string_from("src"),
        PadDirection::Sink => string_from("sink"),
        PadDirection::Unknown => string_from("unknown"),
    }
}

fn presence_name(p: PadPresence) -> (r: String)
    ensures
        r@ == p.name(),
{
    match p {
        PadPresence::Always => string_from("always"),
        PadPresence::Sometimes => string_from("sometimes"),
        PadPresence::Request => string_from("request"),
    }
}

/// Builds the information given of an element factory at a detail level.
pub fn build_element_info(factory: &FactoryData, detail: DetailLevel) -> (r: ElementInfo)
    ensures
        describes_element(r, *factory, detail),
{
    let name = factory.name.clone();
    let plugin_name = text_or_empty(&factory.plugin_name);
    let summary = detail.at_least(DetailLevel::Summary);
    let (long_name, klass, description, author, rank) = if summary {
        (
            Some(text_or_empty(&factory.long_name)),
            Some(text_or_empty(&factory.klass)),
            Some(text_or_empty(&factory.description)),
            Some(text_or_empty(&factory.author)),
            Some(factory.rank),
        )
    } else {
        (None, None, None, None, None)
    };
    let pad_templates = if detail.at_least(DetailLevel::Full) {
        let mut pads: Vec<PadTemplateInfo> = Vec::new();
        let mut i: usize = 0;
        while i < factory.pad_templates.len()
            invariant
                i <= factory.pad_templates@.len(),
                pads@.len() == i,
                forall|k: int| 0 <= k < i ==> describes_pad(#[trigger] pads@[k], factory.pad_templates@[k]),
            decreases factory.pad_templates@.len() - i,
        {
            let t = &factory.pad_templates[i];
            pads.push(PadTemplateInfo {
                name: t.name_template.clone(),
                direction: direction_name(t.direction),
                presence: presence_name(t.presence),
                caps: t.caps.clone(),
            });
            i = i + 1;
        }
        Some(pads)
    } else {
        None
    };
    ElementInfo { name, plugin_name, long_name, klass, description, author, rank, pad_templates }
}

/// `a` comes strictly before `b` in lexicographic order of code points (the order of `str`).
pub open spec fn text_lt(a: Seq<char>, b: Seq<char>) -> bool
    decreases a.len(),
{
    if a.len() == 0 {
        b.len() > 0
    } else if b.len() == 0 {
        false
    } else if (a[0] as int) < (b[0] as int) {
        true
    } else if (a[0] as int) > (b[0] as int) {
        false
    } else {
        text_lt(a.drop_first(), b.drop_first())
    }
}

/// `a` comes no later than `b`.
pub open spec fn text_le(a: Seq<char>, b: Seq<char>) -> bool {
    !text_lt(b, a)
}

pub proof fn lemma_text_lt_trans(a: Seq<char>, b: Seq<char>, c: Seq<char>)
    requires
        text_lt(a, b),
        text_lt(b, c),
    ensures
        text_lt(a, c),
    decreases a.len(),
{
    if a.len() > 0 && b.len() > 0 && c.len() > 0 && a[0] == b[0] && b[0] == c[0] {
        lemma_text_lt_trans(a.drop_first(), b.drop_first(), c.drop_first());
    }
}

pub proof fn lemma_text_total(a: Seq<char>, b: Seq<char>)
    ensures
        text_lt(a, b) || a == b || text_lt(b, a),
    decreases a.len(),
{
    if a.len() > 0 && b.len() > 0 && a[0] == b[0] {
        lemma_text_total(a.drop_first(), b.drop_first());
        if a.drop_first() == b.drop_first() {
            assert(a =~= seq![a[0]] + a.drop_first());
            assert(b =~= seq![b[0]] + b.drop_first());
        }
    } else if a.len() == 0 && b.len() == 0 {
        assert(a =~= b);
    }
}

pub proof fn lemma_text_lt_irreflexive(a: Seq<char>)
    ensures
        !text_lt(a, a),
    decreases a.len(),
{
    if a.len() > 0 {
        lemma_text_lt_irreflexive(a.drop_first());
    }
}

/// The text order is a strict total order.
pub proof fn lemma_text_order(a: Seq<char>, b: Seq<char>, c: Seq<char>)
    ensures
        !text_lt(a, a),
        text_lt(a, b) || a == b || text_lt(b, a),
        text_lt(a, b) && text_lt(b, c) ==> text_lt(a, c),
{
    lemma_text_lt_irreflexive(a);
    lemma_text_total(a, b);
    if text_lt(a, b) && text_lt(b, c) {
        lemma_text_lt_trans(a, b, c);
    }
}

/// Whether `a` comes strictly before `b`.
pub fn str_lt(a: &str, b: &str) -> (r: bool)
    ensures
        r == text_lt(a@, b@),
{
    let x = chars_of(a);
    let y = chars_of(b);
    let mut i: usize = 0;
    proof {
        assert(a@.skip(0) =~= a@);
        assert(b@.skip(0) =~= b@);
    }
    while i < x.len() && i < y.len()
        invariant
            x@ == a@,
            y@ == b@,
            i <= x@.len(),
            i <= y@.len(),
            text_lt(a@, b@) == text_lt(a@.skip(i as int), b@.skip(i as int)),
        decreases x@.len() - i,
    {
        proof {
            assert(a@.skip(i as int)[0] == x@[i as int]);
            assert(b@.skip(i as int)[0] == y@[i as int]);
            assert(a@.skip(i as int).drop_first() =~= a@.skip(i + 1));
            assert(b@.skip(i as int).drop_first() =~= b@.skip(i + 1));
        }
        if x[i] < y[i] {
            return true;
        }
        if x[i] > y[i] {
            return false;
        }
        i = i + 1;
    }
    proof {
        assert(a@.skip(i as int).len() == x@.len() - i);
        assert(b@.skip(i as int).len() == y@.len() - i);
    }
    i == x.len() && i < y.len()
}

/// The names are in non-decreasing order.
pub open spec fn sorted_by_name(s: Seq<ElementInfo>) -> bool {
    forall|i: int, j: int| 0 <= i < j < s.len() ==> text_le(#[trigger] s[i].name@, #[trigger] s[j].name@)
}

fn insert_sorted(r: &mut Vec<ElementInfo>, e: ElementInfo)
    requires
        sorted_by_name(old(r)@),
    ensures
        sorted_by_name(final(r)@),
        final(r)@.to_multiset() == old(r)@.to_multiset().insert(e),
{
    let mut p: usize = 0;
    while p < r.len() && !str_lt(e.name.as_str(), r[p].name.as_str())
        invariant
            p <= r@.len(),
            r@ == old(r)@,
            forall|k: int| 0 <= k < p ==> text_le(#[trigger] r@[k].name@, e.name@),
        decreases r@.len() - p,
    {
        proof {
            lemma_text_total(e.name@, r@[p as int].name@);
            if e.name@ == r@[p as int].name@ {
                lemma_text_lt_irreflexive(e.name@);
            }
        }
        p = p + 1;
    }
    proof {
        let s = r@;
        assert forall|k: int| p <= k < s.len() implies text_lt(e.name@, #[trigger] s[k].name@) by {
            assert(p < s.len());
            assert(text_lt(e.name@, s[p as int].name@));
            if k > p {
                assert(text_le(s[p as int].name@, s[k].name@));
                lemma_text_total(s[p as int].name@, s[k].name@);
                if text_lt(s[p as int].name@, s[k].name@) {
                    lemma_text_lt_trans(e.name@, s[p as int].name@, s[k].name@);
                }
            }
        }
        vstd::seq_lib::to_multiset_insert(s, p as int, e);
        let t = s.insert(p as int, e);
        assert forall|i: int, j: int| 0 <= i < j < t.len() implies text_le(#[trigger] t[i].name@, #[trigger] t[j].name@) by {
            if j < p {
                assert(t[i] == s[i] && t[j] == s[j]);
            } else if j == p {
                assert(t[j] == e && t[i] == s[i]);
            } else if i < p {
                assert(t[i] == s[i] && t[j] == s[j - 1]);
                assert(text_le(s[i].name@, e.name@));
                assert(text_lt(e.name@, s[j - 1].name@));
                lemma_text_order(s[j - 1].name@, s[i].name@, e.name@);
                if text_lt(s[j - 1].name@, s[i].name@) {
                    lemma_text_total(s[i].name@, e.name@);
                    if text_lt(s[i].name@, e.name@) {
                        lemma_text_lt_trans(s[j - 1].name@, s[i].name@, e.name@);
                        lemma_text_lt_trans(e.name@, s[j - 1].name@, e.name@);
                        lemma_text_lt_irreflexive(e.name@);
                    } else {
                        lemma_text_lt_trans(e.name@, s[j - 1].name@, e.name@);
                        lemma_text_lt_irreflexive(e.name@);
                    }
                }
            } else if i == p {
                assert(t[i] == e && t[j] == s[j - 1]);
                assert(text_lt(e.name@, s[j - 1].name@));
                lemma_text_total(e.name@, s[j - 1].name@);
                if text_lt(s[j - 1].name@, e.name@) {
                    lemma_text_lt_trans(e.name@, s[j - 1].name@, e.name@);
                    lemma_text_lt_irreflexive(e.name@);
                }
            } else {
                assert(t[i] == s[i - 1] && t[j] == s[j - 1]);
            }
        }
    }
    r.insert(p, e);
}

/// Orders an element listing by name, as the registry listing is returned.
pub fn sort_by_name(elements: Vec<ElementInfo>) -> (r: Vec<ElementInfo>)
    ensures
        sorted_by_name(r@),
        r@.to_multiset() == elements@.to_multiset(),
{
    let mut rest = elements;
    let mut r: Vec<ElementInfo> = Vec::new();
    proof {
        assert(r@.to_multiset() =~= Multiset::<ElementInfo>::empty()) by {
            broadcast use vstd::seq_lib::group_to_multiset_ensures;
        }
    }
    while rest.len() > 0
        invariant
            sorted_by_name(r@),
            r@.to_multiset().add(rest@.to_multiset()) == elements@.to_multiset(),
        decreases rest@.len(),
    {
        let ghost before = rest@;
        let e = rest.remove(0);
        proof {
            vstd::seq_lib::to_multiset_remove(before, 0);
        }
        let ghost r_before = r@;
        insert_sorted(&mut r, e);
        proof {
            broadcast use vstd::multiset::group_multiset_axioms;
            assert(before.to_multiset().count(e) > 0) by {
                broadcast use vstd::seq_lib::group_to_multiset_ensures;
                assert(before[0] == e);
                assert(before.contains(e));
            }
            assert(r@.to_multiset().add(rest@.to_multiset()) =~= r_before.to_multiset().add(before.to_multiset()));
        }
    }
    proof {
        assert(rest@.to_multiset() =~= Multiset::<ElementInfo>::empty()) by {
            broadcast use vstd::seq_lib::group_to_multiset_ensures;
        }
        broadcast use vstd::multiset::group_multiset_axioms;
        assert(r@.to_multiset() =~= elements@.to_multiset());
    }
    r
}

} // verus!
