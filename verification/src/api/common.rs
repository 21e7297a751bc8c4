//! API types common to many endpoints.

use vstd::prelude::*;

verus! {

/// The HTTP method of a request.
#[derive(Debug, Clone, Copy, PartialEq, Eq, Structural)]
pub enum Method {
    /// An HTTP GET.
    Get,
    /// An HTTP POST.
    Post,
}

impl Method {
    /// The wire name of the method.
    pub fn as_str(self) -> (r: &'static str)
        ensures
            r@ == self.as_str_spec(),
    {
        match self {
            Method::Get => "GET",
            Method::Post => "POST",
        }
    }

    /// The wire name, as seen by specifications.
    pub open spec fn as_str_spec(self) -> Seq<char> {
        match self {
            Method::Get => "GET"@,
            Method::Post => "POST"@,
        }
    }
}

/// Orderings for sorted results.
#[derive(Debug, Clone, Copy, PartialEq, Eq, Structural)]
pub enum SortOrder {
    /// Results should be sorted ascending, usually by date.
    Ascending,
    /// Results should be sorted descending, usually by date.
    Descending,
}

impl Default for SortOrder {
    /// The remote service sorts descending when not told otherwise.
    fn default() -> (r: Self)
        ensures
            r == SortOrder::Descending,
    {
        SortOrder::Descending
    }
}

impl SortOrder {
    /// The string representation of the sort order.
    pub fn as_str(self) -> (r: &'static str)
        ensures
            r@ == self.as_str_spec(),
    {
        match self {
            SortOrder::Ascending => "ASC",
            SortOrder::Descending => "DESC",
        }
    }

    /// The string representation, as seen by specifications.
    pub open spec fn as_str_spec(self) -> Seq<char> {
        match self {
            SortOrder::Ascending => "ASC"@,
            SortOrder::Descending => "DESC"@,
        }
    }
}

/// Data interval for the `intraday` endpoint.
#[derive(Debug, Clone, Copy, PartialEq, Eq, Structural)]
pub enum Interval {
    /// 1min interval.
    OneMinute,
    /// 5min interval.
    FiveMinutes,
    /// 10min interval.
    TenMinutes,
    /// 15min interval.
    FifteenMinutes,
    /// 30min interval.
    ThirtyMinutes,
    /// 1hour interval.
    OneHour,
    /// 3hour interval.
    ThreeHour,
    /// 6hour interval.
    SixHour,
    /// 12hour interval.
    TwelveHour,
    /// 24hour interval.
    TwentyFourHour,
}

impl Default for Interval {
    /// The remote service uses one-hour intervals when not told otherwise.
    fn default() -> (r: Self)
        ensures
            r == Interval::OneHour,
    {
        Interval::OneHour
    }
}

impl Interval {
    /// The string representation of the interval.
    pub fn as_str(self) -> (r: &'static str)
        ensures
            r@ == self.as_str_spec(),
    {
        match self {
            Interval::OneMinute => "1min",
            Interval::FiveMinutes => "5min",
            Interval::TenMinutes => "10min",
            Interval::FifteenMinutes => "15min",
            Interval::ThirtyMinutes => "30min",
            Interval::OneHour => "1hour",
            Interval::ThreeHour => "3hour",
            Interval::SixHour => "6hour",
            Interval::TwelveHour => "12hour",
            Interval::TwentyFourHour => "24hour",
        }
    }

    /// The string representation, as seen by specifications.
    pub open spec fn as_str_spec(self) -> Seq<char> {
        match self {
            Interval::OneMinute => "1min"@,
            Interval::FiveMinutes => "5min"@,
            Interval::TenMinutes => "10min"@,
            Interval::FifteenMinutes => "15min"@,
            Interval::ThirtyMinutes => "30min"@,
            Interval::OneHour => "1hour"@,
            Interval::ThreeHour => "3hour"@,
            Interval::SixHour => "6hour"@,
            Interval::TwelveHour => "12hour"@,
            Interval::TwentyFourHour => "24hour"@,
        }
    }
}

/// Lexicographic order on character sequences, comparing code points.
pub open spec fn lex_lt(a: Seq<char>, b: Seq<char>) -> bool
    decreases a.len(),
{
    if b.len() == 0 {
        false
    } else if a.len() == 0 {
        true
    } else if a[0] == b[0] {
        lex_lt(a.drop_first(), b.drop_first())
    } else {
        (a[0] as u32) < (b[0] as u32)
    }
}

/// Of two distinct sequences, one is lexicographically below the other.
pub proof fn lemma_lex_trichotomy(a: Seq<char>, b: Seq<char>)
    ensures
        a == b || lex_lt(a, b) || lex_lt(b, a),
    decreases a.len(),
{
    if b.len() == 0 {
        if a.len() == 0 {
            assert(a =~= b);
        }
    } else if a.len() == 0 {
    } else if a[0] == b[0] {
        lemma_lex_trichotomy(a.drop_first(), b.drop_first());
        if a.drop_first() == b.drop_first() {
            assert(a.drop_first().len() == b.drop_first().len());
            assert(a.len() == b.len());
            assert forall|k: int| 0 <= k < a.len() implies a[k] == b[k] by {
                if k > 0 {
                    assert(a.drop_first()[k - 1] == a[k]);
                    assert(b.drop_first()[k - 1] == b[k]);
                }
            }
            assert(a =~= b);
        }
    } else {
        // Distinct characters have distinct code points.
        vstd::utf8::char_u32_cast(a[0], a[0] as u32);
        vstd::utf8::char_u32_cast(b[0], b[0] as u32);
        assert((a[0] as u32) != (b[0] as u32));
    }
}

/// The lexicographic order is transitive.
pub proof fn lemma_lex_transitive(a: Seq<char>, b: Seq<char>, c: Seq<char>)
    requires
        lex_lt(a, b),
        lex_lt(b, c),
    ensures
        lex_lt(a, c),
    decreases a.len(),
{
    if a.len() != 0 && b.len() != 0 && c.len() != 0 {
        vstd::utf8::char_u32_cast(a[0], a[0] as u32);
        vstd::utf8::char_u32_cast(b[0], b[0] as u32);
        vstd::utf8::char_u32_cast(c[0], c[0] as u32);
        if a[0] == b[0] && b[0] == c[0] {
            lemma_lex_transitive(a.drop_first(), b.drop_first(), c.drop_first());
        }
    }
}

/// Nothing is lexicographically below itself.
pub proof fn lemma_lex_irreflexive(a: Seq<char>)
    ensures
        !lex_lt(a, a),
    decreases a.len(),
{
    if a.len() != 0 {
        lemma_lex_irreflexive(a.drop_first());
    }
}

proof fn lemma_lex_skip_heads(a: Seq<char>, b: Seq<char>)
    requires
        a.len() != 0,
        b.len() != 0,
        a[0] == b[0],
    ensures
        lex_lt(a, b) == lex_lt(a.drop_first(), b.drop_first()),
{
}

/// Decide the lexicographic order of two strings, by code point.
fn str_lt(a: &str, b: &str) -> (r: bool)
    ensures
        r == lex_lt(a@, b@),
{
    let an = a.unicode_len();
    let bn = b.unicode_len();
    let mut i: usize = 0;
    proof {
        assert(a@.skip(0) =~= a@);
        assert(b@.skip(0) =~= b@);
    }
    while i < an && i < bn
        invariant
            an == a@.len(),
            bn == b@.len(),
            i <= an,
            i <= bn,
            lex_lt(a@, b@) == lex_lt(a@.skip(i as int), b@.skip(i as int)),
        decreases an - i,
    {
        let ca = a.get_char(i);
        let cb = b.get_char(i);
        proof {
            assert(a@.skip(i as int)[0] == ca);
            assert(b@.skip(i as int)[0] == cb);
        }
        if ca != cb {
            return (ca as u32) < (cb as u32);
        }
        proof {
            lemma_lex_skip_heads(a@.skip(i as int), b@.skip(i as int));
            assert(a@.skip(i as int).drop_first() =~= a@.skip(i + 1));
            assert(b@.skip(i as int).drop_first() =~= b@.skip(i + 1));
        }
        i = i + 1;
    }
    proof {
        assert(a@.skip(i as int).len() == an - i);
        assert(b@.skip(i as int).len() == bn - i);
    }
    an < bn
}

/// A collection of ticker symbols: duplicates are dropped, and the symbols
/// are kept in ascending lexicographic order.
#[derive(Debug, Clone, Default)]
pub struct SymbolSet {
    items: Vec<String>,
}

impl View for SymbolSet {
    type V = Seq<Seq<char>>;

    closed spec fn view(&self) -> Seq<Seq<char>> {
        self.items@.map_values(|s: String| s@)
    }
}

impl SymbolSet {
    /// The held symbols are strictly ascending (so in particular distinct).
    pub open spec fn wf(&self) -> bool {
        forall|i: int, j: int|
            0 <= i < j < self@.len() ==> lex_lt(#[trigger] self@[i], #[trigger] self@[j])
    }

    /// An empty collection.
    pub fn new() -> (r: Self)
        ensures
            r@ == Seq::<Seq<char>>::empty(),
            r.wf(),
    {
        let r = SymbolSet { items: Vec::new() };
        proof {
            assert(r@ =~= Seq::<Seq<char>>::empty());
        }
        r
    }

    /// The number of symbols held.
    pub fn len(&self) -> (r: usize)
        ensures
            r == self@.len(),
    {
        self.items.len()
    }

    /// Add one symbol at its place in the order; a symbol already held is
    /// not added again.
    pub fn insert(&mut self, sym: &str)
        requires
            old(self).wf(),
        ensures
            final(self).wf(),
            forall|s: Seq<char>|
                #[trigger] final(self)@.contains(s) <==> (old(self)@.contains(s) || s == sym@),
            old(self)@.contains(sym@) ==> final(self)@ == old(self)@,
    {
        let ghost before = self@;
        let owned = sym.to_owned();
        let n = self.items.len();
        let mut i: usize = 0;
        while i < n && str_lt(self.items[i].as_str(), owned.as_str())
            invariant
                n == self.items@.len(),
                n == before.len(),
                self@ == before,
                owned@ == sym@,
                i <= n,
                forall|j: int| 0 <= j < self@.len() ==> #[trigger] self@[j] == self.items@[j]@,
                forall|j: int| 0 <= j < i ==> lex_lt(#[trigger] before[j], sym@),
            decreases n - i,
        {
            proof {
                assert(before[i as int] == self.items@[i as int]@);
                assert(lex_lt(before[i as int], sym@));
            }
            i = i + 1;
        }
        if i < n && self.items[i].eq(&owned) {
            proof {
                assert(before[i as int] == self.items@[i as int]@);
                assert(before[i as int] == sym@);
                assert(before.contains(sym@));
                assert forall|s: Seq<char>| #[trigger] self@.contains(s) <==> (before.contains(s)
                    || s == sym@) by {
                    if s == sym@ {
                        assert(before[i as int] == s);
                    }
                }
            }
            return;
        }
        proof {
            // Everything below the stopping point is strictly below `sym`,
            // everything at or above is strictly above it.
            if i < n {
                assert(before[i as int] == self.items@[i as int]@);
                assert(!lex_lt(before[i as int], sym@));
                assert(before[i as int] != sym@);
                lemma_lex_trichotomy(before[i as int], sym@);
                assert(lex_lt(sym@, before[i as int]));
            }
            assert forall|j: int| i <= j < before.len() implies lex_lt(
                sym@,
                #[trigger] before[j],
            ) by {
                if j > i {
                    assert(lex_lt(before[i as int], before[j]));
                    lemma_lex_transitive(sym@, before[i as int], before[j]);
                }
            }
            // So `sym` is not held.
            assert forall|j: int| 0 <= j < before.len() implies #[trigger] before[j] != sym@ by {
                lemma_lex_irreflexive(sym@);
                if j < i {
                    assert(lex_lt(before[j], sym@));
                } else {
                    assert(lex_lt(sym@, before[j]));
                }
            }
            assert(!before.contains(sym@));
        }
        self.items.insert(i, owned);
        proof {
            let now = self@;
            assert(now.len() == before.len() + 1);
            assert forall|k: int| 0 <= k < now.len() implies #[trigger] now[k] == (if k < i {
                before[k]
            } else if k == i {
                sym@
            } else {
                before[k - 1]
            }) by {
                assert(now[k] == self.items@[k]@);
            }
            assert forall|p: int, q: int| 0 <= p < q < now.len() implies lex_lt(
                #[trigger] now[p],
                #[trigger] now[q],
            ) by {
                if q < i {
                } else if p < i && q == i {
                    assert(lex_lt(before[p], sym@));
                } else if p < i && q > i {
                    assert(lex_lt(before[p], before[q - 1]));
                } else if p == i {
                    assert(lex_lt(sym@, before[q - 1]));
                } else {
                    assert(lex_lt(before[p - 1], before[q - 1]));
                }
            }
            assert forall|s: Seq<char>| #[trigger] now.contains(s) <==> (before.contains(s) || s
                == sym@) by {
                if now.contains(s) {
                    let k = choose|k: int| 0 <= k < now.len() && now[k] == s;
                    if k < i {
                        assert(before[k] == s);
                        assert(before.contains(s));
                    } else if k > i {
                        assert(before[k - 1] == s);
                        assert(before.contains(s));
                    }
                }
                if before.contains(s) {
                    let k = choose|k: int| 0 <= k < before.len() && before[k] == s;
                    if k < i {
                        assert(now[k] == s);
                    } else {
                        assert(now[k + 1] == s);
                    }
                    assert(now.contains(s));
                }
                if s == sym@ {
                    assert(now[i as int] == s);
                    assert(now.contains(s));
                }
            }
        }
    }

    /// The symbols, in order.
    pub fn items(&self) -> (r: &Vec<String>)
        ensures
            r@.map_values(|s: String| s@) == self@,
    {
        &self.items
    }
}

} // verus!
