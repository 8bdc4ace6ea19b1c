//! String interning: every distinct string is stored once and named by a
//! small integer id, so repeated metadata keys, extensions and paths cost one
//! copy each.

use vstd::prelude::*;

pub mod constants;

verus! {

/// Hit and miss counts of an interner.
#[derive(Debug, Clone, Copy)]
pub struct InternerStats {
    pub hits: u64,
    pub misses: u64,
}

impl Default for InternerStats {
    fn default() -> (s: Self)
        ensures
            s.hits == 0,
            s.misses == 0,
    {
        InternerStats { hits: 0, misses: 0 }
    }
}

/// A handle on an interned string: its id and its text. Two handles are equal
/// when their ids are.
#[derive(Debug, Clone)]
pub struct InternedString {
    id: u32,
    text: String,
}

impl InternedString {
    /// The id of the handle.
    pub closed spec fn id_of(&self) -> u32 {
        self.id
    }

    /// The text of the handle.
    pub closed spec fn text_of(&self) -> Seq<char> {
        self.text@
    }

    /// The interned text.
    pub fn as_str(&self) -> (r: String)
        ensures
            r@ == self.text_of(),
    {
        self.text.clone()
    }

    /// The intern id.
    pub fn id(&self) -> (r: u32)
        ensures
            r == self.id_of(),
    {
        self.id
    }
}

impl PartialEq for InternedString {
    fn eq(&self, other: &Self) -> (r: bool) {
        self.id == other.id
    }
}

impl vstd::std_specs::cmp::PartialEqSpecImpl for InternedString {
    open spec fn obeys_eq_spec() -> bool {
        true
    }

    open spec fn eq_spec(&self, other: &Self) -> bool {
        self.id_of() == other.id_of()
    }
}

impl Eq for InternedString {}

/// No string occurs twice.
pub open spec fn no_duplicates(s: Seq<Seq<char>>) -> bool {
    forall|i: int, j: int| 0 <= i < s.len() && 0 <= j < s.len() && i != j ==> s[i] != s[j]
}

/// The interned strings after interning `s`: unchanged when `s` is already
/// there, otherwise `s` is appended and gets the next id.
pub open spec fn intern_result(strings: Seq<Seq<char>>, s: Seq<char>) -> Seq<Seq<char>> {
    if strings.contains(s) {
        strings
    } else {
        strings.push(s)
    }
}

/// The number of characters over all interned strings.
pub open spec fn total_chars(strings: Seq<Seq<char>>) -> nat
    decreases strings.len(),
{
    if strings.len() == 0 {
        0
    } else {
        total_chars(strings.drop_last()) + strings.last().len()
    }
}

/// Stores strings once and hands out handles on them; the string with id `i`
/// is the `i`-th string interned.
#[derive(Debug)]
pub struct StringInterner {
    strings: Vec<String>,
    stats: InternerStats,
}

impl View for StringInterner {
    type V = Seq<Seq<char>>;

    /// The interned strings, in id order.
    closed spec fn view(&self) -> Seq<Seq<char>> {
        self.strings@.map_values(|x: String| x@)
    }
}

impl StringInterner {
    #[verifier::type_invariant]
    spec fn inv(self) -> bool {
        &&& no_duplicates(self@)
        &&& self@.len() <= u32::MAX
        &&& self.stats.misses == self@.len()
    }

    /// Hits so far: calls of `intern` that found their string.
    pub closed spec fn hits(&self) -> u64 {
        self.stats.hits
    }

    /// Misses so far: calls of `intern` that added their string.
    pub closed spec fn misses(&self) -> u64 {
        self.stats.misses
    }

    /// An empty interner.
    pub fn new() -> (r: Self)
        ensures
            r@ == Seq::<Seq<char>>::empty(),
            r.hits() == 0,
            r.misses() == 0,
    {
        let r = StringInterner { strings: Vec::new(), stats: InternerStats { hits: 0, misses: 0 } };
        assert(r@ =~= Seq::<Seq<char>>::empty());
        r
    }

    /// Interns `s`: the handle of the stored copy, after storing it if it was
    /// not there yet.
    pub fn intern(&mut self, s: &str) -> (r: InternedString)
        requires
            old(self)@.len() < u32::MAX,
            old(self).hits() < u64::MAX,
            old(self).misses() < u64::MAX,
        ensures
            final(self)@ == intern_result(old(self)@, s@),
            no_duplicates(final(self)@),
            r.id_of() < final(self)@.len(),
            final(self)@[r.id_of() as int] == s@,
            r.text_of() == s@,
            old(self)@.contains(s@) ==> final(self).hits() == old(self).hits() + 1
                && final(self).misses() == old(self).misses(),
            !old(self)@.contains(s@) ==> final(self).hits() == old(self).hits()
                && final(self).misses() == old(self).misses() + 1
                && r.id_of() == old(self)@.len(),
            final(self).misses() == final(self)@.len(),
            final(self).hits() + final(self).misses() == old(self).hits() + old(self).misses() + 1,
    {
        proof {
            use_type_invariant(&*self);
        }
        let owned = s.to_owned();
        let n = self.strings.len();
        let mut i: usize = 0;
        while i < n
            invariant
                n == self.strings.len(),
                *self == *old(self),
                old(self)@.len() < u32::MAX,
                old(self).hits() < u64::MAX,
                old(self).misses() < u64::MAX,
                old(self).misses() == old(self)@.len(),
                no_duplicates(self@),
                i <= n,
                owned@ == s@,
                self@.len() == n,
                forall|k: int| 0 <= k < i ==> self@[k] != s@,
            decreases n - i,
        {
            if self.strings[i] == owned {
                assert(self@[i as int] == s@);
                self.stats.hits = self.stats.hits + 1;
                return InternedString { id: i as u32, text: owned };
            }
            i = i + 1;
        }
        assert(!self@.contains(s@));
        let id = n as u32;
        let text = owned.clone();
        let ghost before = self@;
        let mut taken = StringInterner { strings: Vec::new(), stats: InternerStats { hits: self.stats.hits, misses: 0 } };
        std::mem::swap(&mut taken, self);
        let StringInterner { mut strings, stats } = taken;
        strings.push(owned);
        assert(strings@.map_values(|x: String| x@) =~= before.push(s@));
        *self = StringInterner { strings, stats: InternerStats { hits: stats.hits, misses: stats.misses + 1 } };
        InternedString { id, text }
    }

    /// The string with id `id`, if there is one.
    pub fn get_by_id(&self, id: u32) -> (r: Option<String>)
        ensures
            (id as int) < self@.len() ==> r is Some && r->0@ == self@[id as int],
            (id as int) >= self@.len() ==> r is None,
    {
        let k = id as usize;
        if k < self.strings.len() {
            Some(self.strings[k].clone())
        } else {
            None
        }
    }

    /// Hit and miss counts; each miss added one string, so the misses are
    /// the number of distinct strings interned.
    pub fn stats(&self) -> (r: InternerStats)
        ensures
            r.hits == self.hits(),
            r.misses == self.misses(),
            r.misses == self@.len(),
    {
        proof {
            use_type_invariant(self);
        }
        self.stats
    }

    /// The number of interned strings.
    pub fn len(&self) -> (r: usize)
        ensures
            r == self@.len(),
    {
        self.strings.len()
    }

    /// Whether nothing is interned.
    pub fn is_empty(&self) -> (r: bool)
        ensures
            r == (self@.len() == 0),
    {
        self.len() == 0
    }

    /// An estimate of the bytes held: each string's capacity plus the table
    /// of strings (its capacity in `String`s), as `usage_estimate` gives it
    /// from the capacities read; never less than the characters stored
    /// (saturating at `usize::MAX`).
    pub fn memory_usage(&self) -> (r: usize)
        ensures
            exists|caps: Seq<usize>, table: usize|
                #[trigger] capacities_of(self@, caps, table) && r == usage_estimate(caps, table),
            r >= total_chars(self@) || r == usize::MAX,
    {
        let n = self.strings.len();
        let mut caps: Vec<usize> = Vec::new();
        let mut i: usize = 0;
        while i < n
            invariant
                n == self.strings.len(),
                self@.len() == n,
                i <= n,
                caps@.len() == i,
                forall|k: int| 0 <= k < i ==> caps@[k] >= #[trigger] self@[k].len(),
            decreases n - i,
        {
            let c = string_capacity(&self.strings[i]);
            assert(self@[i as int] == self.strings@[i as int]@);
            caps.push(c);
            i = i + 1;
        }
        let table = vec_capacity(&self.strings);
        let r = usage_from(&caps, table);
        proof {
            assert(capacities_of(self@, caps@, table));
            lemma_caps_cover_chars(self@, caps@);
        }
        r
    }
}

impl Default for StringInterner {
    fn default() -> (r: Self)
        ensures
            r@ == Seq::<Seq<char>>::empty(),
            r.hits() == 0,
            r.misses() == 0,
    {
        StringInterner::new()
    }
}

/// `caps` are capacities of the strings of `strings`, in order, and `table`
/// the capacity of the table holding them: each at least what it holds.
pub open spec fn capacities_of(strings: Seq<Seq<char>>, caps: Seq<usize>, table: usize) -> bool {
    &&& caps.len() == strings.len()
    &&& forall|k: int| 0 <= k < caps.len() ==> caps[k] >= #[trigger] strings[k].len()
    &&& table >= strings.len()
}

/// The sum of `caps`.
pub open spec fn sum_of(caps: Seq<usize>) -> nat
    decreases caps.len(),
{
    if caps.len() == 0 {
        0
    } else {
        sum_of(caps.drop_last()) + (caps.last() as nat)
    }
}

/// The interner's estimate of the bytes it holds: the strings' capacities
/// plus the table's capacity times the size of a `String`, saturating at
/// `usize::MAX`.
pub open spec fn usage_estimate(caps: Seq<usize>, table: usize) -> nat {
    let total: nat = sum_of(caps) + (table as nat) * vstd::layout::size_of::<String>();
    if total > usize::MAX {
        usize::MAX as nat
    } else {
        total
    }
}

/// Capacities at least the lengths add up to at least the characters.
proof fn lemma_caps_cover_chars(strings: Seq<Seq<char>>, caps: Seq<usize>)
    requires
        caps.len() == strings.len(),
        forall|k: int| 0 <= k < caps.len() ==> caps[k] >= #[trigger] strings[k].len(),
    ensures
        sum_of(caps) >= total_chars(strings),
    decreases caps.len(),
{
    if caps.len() > 0 {
        lemma_caps_cover_chars(strings.drop_last(), caps.drop_last());
        assert(caps[caps.len() - 1] >= strings[strings.len() - 1].len());
    }
}

/// The estimate from the capacities of the strings and of the table holding
/// them, as `usage_estimate` gives it.
pub fn usage_from(caps: &Vec<usize>, table: usize) -> (r: usize)
    ensures
        r == usage_estimate(caps@, table),
{
    let mut total: usize = 0;
    let mut saturated = false;
    let mut i: usize = 0;
    while i < caps.len()
        invariant
            i <= caps.len(),
            saturated ==> sum_of(caps@.take(i as int)) > usize::MAX,
            !saturated ==> total == sum_of(caps@.take(i as int)),
        decreases caps.len() - i,
    {
        assert(caps@.take(i + 1).drop_last() == caps@.take(i as int));
        if !saturated {
            match total.checked_add(caps[i]) {
                Some(t) => total = t,
                None => saturated = true,
            }
        }
        i = i + 1;
    }
    assert(caps@.take(caps.len() as int) == caps@);
    if saturated {
        return usize::MAX;
    }
    let size = core::mem::size_of::<String>();
    match table.checked_mul(size) {
        Some(t) => match total.checked_add(t) {
            Some(x) => x,
            None => usize::MAX,
        },
        None => {
            assert(table * size > usize::MAX);
            usize::MAX
        },
    }
}

/// `String::capacity`: the bytes the string has room for, never fewer than
/// its bytes, and so never fewer than its characters. What the allocator gave
/// beyond that is left unsaid.
#[verifier::external_body]
fn string_capacity(s: &String) -> (c: usize)
    ensures
        c >= s@.len(),
{
    s.capacity()
}

/// `Vec::capacity`: the elements the vector has room for, never fewer than
/// its length. What the allocator gave beyond that is left unsaid.
#[verifier::external_body]
fn vec_capacity(v: &Vec<String>) -> (c: usize)
    ensures
        c >= v.len(),
{
    v.capacity()
}

/// Interning the same string twice gives the same id and stores nothing new.
pub proof fn law_intern_idempotent(strings: Seq<Seq<char>>, s: Seq<char>)
    ensures
        intern_result(intern_result(strings, s), s) == intern_result(strings, s),
        intern_result(strings, s).contains(s),
{
    if !strings.contains(s) {
        assert(strings.push(s)[strings.len() as int] == s);
    }
}

/// Distinct strings in a duplicate-free table sit at distinct ids.
pub proof fn law_distinct_strings_distinct_ids(strings: Seq<Seq<char>>, i: int, j: int)
    requires
        no_duplicates(strings),
        0 <= i < strings.len(),
        0 <= j < strings.len(),
        strings[i] != strings[j],
    ensures
        i != j,
{
}

/// Interning keeps the table free of duplicates and keeps every earlier id.
pub proof fn law_intern_preserves(strings: Seq<Seq<char>>, s: Seq<char>)
    requires
        no_duplicates(strings),
    ensures
        no_duplicates(intern_result(strings, s)),
        intern_result(strings, s).len() >= strings.len(),
        forall|k: int| 0 <= k < strings.len() ==> #[trigger] intern_result(strings, s)[k] == strings[k],
{
}

/// The table after interning each of `items` in turn, starting from `strings`.
pub open spec fn intern_all(strings: Seq<Seq<char>>, items: Seq<Seq<char>>) -> Seq<Seq<char>>
    decreases items.len(),
{
    if items.len() == 0 {
        strings
    } else {
        intern_result(intern_all(strings, items.drop_last()), items.last())
    }
}


/// Step `k` of a run of `intern` calls over `items`: the table after the
/// call is the table before with `items[k]` interned, one of hits and misses
/// went up by one, and the misses count the table's strings.
pub open spec fn intern_step(
    tables: Seq<Seq<Seq<char>>>,
    hits: Seq<nat>,
    misses: Seq<nat>,
    items: Seq<Seq<char>>,
    k: int,
) -> bool {
    &&& tables[k + 1] == intern_result(tables[k], items[k])
    &&& hits[k + 1] + misses[k + 1] == hits[k] + misses[k] + 1
    &&& misses[k + 1] == tables[k + 1].len()
}

/// After a run of `intern` calls on a new interner, one per text of `items`
/// (`tables`, `hits` and `misses` giving the interner before the first call
/// and after each one, as each call's contract states): the table holds
/// each distinct text once, the misses are the number of distinct texts,
/// and hits plus misses are the number of calls.
pub proof fn law_intern_run(
    tables: Seq<Seq<Seq<char>>>,
    hits: Seq<nat>,
    misses: Seq<nat>,
    items: Seq<Seq<char>>,
)
    requires
        tables.len() == items.len() + 1,
        hits.len() == tables.len(),
        misses.len() == tables.len(),
        tables[0] == Seq::<Seq<char>>::empty(),
        hits[0] == 0,
        misses[0] == 0,
        forall|k: int| 0 <= k < items.len() ==> #[trigger] intern_step(tables, hits, misses, items, k),
    ensures
        tables.last() == intern_all(Seq::empty(), items),
        no_duplicates(tables.last()),
        tables.last().to_set() == items.to_set(),
        misses.last() == items.to_set().len(),
        hits.last() + misses.last() == items.len(),
{
    lemma_intern_run_prefix(tables, hits, misses, items, items.len() as int);
    assert(items.take(items.len() as int) == items);
    let t = tables.last();
    assert(t.no_duplicates());
    t.unique_seq_to_set();
}

/// The run's facts after its first `m` calls.
proof fn lemma_intern_run_prefix(
    tables: Seq<Seq<Seq<char>>>,
    hits: Seq<nat>,
    misses: Seq<nat>,
    items: Seq<Seq<char>>,
    m: int,
)
    requires
        tables.len() == items.len() + 1,
        hits.len() == tables.len(),
        misses.len() == tables.len(),
        tables[0] == Seq::<Seq<char>>::empty(),
        hits[0] == 0,
        misses[0] == 0,
        forall|k: int| 0 <= k < items.len() ==> #[trigger] intern_step(tables, hits, misses, items, k),
        0 <= m <= items.len(),
    ensures
        tables[m] == intern_all(Seq::empty(), items.take(m)),
        no_duplicates(tables[m]),
        tables[m].to_set() == items.take(m).to_set(),
        hits[m] + misses[m] == m,
        misses[m] == tables[m].len(),
    decreases m,
{
    if m == 0 {
        assert(items.take(0) =~= Seq::<Seq<char>>::empty());
        assert(tables[0].to_set() =~= Set::<Seq<char>>::empty());
        assert(items.take(0).to_set() =~= Set::<Seq<char>>::empty());
    } else {
        lemma_intern_run_prefix(tables, hits, misses, items, m - 1);
        assert(intern_step(tables, hits, misses, items, m - 1));
        let pre = items.take(m - 1);
        let x = items[m - 1];
        assert(items.take(m).drop_last() == pre);
        assert(items.take(m).last() == x);
        assert(items.take(m) == pre.push(x));
        law_intern_preserves(tables[m - 1], x);
        let before = tables[m - 1];
        assert(tables[m].to_set() =~= before.to_set().insert(x)) by {
            if before.contains(x) {
                assert(tables[m] == before);
            } else {
                assert(tables[m] == before.push(x));
                assert forall|y: Seq<char>| tables[m].to_set().contains(y) <==> before.to_set().insert(x).contains(y) by {
                    if tables[m].contains(y) && y != x {
                        let j = choose|j: int| 0 <= j < tables[m].len() && tables[m][j] == y;
                        assert(j < before.len());
                        assert(before[j] == y);
                    }
                    if before.contains(y) {
                        let j = choose|j: int| 0 <= j < before.len() && before[j] == y;
                        assert(tables[m][j] == y);
                    }
                    if y == x {
                        assert(tables[m][before.len() as int] == x);
                    }
                }
            }
        }
        assert(items.take(m).to_set() =~= pre.to_set().insert(x)) by {
            assert forall|y: Seq<char>| items.take(m).to_set().contains(y) <==> pre.to_set().insert(x).contains(y) by {
                if items.take(m).contains(y) && y != x {
                    let j = choose|j: int| 0 <= j < items.take(m).len() && items.take(m)[j] == y;
                    assert(j < pre.len());
                    assert(pre[j] == y);
                }
                if pre.contains(y) {
                    let j = choose|j: int| 0 <= j < pre.len() && pre[j] == y;
                    assert(items.take(m)[j] == y);
                }
                if y == x {
                    assert(items.take(m)[m - 1] == x);
                }
            }
        }
    }
}

} // verus!
