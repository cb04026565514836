//! Instants on the UTC time line, as the conversation log orders them.

use vstd::prelude::*;
use vstd::relations::total_ordering;
use vstd::seq_lib::lemma_sorted_unique;
use vstd::std_specs::btree::increasing_seq;
use vstd::std_specs::cmp::OrdSpec;

verus! {

/// What a log is keyed by: whole seconds since the Unix epoch, then the
/// nanoseconds into that second. Tuples compare field by field, so the order
/// of keys is the order of instants.
pub type TimeKey = (i64, u32);

/// An instant in UTC.
#[derive(Clone, Copy, Debug, PartialEq, Eq, Structural)]
pub struct Timestamp {
    /// Whole non-leap seconds since 1970-01-01T00:00:00Z.
    pub secs: i64,
    /// Nanoseconds since the last whole second; a leap second is written as
    /// a value of 1,000,000,000 or more.
    pub nanos: u32,
}

/// Whether the instant `a` comes strictly before the instant `b`.
pub open spec fn key_lt(a: TimeKey, b: TimeKey) -> bool {
    a.0 < b.0 || (a.0 == b.0 && a.1 < b.1)
}

/// Whether the instant `a` comes before `b` or is the same instant.
pub open spec fn key_le(a: TimeKey, b: TimeKey) -> bool {
    a.0 < b.0 || (a.0 == b.0 && a.1 <= b.1)
}

/// The order of instants, as the relation that sorting goes by.
pub open spec fn key_order() -> spec_fn(TimeKey, TimeKey) -> bool {
    |a: TimeKey, b: TimeKey| key_le(a, b)
}

/// Whether each key of `keys` comes strictly before the next one.
pub open spec fn ascending(keys: Seq<TimeKey>) -> bool {
    forall|i: int, j: int| 0 <= i < j < keys.len() ==> key_lt(keys[i], keys[j])
}

/// The keys of `dom` from the earliest to the latest.
pub open spec fn ordered_keys(dom: Set<TimeKey>) -> Seq<TimeKey> {
    dom.to_sorted_seq(key_order())
}

/// Keys that std's own order of tuples calls increasing are ascending.
pub proof fn lemma_increasing_is_ascending(keys: Seq<TimeKey>)
    requires
        increasing_seq(keys),
    ensures
        ascending(keys),
{
    broadcast use {
        vstd::std_specs::btree::group_btree_axioms,
        vstd::laws_cmp::group_laws_cmp,
    };

    assert forall|i: int, j: int| 0 <= i < j < keys.len() implies key_lt(keys[i], keys[j]) by {
        assert(keys[i].cmp_spec(&keys[j]) is Less);
    }
}

/// The order of instants is total.
pub proof fn lemma_key_order_total()
    ensures
        total_ordering(key_order()),
{
}

proof fn lemma_to_seq_no_duplicates(dom: Set<TimeKey>)
    requires
        dom.finite(),
    ensures
        dom.to_seq().no_duplicates(),
        dom.to_seq().to_set() == dom,
    decreases dom.len(),
{
    dom.lemma_to_seq_to_set_id();
    if dom.len() != 0 {
        let x = dom.choose();
        let rest = dom.remove(x).to_seq();
        lemma_to_seq_no_duplicates(dom.remove(x));
        assert(!rest.contains(x)) by {
            if rest.contains(x) {
                assert(rest.to_set().contains(x));
            }
        }
        assert(dom.to_seq() == seq![x] + rest);
        assert forall|i: int, j: int|
            0 <= i < dom.to_seq().len() && 0 <= j < dom.to_seq().len() && i != j
            implies dom.to_seq()[i] != dom.to_seq()[j] by {
            if i > 0 {
                assert(rest.contains(rest[i - 1]));
            }
            if j > 0 {
                assert(rest.contains(rest[j - 1]));
            }
        }
    }
}

/// `ordered_keys(dom)` lists each key of a finite `dom` once, earliest first.
pub proof fn lemma_ordered_keys(dom: Set<TimeKey>)
    requires
        dom.finite(),
    ensures
        ascending(ordered_keys(dom)),
        ordered_keys(dom).no_duplicates(),
        ordered_keys(dom).to_set() == dom,
        ordered_keys(dom).len() == dom.len(),
{
    broadcast use vstd::seq_lib::group_to_multiset_ensures;

    let raw = dom.to_seq();
    let sorted = ordered_keys(dom);
    lemma_to_seq_no_duplicates(dom);
    lemma_key_order_total();
    raw.lemma_sort_by_ensures(key_order());
    raw.lemma_multiset_has_no_duplicates();
    sorted.lemma_multiset_has_no_duplicates_conv();
    assert forall|k: TimeKey| sorted.to_set().contains(k) <==> dom.contains(k) by {
        assert(sorted.contains(k) <==> sorted.to_multiset().count(k) > 0);
        assert(raw.contains(k) <==> raw.to_multiset().count(k) > 0);
        assert(raw.to_set().contains(k) <==> raw.contains(k));
    }
    assert(sorted.to_set() =~= dom);
    sorted.unique_seq_to_set();
    assert forall|i: int, j: int| 0 <= i < j < sorted.len() implies key_lt(
        sorted[i],
        sorted[j],
    ) by {
        assert(key_order()(sorted[i], sorted[j]));
        assert(sorted[i] != sorted[j]);
    }
}

/// There is one way only to list the keys of a set in ascending order.
pub proof fn lemma_ordered_keys_unique(keys: Seq<TimeKey>, dom: Set<TimeKey>)
    requires
        ascending(keys),
        keys.to_set() == dom,
    ensures
        keys == ordered_keys(dom),
{
    broadcast use vstd::seq_lib::group_to_multiset_ensures;

    vstd::seq_lib::seq_to_set_is_finite(keys);
    let sorted = ordered_keys(dom);
    lemma_ordered_keys(dom);
    lemma_key_order_total();
    assert forall|i: int, j: int| 0 <= i < keys.len() && 0 <= j < keys.len() && i != j
        implies keys[i] != keys[j] by {
        if i < j {
            assert(key_lt(keys[i], keys[j]));
        } else {
            assert(key_lt(keys[j], keys[i]));
        }
    }
    keys.lemma_multiset_has_no_duplicates();
    sorted.lemma_multiset_has_no_duplicates();
    assert forall|k: TimeKey| keys.to_multiset().count(k) == sorted.to_multiset().count(k) by {
        assert(keys.contains(k) <==> keys.to_multiset().count(k) > 0);
        assert(sorted.contains(k) <==> sorted.to_multiset().count(k) > 0);
        assert(keys.to_set().contains(k) <==> keys.contains(k));
        assert(sorted.to_set().contains(k) <==> sorted.contains(k));
    }
    assert(keys.to_multiset() =~= sorted.to_multiset());
    assert forall|i: int, j: int| 0 <= i < j < keys.len() implies #[trigger] key_order()(
        keys[i],
        keys[j],
    ) by {
        assert(key_lt(keys[i], keys[j]));
    }
    assert forall|i: int, j: int| 0 <= i < j < sorted.len() implies #[trigger] key_order()(
        sorted[i],
        sorted[j],
    ) by {
        assert(key_lt(sorted[i], sorted[j]));
    }
    lemma_sorted_unique(keys, sorted, key_order());
}

impl Timestamp {
    /// The key under which a log files a message of this instant.
    pub open spec fn spec_key(self) -> TimeKey {
        (self.secs, self.nanos)
    }

    /// Whether the nanosecond field is one that a calendar time can have.
    pub open spec fn in_range(self) -> bool {
        self.nanos < 2_000_000_000
    }

    #[verifier::when_used_as_spec(spec_key)]
    pub fn key(self) -> (k: TimeKey)
        ensures
            k == self.spec_key(),
    {
        (self.secs, self.nanos)
    }

    /// Whether this instant comes strictly before `other`.
    pub open spec fn spec_is_before(self, other: Timestamp) -> bool {
        key_lt(self.spec_key(), other.spec_key())
    }

    #[verifier::when_used_as_spec(spec_is_before)]
    pub fn is_before(self, other: Timestamp) -> (b: bool)
        ensures
            b == self.spec_is_before(other),
    {
        self.secs < other.secs || (self.secs == other.secs && self.nanos < other.nanos)
    }

    /// The current instant, read from the system clock.
    ///
    /// Trusted: calls `chrono::Utc::now`, then `DateTime::timestamp` and
    /// `DateTime::timestamp_subsec_nanos` on what it returned. Nothing is
    /// claimed of the instant but that its nanosecond field is below two
    /// thousand million, which chrono keeps of every time of day it holds.
    /// chrono itself stops the program if the clock stands before 1970.
    #[verifier::external_body]
    pub(crate) fn now() -> (t: Timestamp)
        ensures
            t.in_range(),
    {
        let now = chrono::Utc::now();
        Timestamp { secs: now.timestamp(), nanos: now.timestamp_subsec_nanos() }
    }
}

} // verus!
