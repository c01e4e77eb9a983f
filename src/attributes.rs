//! The attribute set of one request: string keys to string values, where a
//! later value for a key replaces an earlier one.

use vstd::prelude::*;
use vstd::string::*;

use crate::text::same_text;

verus! {

/// The mapping that a sequence of (key, value) entries denotes: each key maps
/// to the value of its last entry.
pub open spec fn map_of(entries: Seq<(String, String)>) -> Map<Seq<char>, Seq<char>>
    decreases entries.len(),
{
    if entries.len() == 0 {
        Map::empty()
    } else {
        map_of(entries.drop_last()).insert(entries.last().0@, entries.last().1@)
    }
}

/// The value of `key` in `attrs`, where a missing key reads as the empty string.
pub open spec fn value_of(attrs: Map<Seq<char>, Seq<char>>, key: Seq<char>) -> Seq<char> {
    if attrs.contains_key(key) {
        attrs[key]
    } else {
        Seq::empty()
    }
}

/// Entries from `i` on that do not carry `key` leave its value as the first
/// `i` entries give it.
proof fn lemma_map_of_prefix(entries: Seq<(String, String)>, i: int, key: Seq<char>)
    requires
        0 <= i <= entries.len(),
        forall|j: int| i <= j < entries.len() ==> (#[trigger] entries[j]).0@ != key,
    ensures
        value_of(map_of(entries), key) == value_of(map_of(entries.subrange(0, i)), key),
    decreases entries.len(),
{
    if i == entries.len() {
        assert(entries.subrange(0, i) =~= entries);
    } else {
        let rest = entries.drop_last();
        assert(entries[entries.len() - 1].0@ != key);
        assert(rest.subrange(0, i) =~= entries.subrange(0, i));
        assert forall|j: int| i <= j < rest.len() implies (#[trigger] rest[j]).0@ != key by {
            assert(rest[j] == entries[j]);
        }
        lemma_map_of_prefix(rest, i, key);
    }
}

/// Identity attributes of one authorization request.
pub struct AttributeSet {
    entries: Vec<(String, String)>,
}

impl View for AttributeSet {
    type V = Map<Seq<char>, Seq<char>>;

    closed spec fn view(&self) -> Map<Seq<char>, Seq<char>> {
        map_of(self.entries@)
    }
}

impl AttributeSet {
    /// An attribute set with no attributes.
    pub fn new() -> (r: AttributeSet)
        ensures
            r@ == Map::<Seq<char>, Seq<char>>::empty(),
    {
        AttributeSet { entries: Vec::new() }
    }

    /// Sets `key` to `value`, replacing any earlier value of `key`.
    pub fn insert(&mut self, key: String, value: String)
        ensures
            final(self)@ == old(self)@.insert(key@, value@),
    {
        proof {
            let old_entries = self.entries@;
            assert((old_entries.push((key, value))).drop_last() =~= old_entries);
        }
        self.entries.push((key, value));
    }

    /// The value of `key`, or the empty string where the set has no such key.
    pub fn value<'a>(&'a self, key: &str) -> (r: &'a str)
        ensures
            r@ == value_of(self@, key@),
    {
        let mut i: usize = self.entries.len();
        while i > 0
            invariant
                i <= self.entries@.len(),
                forall|j: int|
                    i <= j < self.entries@.len() ==> (#[trigger] self.entries@[j]).0@ != key@,
            decreases i,
        {
            let entry = &self.entries[i - 1];
            if same_text(entry.0.as_str(), key) {
                proof {
                    let head = self.entries@.subrange(0, i as int);
                    lemma_map_of_prefix(self.entries@, i as int, key@);
                    assert(head.drop_last() =~= self.entries@.subrange(0, i - 1));
                    assert(head.last() == self.entries@[i - 1]);
                }
                return entry.1.as_str();
            }
            i = i - 1;
        }
        proof {
            lemma_map_of_prefix(self.entries@, 0, key@);
            assert(self.entries@.subrange(0, 0) =~= Seq::<(String, String)>::empty());
            reveal_strlit("");
        }
        ""
    }
}

} // verus!
