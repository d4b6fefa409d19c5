//! Dictionaries: text keys, each at most once, with a value for each.

use sexpr_ir::gast::Handle;
use vstd::prelude::*;

use crate::text::same_text;
use crate::value::Dict;
use crate::value::Value;
use crate::value::ValueView;

verus! {

/// Whether no key stands twice among `entries`.
pub open spec fn keys_are_unique(entries: Seq<(Seq<char>, ValueView)>) -> bool {
    forall|i: int, j: int|
        0 <= i < j < entries.len() ==> (#[trigger] entries[i]).0 != (#[trigger] entries[j]).0
}

/// The position of the first entry of `entries` under `key`, or the
/// number of entries where there is none.
pub open spec fn position_of(entries: Seq<(Seq<char>, ValueView)>, key: Seq<char>) -> int
    decreases entries.len(),
{
    if entries.len() == 0 {
        0
    } else if entries[0].0 == key {
        0
    } else {
        1 + position_of(entries.drop_first(), key)
    }
}

/// `position_of` finds the key where it is, and only there: no entry
/// before the position is under `key`, and the entry at the position, if
/// there is one, is.
pub proof fn lemma_position_of(entries: Seq<(Seq<char>, ValueView)>, key: Seq<char>)
    ensures
        0 <= position_of(entries, key) <= entries.len(),
        forall|i: int| 0 <= i < position_of(entries, key) ==> (#[trigger] entries[i]).0 != key,
        position_of(entries, key) < entries.len() ==> entries[position_of(entries, key)].0 == key,
    decreases entries.len(),
{
    if entries.len() > 0 && entries[0].0 != key {
        let rest = entries.drop_first();
        lemma_position_of(rest, key);
        assert forall|i: int| 0 <= i < position_of(entries, key) implies (#[trigger] entries[i]).0
            != key by {
            if i > 0 {
                assert(entries[i] == rest[i - 1]);
            }
        }
    }
}

/// The value under `key` among `entries`, if there is one.
pub open spec fn lookup(entries: Seq<(Seq<char>, ValueView)>, key: Seq<char>) -> Option<ValueView> {
    if position_of(entries, key) < entries.len() {
        Some(entries[position_of(entries, key)].1)
    } else {
        None
    }
}

/// The entries after `value` has been put under `key`: where the key was
/// there, its entry holds the new value and keeps its place; where it was
/// not, a new entry stands at the end.
pub open spec fn inserted(
    entries: Seq<(Seq<char>, ValueView)>,
    key: Seq<char>,
    value: ValueView,
) -> Seq<(Seq<char>, ValueView)> {
    if position_of(entries, key) < entries.len() {
        entries.update(position_of(entries, key), (key, value))
    } else {
        entries.push((key, value))
    }
}

/// Putting a value under a key is seen by a lookup of that key and
/// changes the lookup of no other key; and where no key stood twice
/// before, none does afterwards.
pub proof fn lemma_insert_then_lookup(
    entries: Seq<(Seq<char>, ValueView)>,
    key: Seq<char>,
    value: ValueView,
    other: Seq<char>,
)
    ensures
        keys_are_unique(entries) ==> keys_are_unique(inserted(entries, key, value)),
        lookup(inserted(entries, key, value), key) == Some(value),
        other != key ==> lookup(inserted(entries, key, value), other) == lookup(entries, other),
{
    let after = inserted(entries, key, value);
    let at = position_of(entries, key);
    lemma_position_of(entries, key);
    lemma_position_of(entries, other);
    lemma_position_of(after, key);
    lemma_position_of(after, other);
    if position_of(after, key) > at {
        assert(after[at].0 != key);
    }
    let before_at = position_of(entries, other);
    if other != key && before_at < entries.len() && position_of(after, other) > before_at {
        assert(after[before_at].0 != other);
    }
}

impl Dict {
    /// Whether this dictionary holds no key twice.
    pub open spec fn wf(&self) -> bool {
        keys_are_unique(self@)
    }

    /// An empty dictionary.
    pub fn new() -> (d: Dict)
        ensures
            d@ == Seq::<(Seq<char>, ValueView)>::empty(),
            d.wf(),
    {
        let d = Dict(Vec::new());
        d
    }

    /// The number of entries.
    pub fn len(&self) -> (n: usize)
        ensures
            n == self@.len(),
    {
        self.0.len()
    }

    /// The position of the first entry under `key`, or the number of
    /// entries where there is none.
    fn find(&self, key: &str) -> (at: usize)
        ensures
            at == position_of(self@, key@),
            at <= self.0@.len(),
    {
        proof {
            lemma_position_of(self@, key@);
        }
        let mut i: usize = 0;
        while i < self.0.len()
            invariant
                i <= self.0@.len(),
                i <= position_of(self@, key@) <= self@.len(),
                self@.len() == self.0@.len(),
                forall|j: int|
                    0 <= j < position_of(self@, key@) ==> (#[trigger] self@[j]).0 != key@,
                position_of(self@, key@) < self@.len() ==> self@[position_of(self@, key@)].0
                    == key@,
            decreases self.0@.len() - i,
        {
            if same_text(self.0[i].0.as_str(), key) {
                assert(self@[i as int].0 == key@);
                return i;
            }
            i += 1;
        }
        i
    }

    /// The value under `key`, if the dictionary has one.
    pub fn get(&self, key: &str) -> (r: Option<&Value>)
        ensures
            match r {
                Some(value) => lookup(self@, key@) == Some(value@),
                None => lookup(self@, key@) is None,
            },
    {
        let at = self.find(key);
        if at < self.0.len() {
            Some(&self.0[at].1)
        } else {
            None
        }
    }

    /// Puts `value` under `key`. Where the key was there, its value is
    /// replaced and handed back, and the entry keeps its place; where it
    /// was not, a new entry is added at the end. A dictionary that held
    /// no key twice holds none twice afterwards.
    pub fn insert(&mut self, key: Handle<String>, value: Value) -> (r: Option<Value>)
        ensures
            old(self).wf() ==> final(self).wf(),
            final(self)@ == inserted(old(self)@, key@, value@),
            match r {
                Some(previous) => lookup(old(self)@, key@) == Some(previous@),
                None => lookup(old(self)@, key@) is None,
            },
    {
        proof {
            lemma_position_of(self@, key@);
            lemma_insert_then_lookup(self@, key@, value@, key@);
        }
        let at = self.find(key.as_str());
        if at < self.0.len() {
            let ghost before = self@;
            let ghost value_view = value@;
            let previous = self.0.remove(at);
            self.0.insert(at, (key, value));
            assert(self@ =~= before.update(at as int, (key@, value_view)));
            Some(previous.1)
        } else {
            let ghost before = self@;
            let ghost value_view = value@;
            self.0.push((key, value));
            assert(self@ =~= before.push((key@, value_view)));
            None
        }
    }
}

impl Default for Dict {
    fn default() -> (d: Dict)
        ensures
            d@ == Seq::<(Seq<char>, ValueView)>::empty(),
            d.wf(),
    {
        Dict::new()
    }
}

} // verus!
