//! The keyed values of one session: text keys, text values, each key once.

use vstd::prelude::*;
use vstd::utf8::{encode_utf8, encode_utf8_decode_utf8};

verus! {

/// The entries of a list as mathematics: each key and value by its characters.
pub open spec fn pair_views(entries: Seq<(String, String)>) -> Seq<(Seq<char>, Seq<char>)> {
    Seq::new(entries.len(), |i: int| (entries[i].0@, entries[i].1@))
}

/// The mapping without any key.
pub open spec fn no_values() -> Map<Seq<char>, Seq<char>> {
    Map::empty()
}

/// The list without any entry.
pub open spec fn no_pairs() -> Seq<(Seq<char>, Seq<char>)> {
    Seq::empty()
}

/// An optional text by its characters.
pub open spec fn option_text(text: Option<String>) -> Option<Seq<char>> {
    match text {
        Some(t) => Some(t@),
        None => None,
    }
}

/// No key stands at two places of the list.
pub open spec fn keys_unique(pairs: Seq<(Seq<char>, Seq<char>)>) -> bool {
    forall|i: int, j: int|
        0 <= i < j < pairs.len() ==> (#[trigger] pairs[i]).0 != (#[trigger] pairs[j]).0
}

/// Some entry of the list has this key.
pub open spec fn has_key(pairs: Seq<(Seq<char>, Seq<char>)>, key: Seq<char>) -> bool {
    exists|i: int| 0 <= i < pairs.len() && (#[trigger] pairs[i]).0 == key
}

/// The mapping that a list of entries stands for. Where a key occurs more
/// than once, its last entry counts.
pub open spec fn pairs_map(pairs: Seq<(Seq<char>, Seq<char>)>) -> Map<Seq<char>, Seq<char>>
    decreases pairs.len(),
{
    if pairs.len() == 0 {
        Map::empty()
    } else {
        pairs_map(pairs.drop_last()).insert(pairs.last().0, pairs.last().1)
    }
}

/// The mapping of a list has exactly the keys of the list, and finitely many.
pub proof fn lemma_pairs_map_domain(pairs: Seq<(Seq<char>, Seq<char>)>)
    ensures
        forall|key: Seq<char>| #[trigger]
            pairs_map(pairs).contains_key(key) <==> has_key(pairs, key),
        pairs_map(pairs).dom().finite(),
    decreases pairs.len(),
{
    if pairs.len() > 0 {
        let front = pairs.drop_last();
        lemma_pairs_map_domain(front);
        assert forall|key: Seq<char>| #[trigger]
            pairs_map(pairs).contains_key(key) <==> has_key(pairs, key) by {
            if has_key(pairs, key) {
                let i = choose|i: int| 0 <= i < pairs.len() && (#[trigger] pairs[i]).0 == key;
                if i < pairs.len() - 1 {
                    assert(front[i].0 == key);
                    assert(has_key(front, key));
                }
            }
            if pairs_map(pairs).contains_key(key) && key != pairs.last().0 {
                assert(has_key(front, key));
                let i = choose|i: int| 0 <= i < front.len() && (#[trigger] front[i]).0 == key;
                assert(pairs[i].0 == key);
            }
            if key == pairs.last().0 {
                assert(pairs[pairs.len() - 1].0 == key);
            }
        }
    }
}

/// Where no key occurs twice, each entry's key maps to that entry's value.
pub proof fn lemma_pairs_map_value(pairs: Seq<(Seq<char>, Seq<char>)>, i: int)
    requires
        keys_unique(pairs),
        0 <= i < pairs.len(),
    ensures
        pairs_map(pairs).contains_key(pairs[i].0),
        pairs_map(pairs)[pairs[i].0] == pairs[i].1,
    decreases pairs.len(),
{
    if i < pairs.len() - 1 {
        let front = pairs.drop_last();
        assert(front[i] == pairs[i]);
        assert(pairs[i].0 != pairs[pairs.len() - 1].0);
        assert(keys_unique(front)) by {
            assert forall|a: int, b: int| 0 <= a < b < front.len() implies (#[trigger] front[a]).0
                != (#[trigger] front[b]).0 by {
                assert(front[a] == pairs[a]);
                assert(front[b] == pairs[b]);
            }
        }
        lemma_pairs_map_value(front, i);
    }
}

/// An entry under a new key, put at the end, adds that key to the mapping.
pub proof fn lemma_pairs_push(
    pairs: Seq<(Seq<char>, Seq<char>)>,
    key: Seq<char>,
    value: Seq<char>,
)
    ensures
        pairs_map(pairs.push((key, value))) == pairs_map(pairs).insert(key, value),
        keys_unique(pairs) && !has_key(pairs, key) ==> keys_unique(pairs.push((key, value))),
{
    let longer = pairs.push((key, value));
    assert(longer.drop_last() =~= pairs);
    if keys_unique(pairs) && !has_key(pairs, key) {
        assert forall|a: int, b: int| 0 <= a < b < longer.len() implies (#[trigger] longer[a]).0
            != (#[trigger] longer[b]).0 by {
            assert(longer[a] == pairs[a]);
            if b < pairs.len() {
                assert(longer[b] == pairs[b]);
            }
        }
    }
}

/// A new value written over the entry at `i` changes the mapping at that
/// entry's key and nowhere else.
pub proof fn lemma_pairs_update(pairs: Seq<(Seq<char>, Seq<char>)>, i: int, value: Seq<char>)
    requires
        keys_unique(pairs),
        0 <= i < pairs.len(),
    ensures
        keys_unique(pairs.update(i, (pairs[i].0, value))),
        pairs_map(pairs.update(i, (pairs[i].0, value))) == pairs_map(pairs).insert(
            pairs[i].0,
            value,
        ),
{
    let key = pairs[i].0;
    let changed = pairs.update(i, (key, value));
    assert forall|a: int, b: int| 0 <= a < b < changed.len() implies (#[trigger] changed[a]).0
        != (#[trigger] changed[b]).0 by {
        assert(changed[a].0 == pairs[a].0);
        assert(changed[b].0 == pairs[b].0);
    }
    lemma_pairs_map_domain(pairs);
    lemma_pairs_map_domain(changed);
    let left = pairs_map(changed);
    let right = pairs_map(pairs).insert(key, value);
    assert forall|k: Seq<char>| left.contains_key(k) <==> right.contains_key(k) by {
        if has_key(changed, k) {
            let j = choose|j: int| 0 <= j < changed.len() && (#[trigger] changed[j]).0 == k;
            assert(pairs[j].0 == k);
        }
        if has_key(pairs, k) {
            let j = choose|j: int| 0 <= j < pairs.len() && (#[trigger] pairs[j]).0 == k;
            assert(changed[j].0 == k);
        }
        assert(changed[i].0 == key);
    }
    assert forall|k: Seq<char>| left.contains_key(k) implies left[k] == right[k] by {
        let j = choose|j: int| 0 <= j < changed.len() && (#[trigger] changed[j]).0 == k;
        lemma_pairs_map_value(changed, j);
        lemma_pairs_map_value(pairs, j);
        if j != i {
            assert(changed[j] == pairs[j]);
            if j < i {
                assert(pairs[j].0 != pairs[i].0);
            } else {
                assert(pairs[i].0 != pairs[j].0);
            }
        }
    }
    assert(left =~= right);
}

/// The entry at `i` taken out removes that entry's key from the mapping and
/// changes nothing else.
pub proof fn lemma_pairs_remove(pairs: Seq<(Seq<char>, Seq<char>)>, i: int)
    requires
        keys_unique(pairs),
        0 <= i < pairs.len(),
    ensures
        keys_unique(pairs.remove(i)),
        pairs_map(pairs.remove(i)) == pairs_map(pairs).remove(pairs[i].0),
{
    let key = pairs[i].0;
    let shorter = pairs.remove(i);
    assert forall|a: int| 0 <= a < shorter.len() implies #[trigger] shorter[a] == pairs[if a < i {
        a
    } else {
        a + 1
    }] by {}
    assert forall|a: int, b: int| 0 <= a < b < shorter.len() implies (#[trigger] shorter[a]).0
        != (#[trigger] shorter[b]).0 by {
        let a0 = if a < i { a } else { a + 1 };
        let b0 = if b < i { b } else { b + 1 };
        assert(shorter[a] == pairs[a0]);
        assert(shorter[b] == pairs[b0]);
        assert(pairs[a0].0 != pairs[b0].0);
    }
    lemma_pairs_map_domain(pairs);
    lemma_pairs_map_domain(shorter);
    let left = pairs_map(shorter);
    let right = pairs_map(pairs).remove(key);
    assert forall|k: Seq<char>| left.contains_key(k) <==> right.contains_key(k) by {
        if has_key(shorter, k) {
            let j = choose|j: int| 0 <= j < shorter.len() && (#[trigger] shorter[j]).0 == k;
            let j0 = if j < i { j } else { j + 1 };
            assert(shorter[j] == pairs[j0]);
            assert(pairs[j0].0 == k);
            if j0 < i {
                assert(pairs[j0].0 != pairs[i].0);
            } else {
                assert(pairs[i].0 != pairs[j0].0);
            }
        }
        if has_key(pairs, k) && k != key {
            let j = choose|j: int| 0 <= j < pairs.len() && (#[trigger] pairs[j]).0 == k;
            let j1 = if j < i { j } else { j - 1 };
            assert(shorter[j1] == pairs[j]);
            assert(shorter[j1].0 == k);
        }
    }
    assert forall|k: Seq<char>| left.contains_key(k) implies left[k] == right[k] by {
        let j = choose|j: int| 0 <= j < shorter.len() && (#[trigger] shorter[j]).0 == k;
        let j0 = if j < i { j } else { j + 1 };
        assert(shorter[j] == pairs[j0]);
        lemma_pairs_map_value(shorter, j);
        lemma_pairs_map_value(pairs, j0);
    }
    assert(left =~= right);
}

/// Whether two texts hold the same characters. The texts are compared byte
/// by byte; two texts with the same bytes are the same text.
fn same_text(a: &str, b: &str) -> (same: bool)
    ensures
        same == (a@ == b@),
{
    let left = a.as_bytes();
    let right = b.as_bytes();
    proof {
        // A text can be read back from its bytes, so equal bytes mean equal
        // texts.
        encode_utf8_decode_utf8(a@);
        encode_utf8_decode_utf8(b@);
    }
    if left.len() != right.len() {
        return false;
    }
    let mut i: usize = 0;
    while i < left.len()
        invariant
            i <= left.len(),
            left@.len() == right@.len(),
            left@ == encode_utf8(a@),
            right@ == encode_utf8(b@),
            forall|j: int| 0 <= j < i ==> left@[j] == right@[j],
        decreases left.len() - i,
    {
        if left[i] != right[i] {
            return false;
        }
        i += 1;
    }
    assert(left@ =~= right@);
    true
}

/// Where `key` stands in the list, if anywhere.
fn position(entries: &Vec<(String, String)>, key: &str) -> (at: Option<usize>)
    ensures
        match at {
            Some(i) => i < entries.len() && pair_views(entries@)[i as int].0 == key@,
            None => !has_key(pair_views(entries@), key@),
        },
{
    let mut i: usize = 0;
    while i < entries.len()
        invariant
            i <= entries.len(),
            forall|j: int| 0 <= j < i ==> (#[trigger] pair_views(entries@)[j]).0 != key@,
        decreases entries.len() - i,
    {
        if same_text(entries[i].0.as_str(), key) {
            return Some(i);
        }
        i += 1;
    }
    None
}

/// Sets `key` to `value` in a list without repeated keys: in place where the
/// key is present, at the end where it is new.
fn put(entries: &mut Vec<(String, String)>, key: &str, value: String)
    requires
        keys_unique(pair_views(old(entries)@)),
    ensures
        keys_unique(pair_views(final(entries)@)),
        pairs_map(pair_views(final(entries)@)) == pairs_map(pair_views(old(entries)@)).insert(
            key@,
            value@,
        ),
{
    let ghost before = pair_views(entries@);
    match position(entries, key) {
        Some(i) => {
            let name = entries[i].0.clone();
            proof {
                lemma_pairs_update(before, i as int, value@);
            }
            entries.set(i, (name, value));
            assert(pair_views(entries@) =~= before.update(i as int, (key@, value@)));
        },
        None => {
            proof {
                lemma_pairs_push(before, key@, value@);
            }
            entries.push((key.to_owned(), value));
            assert(pair_views(entries@) =~= before.push((key@, value@)));
        },
    }
}

/// Takes `key` out of a list without repeated keys and hands back the value
/// it had.
fn take(entries: &mut Vec<(String, String)>, key: &str) -> (taken: Option<String>)
    requires
        keys_unique(pair_views(old(entries)@)),
    ensures
        keys_unique(pair_views(final(entries)@)),
        pairs_map(pair_views(final(entries)@)) == pairs_map(pair_views(old(entries)@)).remove(key@),
        match taken {
            Some(value) => pairs_map(pair_views(old(entries)@)).contains_key(key@) && value@
                == pairs_map(pair_views(old(entries)@))[key@],
            None => !pairs_map(pair_views(old(entries)@)).contains_key(key@),
        },
{
    let ghost before = pair_views(entries@);
    proof {
        lemma_pairs_map_domain(before);
    }
    match position(entries, key) {
        Some(i) => {
            proof {
                lemma_pairs_remove(before, i as int);
                lemma_pairs_map_value(before, i as int);
            }
            let entry = entries.remove(i);
            assert(pair_views(entries@) =~= before.remove(i as int));
            Some(entry.1)
        },
        None => {
            assert(pairs_map(before).remove(key@) =~= pairs_map(before));
            None
        },
    }
}

/// The keyed values of one session. Keys and values are text; no key occurs
/// twice. Its view is the mapping from each key to its value.
#[derive(Debug)]
pub struct KeyValues {
    entries: Vec<(String, String)>,
}

impl View for KeyValues {
    type V = Map<Seq<char>, Seq<char>>;

    closed spec fn view(&self) -> Map<Seq<char>, Seq<char>> {
        pairs_map(pair_views(self.entries@))
    }
}

impl Clone for KeyValues {
    /// The same entries in the same order.
    fn clone(&self) -> (copy: Self)
        ensures
            copy@ == self@,
            copy.pairs() == self.pairs(),
    {
        proof {
            use_type_invariant(self);
        }
        let mut entries: Vec<(String, String)> = Vec::new();
        let mut n: usize = 0;
        while n < self.entries.len()
            invariant
                n <= self.entries.len(),
                pair_views(entries@) =~= pair_views(self.entries@).take(n as int),
            decreases self.entries.len() - n,
        {
            let ghost all = pair_views(self.entries@);
            let ghost before = pair_views(entries@);
            let key = self.entries[n].0.clone();
            let value = self.entries[n].1.clone();
            entries.push((key, value));
            assert(pair_views(entries@) =~= before.push(all[n as int]));
            assert(all.take(n + 1) =~= all.take(n as int).push(all[n as int]));
            n += 1;
        }
        assert(pair_views(self.entries@).take(n as int) =~= pair_views(self.entries@));
        KeyValues { entries }
    }
}

impl KeyValues {
    #[verifier::type_invariant]
    spec fn each_key_once(self) -> bool {
        keys_unique(pair_views(self.entries@))
    }

    /// The entries in the order in which they are kept.
    pub closed spec fn pairs(&self) -> Seq<(Seq<char>, Seq<char>)> {
        pair_views(self.entries@)
    }

    /// The view is the mapping of the entries, and it is finite.
    pub proof fn lemma_view(&self)
        ensures
            self@ == pairs_map(self.pairs()),
            self@.dom().finite(),
    {
        lemma_pairs_map_domain(self.pairs());
    }

    /// No values at all.
    pub fn new() -> (values: Self)
        ensures
            values@ == no_values(),
            values.pairs() == no_pairs(),
    {
        let values = KeyValues { entries: Vec::new() };
        assert(values.pairs() =~= no_pairs());
        values
    }

    /// The values that a list of entries stands for. Where a key occurs more
    /// than once in the list, its last entry counts.
    pub fn from_pairs(pairs: Vec<(String, String)>) -> (values: Self)
        ensures
            values@ == pairs_map(pair_views(pairs@)),
    {
        let mut entries: Vec<(String, String)> = Vec::new();
        let mut n: usize = 0;
        assert(pair_views(pairs@).take(0) =~= no_pairs());
        assert(pair_views(entries@) =~= no_pairs());
        while n < pairs.len()
            invariant
                n <= pairs.len(),
                keys_unique(pair_views(entries@)),
                pairs_map(pair_views(entries@)) == pairs_map(pair_views(pairs@).take(n as int)),
            decreases pairs.len() - n,
        {
            let value = pairs[n].1.clone();
            proof {
                let all = pair_views(pairs@);
                assert(all.take(n + 1) =~= all.take(n as int).push(all[n as int]));
                lemma_pairs_push(all.take(n as int), all[n as int].0, all[n as int].1);
            }
            put(&mut entries, pairs[n].0.as_str(), value);
            n += 1;
        }
        assert(pair_views(pairs@).take(n as int) =~= pair_views(pairs@));
        KeyValues { entries }
    }

    /// The entries as a list, in the order in which they are kept.
    pub fn as_pairs(&self) -> (entries: &Vec<(String, String)>)
        ensures
            pair_views(entries@) == self.pairs(),
            keys_unique(self.pairs()),
            self@ == pairs_map(self.pairs()),
    {
        proof {
            use_type_invariant(self);
        }
        &self.entries
    }

    /// How many keys have a value.
    pub fn len(&self) -> (n: usize)
        ensures
            n == self.pairs().len(),
    {
        self.entries.len()
    }

    /// The value of `key`, if it has one.
    pub fn get(&self, key: &str) -> (value: Option<&String>)
        ensures
            match value {
                Some(text) => self@.contains_key(key@) && text@ == self@[key@],
                None => !self@.contains_key(key@),
            },
    {
        proof {
            use_type_invariant(self);
            lemma_pairs_map_domain(pair_views(self.entries@));
        }
        match position(&self.entries, key) {
            Some(i) => {
                proof {
                    lemma_pairs_map_value(pair_views(self.entries@), i as int);
                }
                Some(&self.entries[i].1)
            },
            None => None,
        }
    }

    /// Gives `key` the value `value`, in place of the one it had, if any.
    pub fn insert(&mut self, key: &str, value: String)
        ensures
            final(self)@ == old(self)@.insert(key@, value@),
    {
        proof {
            use_type_invariant(&*self);
        }
        // The list is taken out, changed and put back, so that what the
        // record holds has each key once at every step.
        let mut entries: Vec<(String, String)> = Vec::new();
        core::mem::swap(&mut self.entries, &mut entries);
        put(&mut entries, key, value);
        core::mem::swap(&mut self.entries, &mut entries);
    }

    /// Takes the value of `key` away and hands it back, if it had one.
    pub fn remove(&mut self, key: &str) -> (taken: Option<String>)
        ensures
            final(self)@ == old(self)@.remove(key@),
            match taken {
                Some(value) => old(self)@.contains_key(key@) && value@ == old(self)@[key@],
                None => !old(self)@.contains_key(key@),
            },
    {
        proof {
            use_type_invariant(&*self);
        }
        let mut entries: Vec<(String, String)> = Vec::new();
        core::mem::swap(&mut self.entries, &mut entries);
        let taken = take(&mut entries, key);
        core::mem::swap(&mut self.entries, &mut entries);
        taken
    }

    /// Takes every value away.
    pub fn clear(&mut self)
        ensures
            final(self)@ == no_values(),
            final(self).pairs() == no_pairs(),
    {
        self.entries = Vec::new();
        assert(pair_views(self.entries@) =~= no_pairs());
    }
}

} // verus!
