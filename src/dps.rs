//! The device's data points: an ordered map from DP id (a decimal string) to a
//! JSON scalar. The order of the entries is the order in which they reach the
//! device, and it matters: some lamps apply a colour only when the mode DP
//! comes after it.
use vstd::prelude::*;
use vstd::string::*;

verus! {

/// One DP value, a JSON scalar.
#[derive(Clone, Debug, PartialEq, Eq)]
pub enum DpValue {
    Null,
    Bool(bool),
    /// A non-negative integer.
    Unsigned(u64),
    /// A negative integer.
    Signed(i64),
    Text(String),
    /// Any other JSON value (a fraction, an array, an object), as its JSON text.
    Other(String),
}

/// The mathematical value of a [`DpValue`].
pub enum DpVal {
    Null,
    Bool(bool),
    Unsigned(u64),
    Signed(i64),
    Text(Seq<char>),
    Other(Seq<char>),
}

impl View for DpValue {
    type V = DpVal;

    open spec fn view(&self) -> DpVal {
        match self {
            DpValue::Null => DpVal::Null,
            DpValue::Bool(b) => DpVal::Bool(*b),
            DpValue::Unsigned(n) => DpVal::Unsigned(*n),
            DpValue::Signed(n) => DpVal::Signed(*n),
            DpValue::Text(s) => DpVal::Text(s@),
            DpValue::Other(s) => DpVal::Other(s@),
        }
    }
}

/// The entries of a DP map, in order.
pub type DpEntries = Seq<(Seq<char>, DpVal)>;

/// Whether some entry of `m` has `key`.
pub open spec fn has_key(m: DpEntries, key: Seq<char>) -> bool {
    exists|i: int| 0 <= i < m.len() && m[i].0 == key
}

/// Below an entry with `key` there is a first one.
proof fn lemma_first_below(m: DpEntries, key: Seq<char>, w: int)
    requires
        0 <= w < m.len(),
        m[w].0 == key,
    ensures
        exists|p: int|
            0 <= p <= w && m[p].0 == key && forall|j: int| 0 <= j < p ==> m[j].0 != key,
    decreases w,
{
    if exists|j: int| 0 <= j < w && m[j].0 == key {
        let j = choose|j: int| 0 <= j < w && m[j].0 == key;
        lemma_first_below(m, key, j);
    } else {
        assert(forall|j: int| 0 <= j < w ==> m[j].0 != key);
    }
}

/// Where `m` has `key`, `position` names its first entry.
pub proof fn lemma_position_first(m: DpEntries, key: Seq<char>)
    requires
        has_key(m, key),
    ensures
        position(m, key) matches Some(p) && 0 <= p < m.len() && m[p].0 == key && forall|j: int|
            0 <= j < p ==> m[j].0 != key,
{
    let w = choose|w: int| 0 <= w < m.len() && m[w].0 == key;
    lemma_first_below(m, key, w);
}

/// After setting `key`, looking it up gives the value set.
pub proof fn lemma_lookup_insert_same(m: DpEntries, key: Seq<char>, value: DpVal)
    ensures
        lookup(insert_entry(m, key, value), key) == Some(value),
        has_key(insert_entry(m, key, value), key),
{
    let r = insert_entry(m, key, value);
    if has_key(m, key) {
        lemma_position_first(m, key);
        let p = position(m, key)->0;
        lemma_first_position(r, key, p);
    } else {
        assert(position(m, key) is None);
        lemma_first_position(r, key, m.len() as int);
    }
}

/// Setting one key leaves the lookup of every other key as it was, and the
/// other keys present as they were.
pub proof fn lemma_lookup_insert_other(m: DpEntries, key: Seq<char>, value: DpVal, other: Seq<char>)
    requires
        other != key,
    ensures
        lookup(insert_entry(m, key, value), other) == lookup(m, other),
        has_key(insert_entry(m, key, value), other) == has_key(m, other),
{
    let r = insert_entry(m, key, value);
    if has_key(m, key) {
        lemma_position_first(m, key);
    }
    assert(forall|i: int| 0 <= i < m.len() ==> (#[trigger] r[i].0 == other <==> m[i].0 == other));
    if has_key(m, other) {
        lemma_position_first(m, other);
        let p = position(m, other)->0;
        lemma_first_position(r, other, p);
    } else {
        if has_key(r, other) {
            let i = choose|i: int| 0 <= i < r.len() && r[i].0 == other;
            assert(i < m.len());
        }
    }
}

/// The index of the first entry of `m` with `key`, if there is one.
pub open spec fn position(m: DpEntries, key: Seq<char>) -> Option<int> {
    if exists|i: int| 0 <= i < m.len() && m[i].0 == key {
        Some(
            choose|i: int|
                0 <= i < m.len() && m[i].0 == key && forall|j: int| 0 <= j < i ==> m[j].0 != key,
        )
    } else {
        None
    }
}

/// The value stored under `key`.
pub open spec fn lookup(m: DpEntries, key: Seq<char>) -> Option<DpVal> {
    match position(m, key) {
        Some(i) => Some(m[i].1),
        None => None,
    }
}

/// `m` with `key` set to `value`: an existing entry keeps its place, a new
/// one goes last.
pub open spec fn insert_entry(m: DpEntries, key: Seq<char>, value: DpVal) -> DpEntries {
    match position(m, key) {
        Some(i) => m.update(i, (key, value)),
        None => m.push((key, value)),
    }
}

/// Where `i` is the first entry with `key`, it is the one that `position` names.
pub proof fn lemma_first_position(m: DpEntries, key: Seq<char>, i: int)
    requires
        0 <= i < m.len(),
        m[i].0 == key,
        forall|j: int| 0 <= j < i ==> m[j].0 != key,
    ensures
        position(m, key) == Some(i),
{
    let k = choose|k: int|
        0 <= k < m.len() && m[k].0 == key && forall|j: int| 0 <= j < k ==> m[j].0 != key;
    assert(k == i) by {
        if k > i {
            assert(m[i].0 == key);
        }
    }
}

/// A DP map.
#[derive(Clone, Debug, PartialEq, Eq)]
pub struct DpMap {
    entries: Vec<(String, DpValue)>,
}

impl View for DpMap {
    type V = DpEntries;

    closed spec fn view(&self) -> DpEntries {
        self.entries@.map_values(|e: (String, DpValue)| (e.0@, e.1@))
    }
}

impl DpMap {
    /// The empty map.
    pub fn new() -> (r: DpMap)
        ensures
            r@ == Seq::<(Seq<char>, DpVal)>::empty(),
    {
        let r = DpMap { entries: Vec::new() };
        assert(r@ =~= Seq::<(Seq<char>, DpVal)>::empty());
        r
    }

    /// The number of entries.
    pub fn len(&self) -> (r: usize)
        ensures
            r == self@.len(),
    {
        self.entries.len()
    }

    /// The key of entry `i`.
    pub fn key(&self, i: usize) -> (r: &str)
        requires
            i < self@.len(),
        ensures
            r@ == self@[i as int].0,
    {
        self.entries[i].0.as_str()
    }

    /// The value of entry `i`.
    pub fn value(&self, i: usize) -> (r: &DpValue)
        requires
            i < self@.len(),
        ensures
            r@ == self@[i as int].1,
    {
        &self.entries[i].1
    }

    /// The index of the first entry with `key`.
    fn find(&self, key: &String) -> (r: Option<usize>)
        ensures
            r matches Some(i) ==> i < self@.len() && position(self@, key@) == Some(i as int),
            r is None ==> position(self@, key@) is None,
    {
        let mut i: usize = 0;
        while i < self.entries.len()
            invariant
                i <= self@.len(),
                forall|j: int| 0 <= j < i ==> self@[j].0 != key@,
            decreases self@.len() - i,
        {
            if self.entries[i].0 == *key {
                proof {
                    lemma_first_position(self@, key@, i as int);
                }
                return Some(i);
            }
            i = i + 1;
        }
        None
    }

    /// The value stored under `key`.
    pub fn get(&self, key: &str) -> (r: Option<&DpValue>)
        ensures
            r matches Some(v) ==> lookup(self@, key@) == Some(v@),
            r is None ==> lookup(self@, key@) is None,
    {
        let key = String::from_str(key);
        match self.find(&key) {
            Some(i) => Some(&self.entries[i].1),
            None => None,
        }
    }

    /// Sets `key` to `value`, in place if the key is there, else as the last entry.
    pub fn insert(&mut self, key: String, value: DpValue)
        ensures
            final(self)@ == insert_entry(old(self)@, key@, value@),
    {
        match self.find(&key) {
            Some(i) => {
                let ghost k = key@;
                let ghost v = value@;
                self.entries.set(i, (key, value));
                assert(self@ =~= old(self)@.update(i as int, (k, v)));
            },
            None => {
                let ghost k = key@;
                let ghost v = value@;
                self.entries.push((key, value));
                assert(self@ =~= old(self)@.push((k, v)));
            },
        }
    }
}

} // verus!
