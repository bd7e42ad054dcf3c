//! The server properties table.
//!
//! The server reads its settings from a key/value file. The writer that
//! loads and saves the file lives outside the library; this module holds
//! the table itself and the update rule: setting a key overwrites the value
//! of the one entry holding that key, or appends a new entry, so keys stay
//! unique and unrelated entries keep their place.

use vstd::prelude::*;

verus! {

use vstd::string::StrSliceExecFns;

/// Whether two strings hold the same characters.
pub fn str_eq(a: &str, b: &str) -> (r: bool)
    ensures
        r == (a@ == b@),
{
    let n = a.unicode_len();
    let m = b.unicode_len();
    if n != m {
        return false;
    }
    let mut i: usize = 0;
    while i < n
        invariant
            n == a@.len(),
            n == b@.len(),
            i <= n,
            forall|j: int| 0 <= j < i ==> a@[j] == b@[j],
        decreases n - i,
    {
        if a.get_char(i) != b.get_char(i) {
            return false;
        }
        i = i + 1;
    }
    proof {
        assert(a@ =~= b@);
    }
    true
}

/// One `key=value` setting.
pub struct Property {
    pub key: String,
    pub value: String,
}

/// The settings table, in file order.
pub struct ServerProperties {
    pub entries: Vec<Property>,
}

impl ServerProperties {
    /// The table is well formed when no two entries share a key.
    pub open spec fn wf(self) -> bool {
        forall|i: int, j: int|
            0 <= i < j < self.entries@.len() ==> self.entries@[i].key@ != self.entries@[j].key@
    }

    /// An empty table.
    pub fn new() -> (p: ServerProperties)
        ensures
            p.wf(),
            p.entries@.len() == 0,
    {
        ServerProperties { entries: Vec::new() }
    }

    /// The value stored under `key`, if any.
    pub fn get(&self, key: &str) -> (r: Option<&String>)
        ensures
            match r {
                Some(v) => exists|i: int|
                    0 <= i < self.entries@.len() && self.entries@[i].key@ == key@
                        && v@ == self.entries@[i].value@,
                None => forall|i: int|
                    0 <= i < self.entries@.len() ==> self.entries@[i].key@ != key@,
            },
    {
        let n = self.entries.len();
        let mut i: usize = 0;
        while i < n
            invariant
                n == self.entries@.len(),
                i <= n,
                forall|j: int| 0 <= j < i ==> self.entries@[j].key@ != key@,
            decreases n - i,
        {
            if str_eq(self.entries[i].key.as_str(), key) {
                return Some(&self.entries[i].value);
            }
            i = i + 1;
        }
        None
    }

    /// Stores `value` under `key`: the one entry holding `key` gets the new
    /// value and every other entry is untouched, or, when no entry holds
    /// `key`, a new entry goes to the end of the table.
    pub fn set(&mut self, key: &str, value: &str)
        requires
            old(self).wf(),
        ensures
            final(self).wf(),
            forall|i: int|
                0 <= i < old(self).entries@.len() && old(self).entries@[i].key@ == key@ ==> {
                    &&& final(self).entries@.len() == old(self).entries@.len()
                    &&& final(self).entries@[i].key@ == key@
                    &&& final(self).entries@[i].value@ == value@
                    &&& forall|j: int|
                        0 <= j < old(self).entries@.len() && j != i ==> final(self).entries@[j]
                            == old(self).entries@[j]
                },
            (forall|i: int|
                0 <= i < old(self).entries@.len() ==> old(self).entries@[i].key@ != key@) ==> {
                &&& final(self).entries@.len() == old(self).entries@.len() + 1
                &&& final(self).entries@.subrange(0, old(self).entries@.len() as int) == old(
                    self,
                ).entries@
                &&& final(self).entries@.last().key@ == key@
                &&& final(self).entries@.last().value@ == value@
            },
    {
        let n = self.entries.len();
        let mut idx: usize = 0;
        while idx < n
            invariant
                old(self).wf(),
                n == self.entries@.len(),
                idx <= n,
                *self == *old(self),
                forall|j: int| 0 <= j < idx ==> self.entries@[j].key@ != key@,
            decreases n - idx,
        {
            if str_eq(self.entries[idx].key.as_str(), key) {
                let mut entry = self.entries.remove(idx);
                entry.value = value.to_owned();
                self.entries.insert(idx, entry);
                proof {
                    assert forall|i: int|
                        0 <= i < old(self).entries@.len() && old(self).entries@[i].key@
                            == key@ implies i == idx by {}
                    assert forall|j: int|
                        0 <= j < old(self).entries@.len() && j != idx implies self.entries@[j]
                        == old(self).entries@[j] by {}
                }
                return ;
            }
            idx = idx + 1;
        }
        self.entries.push(Property { key: key.to_owned(), value: value.to_owned() });
        proof {
            assert(self.entries@.subrange(0, old(self).entries@.len() as int) =~= old(
                self,
            ).entries@);
        }
    }
}

} // verus!
