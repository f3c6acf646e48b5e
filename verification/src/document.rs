//! A small document model: what the gateway writes into query filters and
//! update documents, as a key-to-value record with unique keys.

use vstd::prelude::*;
use crate::kvlist::{kv_map, kv_unique, lemma_kv_map_at, lemma_kv_map_dom, lemma_kv_remove, lemma_kv_update};
use crate::text::str_eq;

verus! {

/// A value a document field can hold.
#[derive(Debug)]
pub enum FieldValue {
    Bool(bool),
    Int(i64),
    Text(String),
    TextList(Vec<String>),
    Doc(Document),
}

/// A record of named fields with unique keys. What it means is its view:
/// a map from key characters to values.
#[derive(Debug)]
pub struct Document {
    pub entries: Vec<(String, FieldValue)>,
}

impl View for Document {
    type V = Map<Seq<char>, FieldValue>;

    open spec fn view(&self) -> Map<Seq<char>, FieldValue> {
        kv_map(self.entries@)
    }
}

impl Document {
    /// A document with unique keys, as every public operation keeps it.
    pub open spec fn wf(&self) -> bool {
        kv_unique(self.entries@)
    }

    /// The empty document.
    pub fn new() -> (r: Document)
        ensures
            r.wf(),
            r@ == Map::<Seq<char>, FieldValue>::empty(),
    {
        Document { entries: Vec::new() }
    }

    /// Whether a field named `key` is present.
    pub fn contains_key(&self, key: &str) -> (r: bool)
        ensures
            r == self@.dom().contains(key@),
    {
        let n = self.entries.len();
        let mut i: usize = 0;
        while i < n
            invariant
                0 <= i <= n,
                n == self.entries@.len(),
                forall|j: int| 0 <= j < i ==> self.entries@[j].0@ != key@,
            decreases n - i,
        {
            if str_eq(self.entries[i].0.as_str(), key) {
                proof {
                    lemma_kv_map_dom(self.entries@, key@);
                }
                return true;
            }
            i = i + 1;
        }
        proof {
            lemma_kv_map_dom(self.entries@, key@);
        }
        false
    }

    /// The value of the field named `key`, if present.
    pub fn get<'a>(&'a self, key: &str) -> (r: Option<&'a FieldValue>)
        requires
            self.wf(),
        ensures
            r is Some <==> self@.dom().contains(key@),
            r matches Some(v) ==> *v == self@[key@],
    {
        let n = self.entries.len();
        let mut i: usize = 0;
        while i < n
            invariant
                0 <= i <= n,
                n == self.entries@.len(),
                self.wf(),
                forall|j: int| 0 <= j < i ==> self.entries@[j].0@ != key@,
            decreases n - i,
        {
            if str_eq(self.entries[i].0.as_str(), key) {
                proof {
                    lemma_kv_map_at(self.entries@, i as int);
                }
                return Some(&self.entries[i].1);
            }
            i = i + 1;
        }
        proof {
            lemma_kv_map_dom(self.entries@, key@);
        }
        None
    }

    /// The text of the field named `key`, if it is present and textual.
    pub fn get_str<'a>(&'a self, key: &str) -> (r: Option<&'a String>)
        requires
            self.wf(),
        ensures
            r is Some <==> self@.dom().contains(key@) && self@[key@] is Text,
            r matches Some(v) ==> self@[key@] == FieldValue::Text(*v),
    {
        match self.get(key) {
            Some(FieldValue::Text(t)) => Some(t),
            _ => None,
        }
    }

    /// The boolean of the field named `key`, if it is present and boolean.
    pub fn get_bool(&self, key: &str) -> (r: Option<bool>)
        requires
            self.wf(),
        ensures
            r is Some <==> self@.dom().contains(key@) && self@[key@] is Bool,
            r matches Some(v) ==> self@[key@] == FieldValue::Bool(v),
    {
        match self.get(key) {
            Some(FieldValue::Bool(b)) => Some(*b),
            _ => None,
        }
    }

    /// Set the field named `key`, replacing any value it had.
    pub fn insert(&mut self, key: &str, value: FieldValue)
        requires
            old(self).wf(),
        ensures
            final(self).wf(),
            final(self)@ == old(self)@.insert(key@, value),
    {
        let n = self.entries.len();
        let mut i: usize = 0;
        while i < n
            invariant
                0 <= i <= n,
                n == self.entries@.len(),
                self.wf(),
                self.entries@ == old(self).entries@,
                forall|j: int| 0 <= j < i ==> self.entries@[j].0@ != key@,
            decreases n - i,
        {
            if str_eq(self.entries[i].0.as_str(), key) {
                let k = key.to_owned();
                self.entries.set(i, (k, value));
                proof {
                    let u = self.entries@[i as int];
                    lemma_kv_update(old(self).entries@, i as int, key@, u);
                }
                return ;
            }
            i = i + 1;
        }
        let k = key.to_owned();
        self.entries.push((k, value));
        proof {
            assert(self.entries@.drop_last() =~= old(self).entries@);
            assert(kv_unique(self.entries@)) by {
                assert(forall|j: int|
                    0 <= j < old(self).entries@.len() ==> #[trigger] self.entries@[j].0@ == old(
                        self,
                    ).entries@[j].0@ && self.entries@[j].0@ != key@);
            }
        }
    }

    /// Drop the field named `key`, if present.
    pub fn remove(&mut self, key: &str)
        requires
            old(self).wf(),
        ensures
            final(self).wf(),
            final(self)@ == old(self)@.remove(key@),
    {
        let n = self.entries.len();
        let mut i: usize = 0;
        while i < n
            invariant
                0 <= i <= n,
                n == self.entries@.len(),
                self.wf(),
                self.entries@ == old(self).entries@,
                forall|j: int| 0 <= j < i ==> self.entries@[j].0@ != key@,
            decreases n - i,
        {
            if str_eq(self.entries[i].0.as_str(), key) {
                self.entries.remove(i);
                proof {
                    lemma_kv_remove(old(self).entries@, i as int, key@);
                }
                return ;
            }
            i = i + 1;
        }
        proof {
            lemma_kv_map_dom(self.entries@, key@);
            assert(self@ =~= self@.remove(key@));
        }
    }

    /// How many fields the document holds.
    pub fn len(&self) -> (r: usize)
        ensures
            r == self.entries@.len(),
    {
        self.entries.len()
    }
}

} // verus!
