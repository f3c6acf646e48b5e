//! An ordered list of HTTP header pairs, as the gateway reads and
//! rewrites them. Names are compared byte for byte; callers pass them
//! in the lowercase form the HTTP layer normalizes to.

use vstd::prelude::*;
use crate::text::str_eq;

verus! {

/// Header pairs in order; a name may repeat.
#[derive(Debug)]
pub struct Headers {
    pub entries: Vec<(String, String)>,
}

impl View for Headers {
    type V = Seq<(Seq<char>, Seq<char>)>;

    open spec fn view(&self) -> Seq<(Seq<char>, Seq<char>)> {
        self.entries@.map_values(|p: (String, String)| (p.0@, p.1@))
    }
}

/// Whether some pair in `hs` has the name `n`.
pub open spec fn has_header(hs: Seq<(Seq<char>, Seq<char>)>, n: Seq<char>) -> bool {
    exists|i: int| 0 <= i < hs.len() && #[trigger] hs[i].0 == n
}

/// The value of the first pair named `n`.
pub open spec fn header_value(hs: Seq<(Seq<char>, Seq<char>)>, n: Seq<char>) -> Seq<char> {
    hs[first_header_index(hs, n)].1
}

/// Index of the first pair named `n`, or `hs.len()` if there is none.
pub open spec fn first_header_index(hs: Seq<(Seq<char>, Seq<char>)>, n: Seq<char>) -> int
    decreases hs.len(),
{
    if hs.len() == 0 {
        0
    } else if hs[0].0 == n {
        0
    } else {
        1 + first_header_index(hs.subrange(1, hs.len() as int), n)
    }
}

pub proof fn lemma_first_header_index(hs: Seq<(Seq<char>, Seq<char>)>, n: Seq<char>)
    ensures
        0 <= first_header_index(hs, n) <= hs.len(),
        first_header_index(hs, n) < hs.len() ==> hs[first_header_index(hs, n)].0 == n,
        forall|j: int| 0 <= j < first_header_index(hs, n) ==> hs[j].0 != n,
        has_header(hs, n) ==> first_header_index(hs, n) < hs.len(),
    decreases hs.len(),
{
    if hs.len() > 0 && hs[0].0 != n {
        let rest = hs.subrange(1, hs.len() as int);
        lemma_first_header_index(rest, n);
        assert(forall|j: int|
            1 <= j < 1 + first_header_index(rest, n) ==> #[trigger] hs[j].0 == rest[j - 1].0);
        if has_header(hs, n) {
            let w = choose|i: int| 0 <= i < hs.len() && #[trigger] hs[i].0 == n;
            assert(rest[w - 1].0 == n);
        }
    }
}

impl Headers {
    /// No headers.
    pub fn new() -> (r: Headers)
        ensures
            r@ == Seq::<(Seq<char>, Seq<char>)>::empty(),
    {
        let h = Headers { entries: Vec::new() };
        proof {
            assert(h@ =~= Seq::<(Seq<char>, Seq<char>)>::empty());
        }
        h
    }

    /// The value of the first header named `name`, if any.
    pub fn get<'a>(&'a self, name: &str) -> (r: Option<&'a String>)
        ensures
            r is Some <==> has_header(self@, name@),
            r matches Some(v) ==> v@ == header_value(self@, name@),
    {
        let n = self.entries.len();
        let mut i: usize = 0;
        while i < n
            invariant
                0 <= i <= n,
                n == self.entries@.len(),
                forall|j: int| 0 <= j < i ==> self@[j].0 != name@,
            decreases n - i,
        {
            if str_eq(self.entries[i].0.as_str(), name) {
                proof {
                    lemma_first_header_index(self@, name@);
                    let f = first_header_index(self@, name@);
                    assert(self@[i as int].0 == name@);
                    if f < i {
                        assert(self@[f].0 == name@);
                        assert(false);
                    }
                    if f > i {
                        assert(self@[i as int].0 != name@);
                        assert(false);
                    }
                    assert(f == i);
                }
                return Some(&self.entries[i].1);
            }
            i = i + 1;
        }
        proof {
            if has_header(self@, name@) {
                let w = choose|j: int| 0 <= j < self@.len() && #[trigger] self@[j].0 == name@;
            }
        }
        None
    }

    /// Append a header pair.
    pub fn push(&mut self, name: String, value: String)
        ensures
            final(self)@ == old(self)@.push((name@, value@)),
    {
        self.entries.push((name, value));
        proof {
            assert(final(self)@ =~= old(self)@.push((name@, value@)));
        }
    }

    /// Drop every header named `name`.
    pub fn remove(&mut self, name: &str)
        ensures
            final(self)@ == old(self)@.filter(|p: (Seq<char>, Seq<char>)| p.0 != name@),
    {
        let ghost target = old(self)@;
        let mut kept: Vec<(String, String)> = Vec::new();
        let n = self.entries.len();
        let mut i: usize = 0;
        while i < n
            invariant
                0 <= i <= n,
                n == self.entries@.len(),
                self.entries@ == old(self).entries@,
                kept@.map_values(|p: (String, String)| (p.0@, p.1@)) == old(self)@.subrange(
                    0,
                    i as int,
                ).filter(|p: (Seq<char>, Seq<char>)| p.0 != name@),
            decreases n - i,
        {
            proof {
                assert(old(self)@.subrange(0, i + 1).drop_last() =~= old(self)@.subrange(
                    0,
                    i as int,
                ));
                reveal(Seq::filter);
            }
            if !str_eq(self.entries[i].0.as_str(), name) {
                let pair = (
                    self.entries[i].0.clone(),
                    self.entries[i].1.clone(),
                );
                kept.push(pair);
                proof {
                    assert(kept@.map_values(|p: (String, String)| (p.0@, p.1@)) =~= old(
                        self,
                    )@.subrange(0, i + 1).filter(|p: (Seq<char>, Seq<char>)| p.0 != name@));
                }
            } else {
                proof {
                    assert(kept@.map_values(|p: (String, String)| (p.0@, p.1@)) =~= old(
                        self,
                    )@.subrange(0, i + 1).filter(|p: (Seq<char>, Seq<char>)| p.0 != name@));
                }
            }
            i = i + 1;
        }
        self.entries = kept;
        proof {
            assert(old(self)@.subrange(0, n as int) =~= old(self)@);
        }
    }

    /// How many header pairs there are.
    pub fn len(&self) -> (r: usize)
        ensures
            r == self@.len(),
    {
        self.entries.len()
    }

    /// The pair at position `i`.
    pub fn index<'a>(&'a self, i: usize) -> (r: (&'a String, &'a String))
        requires
            i < self@.len(),
        ensures
            r.0@ == self@[i as int].0,
            r.1@ == self@[i as int].1,
    {
        (&self.entries[i].0, &self.entries[i].1)
    }
}

} // verus!
