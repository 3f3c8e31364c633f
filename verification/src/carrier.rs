//! The carrier: the header map of one in-flight request, as the propagation
//! protocol sees it. Lookup takes the first entry with a matching name, and
//! writing a header puts the new entry in front, so it wins every later
//! lookup without disturbing the rest.

use vstd::prelude::*;
use vstd::string::*;

verus! {

/// The first value recorded under `key`, if any.
pub open spec fn lookup(entries: Seq<(Seq<char>, Seq<char>)>, key: Seq<char>) -> Option<Seq<char>>
    decreases entries.len(),
{
    if entries.len() == 0 {
        None
    } else if entries[0].0 == key {
        Some(entries[0].1)
    } else {
        lookup(entries.drop_first(), key)
    }
}

/// A mutable header map carried by one request or response.
pub struct Carrier {
    pub entries: Vec<(String, String)>,
}

impl View for Carrier {
    type V = Seq<(Seq<char>, Seq<char>)>;

    open spec fn view(&self) -> Seq<(Seq<char>, Seq<char>)> {
        Seq::new(self.entries@.len(), |i: int| (self.entries@[i].0@, self.entries@[i].1@))
    }
}

impl Carrier {
    pub fn new() -> (r: Carrier)
        ensures
            r@ == Seq::<(Seq<char>, Seq<char>)>::empty(),
    {
        let r = Carrier { entries: Vec::new() };
        proof {
            assert(r@ =~= Seq::<(Seq<char>, Seq<char>)>::empty());
        }
        r
    }

    /// Records a header. The new entry stands first, so it shadows any
    /// earlier entry of the same name and leaves every other name unchanged.
    pub fn set(&mut self, key: String, value: String)
        ensures
            final(self)@ == seq![(key@, value@)] + old(self)@,
    {
        let ghost k = key@;
        let ghost v = value@;
        self.entries.insert(0, (key, value));
        proof {
            assert(self@ =~= seq![(k, v)] + old(self)@);
        }
    }

    /// The first value recorded under `key`, copied out.
    pub fn get(&self, key: &str) -> (r: Option<String>)
        ensures
            match r {
                Some(v) => lookup(self@, key@) == Some(v@),
                None => lookup(self@, key@) is None,
            },
    {
        let wanted: String = key.to_owned();
        let n = self.entries.len();
        let mut i: usize = 0;
        proof {
            assert(self@.subrange(0, n as int) =~= self@);
        }
        while i < n
            invariant
                i <= n,
                n == self.entries@.len(),
                wanted@ == key@,
                lookup(self@, key@) == lookup(self@.subrange(i as int, n as int), key@),
            decreases n - i,
        {
            let entry_key: &String = &self.entries[i].0;
            if entry_key.eq(&wanted) {
                proof {
                    let j = i as int;
                    assert(self@.subrange(j, n as int)[0] == (self@[j].0, self@[j].1));
                }
                return Some(self.entries[i].1.clone());
            }
            proof {
                assert(self@.subrange(i as int, n as int).drop_first() =~= self@.subrange(
                    i as int + 1,
                    n as int,
                ));
            }
            i += 1;
        }
        proof {
            assert(self@.subrange(n as int, n as int).len() == 0);
        }
        None
    }
}

} // verus!
