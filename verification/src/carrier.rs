//! The carrier: a key/value surface (HTTP headers in this system) used
//! purely as a transport for a serialized context. Reading a key yields
//! the value most recently written for it.

use vstd::prelude::*;

verus! {

/// The value a key maps to in a sequence of entries: the last entry
/// written for the key wins, so a later `set` overwrites an earlier one.
pub open spec fn seq_get(m: Seq<(Seq<u8>, Seq<u8>)>, key: Seq<u8>) -> Option<Seq<u8>>
    decreases m.len(),
{
    if m.len() == 0 {
        None
    } else if m.last().0 == key {
        Some(m.last().1)
    } else {
        seq_get(m.drop_last(), key)
    }
}

/// An opaque mapping of byte-string keys to byte-string values.
pub struct Carrier {
    entries: Vec<(Vec<u8>, Vec<u8>)>,
}

impl View for Carrier {
    type V = Seq<(Seq<u8>, Seq<u8>)>;

    closed spec fn view(&self) -> Seq<(Seq<u8>, Seq<u8>)> {
        self.entries@.map_values(|e: (Vec<u8>, Vec<u8>)| (e.0@, e.1@))
    }
}

impl Carrier {
    /// The value the carrier holds for a key.
    pub open spec fn spec_get(self, key: Seq<u8>) -> Option<Seq<u8>> {
        seq_get(self@, key)
    }

    /// A carrier with no entries.
    pub fn new() -> (r: Carrier)
        ensures
            r@ =~= Seq::<(Seq<u8>, Seq<u8>)>::empty(),
            forall|k: Seq<u8>| r.spec_get(k) == None::<Seq<u8>>,
    {
        let r = Carrier { entries: Vec::new() };
        proof {
            assert(r@ =~= Seq::<(Seq<u8>, Seq<u8>)>::empty());
        }
        r
    }

    /// Writes a value under a key, overwriting any prior value there;
    /// every other key keeps its value.
    pub fn set(&mut self, key: Vec<u8>, value: Vec<u8>)
        ensures
            final(self).spec_get(key@) == Some(value@),
            forall|k: Seq<u8>| k != key@ ==> final(self).spec_get(k) == old(self).spec_get(k),
            final(self)@ =~= old(self)@.push((key@, value@)),
    {
        let ghost key_view = key@;
        let ghost value_view = value@;
        self.entries.push((key, value));
        proof {
            assert(self@ =~= old(self)@.push((key_view, value_view)));
            assert(self@.drop_last() =~= old(self)@);
        }
    }

    /// Reads the value for a key, `None` when the key is absent.
    pub fn get(&self, key: &[u8]) -> (r: Option<&Vec<u8>>)
        ensures
            match r {
                Some(v) => self.spec_get(key@) == Some(v@),
                None => self.spec_get(key@) == None::<Seq<u8>>,
            },
    {
        let n = self.entries.len();
        let mut j: usize = n;
        proof {
            assert(self@.subrange(0, n as int) =~= self@);
        }
        while j > 0
            invariant
                0 <= j <= n,
                n == self.entries@.len(),
                self@.len() == n,
                seq_get(self@, key@) == seq_get(self@.subrange(0, j as int), key@),
            decreases j,
        {
            proof {
                let pre = self@.subrange(0, j as int);
                assert(pre.last() == self@[j - 1]);
                assert(pre.drop_last() =~= self@.subrange(0, j - 1));
            }
            if bytes_eq(self.entries[j - 1].0.as_slice(), key) {
                return Some(&self.entries[j - 1].1);
            }
            j -= 1;
        }
        proof {
            assert(self@.subrange(0, 0) =~= Seq::<(Seq<u8>, Seq<u8>)>::empty());
        }
        None
    }

    /// How many entries the carrier holds (stale overwritten entries
    /// included).
    pub fn entry_count(&self) -> (r: usize)
        ensures
            r == self@.len(),
    {
        self.entries.len()
    }

    /// The key and value of one entry.
    pub fn entry_at(&self, i: usize) -> (r: (&Vec<u8>, &Vec<u8>))
        requires
            i < self@.len(),
        ensures
            (r.0@, r.1@) == self@[i as int],
    {
        (&self.entries[i].0, &self.entries[i].1)
    }
}

/// Whether two byte strings hold the same bytes.
pub fn bytes_eq(a: &[u8], b: &[u8]) -> (r: bool)
    ensures
        r == (a@ == b@),
{
    if a.len() != b.len() {
        return false;
    }
    let n = a.len();
    let mut i: usize = 0;
    while i < n
        invariant
            0 <= i <= n,
            n == a@.len() == b@.len(),
            forall|j: int| 0 <= j < i ==> a@[j] == b@[j],
        decreases n - i,
    {
        if a[i] != b[i] {
            return false;
        }
        i += 1;
    }
    proof {
        assert(a@ =~= b@);
    }
    true
}

} // verus!
