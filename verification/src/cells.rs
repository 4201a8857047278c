//! A set of live cell coordinates, backed by a duplicate-free vector.
//!
//! Coordinates are (column, row) pairs in terminal character-cell units.
//! The abstract value of a `CellSet` is the mathematical set of its
//! coordinates; insertion order is irrelevant to every contract.

use vstd::prelude::*;

verus! {

/// A cell position: (column, row) in character-cell units.
pub type Coord = (u16, u16);

/// A finite set of live cells.
pub struct CellSet {
    cells: Vec<Coord>,
}

impl CellSet {
    /// The mathematical set of coordinates held.
    pub closed spec fn view(&self) -> Set<Coord> {
        self.cells@.to_set()
    }

    /// Well-formed: the backing vector holds no coordinate twice.
    pub closed spec fn wf(&self) -> bool {
        self.cells@.no_duplicates()
    }

    /// The coordinates in backing order; `get` walks this sequence.
    pub closed spec fn elems(&self) -> Seq<Coord> {
        self.cells@
    }

    /// Enumerating by `get` over `0 .. len()` visits every member of
    /// the set exactly once.
    pub proof fn lemma_enumeration(&self)
        requires
            self.wf(),
        ensures
            self.elems().no_duplicates(),
            self.elems().to_set() == self@,
            self.elems().len() == self@.len(),
    {
        self.cells@.unique_seq_to_set();
    }

    /// The empty set.
    pub fn new() -> (r: CellSet)
        ensures
            r.wf(),
            r@ == Set::<Coord>::empty(),
    {
        let r = CellSet { cells: Vec::new() };
        proof {
            assert(r@ =~= Set::<Coord>::empty());
        }
        r
    }

    /// Membership test.
    pub fn contains(&self, c: Coord) -> (r: bool)
        ensures
            r == self@.contains(c),
    {
        let n = self.cells.len();
        let mut i: usize = 0;
        while i < n
            invariant
                n == self.cells@.len(),
                0 <= i <= n,
                forall|j: int| 0 <= j < i ==> self.cells@[j] != c,
            decreases n - i,
        {
            let p = self.cells[i];
            if p.0 == c.0 && p.1 == c.1 {
                proof {
                    assert(self.cells@[i as int] == c);
                    assert(self.cells@.contains(c));
                }
                return true;
            }
            i += 1;
        }
        proof {
            assert(!self.cells@.contains(c));
        }
        false
    }

    /// Number of live cells.
    pub fn len(&self) -> (n: usize)
        requires
            self.wf(),
        ensures
            n == self@.len(),
    {
        proof {
            self.cells@.unique_seq_to_set();
        }
        self.cells.len()
    }

    /// The cell at backing index `i`; used to enumerate the set.
    pub fn get(&self, i: usize) -> (c: Coord)
        requires
            self.wf(),
            i < self@.len(),
        ensures
            c == self.elems()[i as int],
            self@.contains(c),
    {
        proof {
            self.cells@.unique_seq_to_set();
        }
        let c = self.cells[i];
        proof {
            assert(self.cells@.contains(c));
        }
        c
    }

    /// Adds a cell; a no-op if it is already present.
    pub fn insert(&mut self, c: Coord)
        requires
            old(self).wf(),
        ensures
            final(self).wf(),
            final(self)@ == old(self)@.insert(c),
    {
        if !self.contains(c) {
            proof {
                assert(!self.cells@.contains(c));
            }
            let ghost s = self.cells@;
            self.cells.push(c);
            proof {
                assert forall|x: Coord| #[trigger] self.cells@.contains(x)
                    <==> (s.contains(x) || x == c) by {
                    if self.cells@.contains(x) {
                        let j = choose|j: int|
                            0 <= j < self.cells@.len() && self.cells@[j] == x;
                        if j < s.len() {
                            assert(s[j] == x);
                        }
                    }
                    if s.contains(x) {
                        let j = choose|j: int| 0 <= j < s.len() && s[j] == x;
                        assert(self.cells@[j] == x);
                    }
                    if x == c {
                        assert(self.cells@[s.len() as int] == c);
                    }
                }
                assert(self@ =~= old(self)@.insert(c));
                assert forall|i: int, j: int|
                    0 <= i < self.cells@.len() && 0 <= j < self.cells@.len() && i != j
                    implies self.cells@[i] != self.cells@[j] by {
                    if i < s.len() && j < s.len() {
                        assert(s[i] != s[j]);
                    } else if i < s.len() {
                        assert(s[i] == self.cells@[i] && self.cells@[j] == c);
                        assert(s.contains(s[i]) && !s.contains(c));
                    } else {
                        assert(s[j] == self.cells@[j] && self.cells@[i] == c);
                        assert(s.contains(s[j]) && !s.contains(c));
                    }
                }
            }
        } else {
            proof {
                assert(self@ =~= old(self)@.insert(c));
            }
        }
    }

    /// Removes a cell; a no-op if it is absent.
    pub fn remove(&mut self, c: Coord)
        requires
            old(self).wf(),
        ensures
            final(self).wf(),
            final(self)@ == old(self)@.remove(c),
    {
        let n = self.cells.len();
        let mut i: usize = 0;
        while i < n
            invariant
                *self == *old(self),
                self.cells@.no_duplicates(),
                n == self.cells@.len(),
                0 <= i <= n,
                forall|j: int| 0 <= j < i ==> self.cells@[j] != c,
            decreases n - i,
        {
            let p = self.cells[i];
            if p.0 == c.0 && p.1 == c.1 {
                proof {
                    assert(self.cells@[i as int] == c);
                }
                let ghost s = self.cells@;
                let ghost ii = i as int;
                self.cells.remove(i);
                proof {
                    let t = self.cells@;
                    assert(t == s.remove(ii));
                    assert forall|x: Coord| #[trigger] t.contains(x)
                        <==> (s.contains(x) && x != c) by {
                        if t.contains(x) {
                            let j = choose|j: int| 0 <= j < t.len() && t[j] == x;
                            if j < ii {
                                assert(s[j] == x);
                                assert(s[j] != s[ii]);
                            } else {
                                assert(s[j + 1] == x);
                                assert(s[j + 1] != s[ii]);
                            }
                        }
                        if s.contains(x) && x != c {
                            let j = choose|j: int| 0 <= j < s.len() && s[j] == x;
                            if j < ii {
                                assert(t[j] == x);
                            } else {
                                assert(j != ii);
                                assert(t[j - 1] == x);
                            }
                        }
                    }
                    assert(self@ =~= old(self)@.remove(c));
                    assert forall|p: int, q: int|
                        0 <= p < t.len() && 0 <= q < t.len() && p != q
                        implies t[p] != t[q] by {
                        let p2: int = if p < ii { p } else { p + 1 };
                        let q2: int = if q < ii { q } else { q + 1 };
                        assert(t[p] == s[p2] && t[q] == s[q2]);
                        assert(s[p2] != s[q2]);
                    }
                }
                return;
            }
            i += 1;
        }
        proof {
            assert(!self.cells@.contains(c));
            assert(self@ =~= old(self)@.remove(c));
        }
    }

    /// Drops every cell.
    pub fn clear(&mut self)
        ensures
            final(self).wf(),
            final(self)@ == Set::<Coord>::empty(),
    {
        self.cells.clear();
        proof {
            assert(self@ =~= Set::<Coord>::empty());
        }
    }

    /// An independent copy: later changes to either set never affect the other.
    pub fn duplicate(&self) -> (r: CellSet)
        ensures
            r.wf() == self.wf(),
            r@ == self@,
    {
        let n = self.cells.len();
        let mut v: Vec<Coord> = Vec::new();
        let mut i: usize = 0;
        while i < n
            invariant
                n == self.cells@.len(),
                0 <= i <= n,
                v@ == self.cells@.subrange(0, i as int),
            decreases n - i,
        {
            v.push(self.cells[i]);
            i += 1;
        }
        proof {
            assert(v@ == self.cells@);
        }
        CellSet { cells: v }
    }
}

} // verus!
