//! A page-table-backed address space, reduced to what this layer observes
//! of it: the words user code has written, as a map from address to value.
//! Address spaces are owned by the kernel state and named by indices; tasks
//! cloned with address-space sharing name the same space.

use vstd::prelude::*;

verus! {

/// One recorded user-memory write.
#[derive(Clone, Copy, Debug, PartialEq, Eq, Structural)]
pub struct MemCell {
    /// The written address.
    pub addr: usize,
    /// The written value.
    pub val: u64,
}

/// The memory contents described by a record of writes: the latest write to
/// each address wins.
pub open spec fn spec_mem(s: Seq<MemCell>) -> Map<usize, u64>
    decreases s.len(),
{
    if s.len() == 0 {
        Map::empty()
    } else {
        spec_mem(s.drop_last()).insert(s.last().addr, s.last().val)
    }
}

/// An address space: the record of writes made through it.
#[derive(Clone, Debug)]
pub struct AddrSpace {
    pub writes: Vec<MemCell>,
}

impl AddrSpace {
    /// The memory contents of this space.
    pub open spec fn mem(self) -> Map<usize, u64> {
        spec_mem(self.writes@)
    }

    /// A fresh, empty address space.
    pub fn new() -> (r: AddrSpace)
        ensures
            r.mem() == Map::<usize, u64>::empty(),
    {
        AddrSpace { writes: Vec::new() }
    }

    /// Write one word.
    pub fn write(&mut self, addr: usize, val: u64)
        ensures
            final (self).mem() == old(self).mem().insert(addr, val),
    {
        self.writes.push(MemCell { addr, val });
        proof {
            assert(self.writes@.drop_last() =~= old(self).writes@);
        }
    }

    /// Read one word: the latest value written to the address, or nothing
    /// if the address was never written.
    pub fn read(&self, addr: usize) -> (r: Option<u64>)
        ensures
            r == if self.mem().dom().contains(addr) {
                Some(self.mem()[addr])
            } else {
                None
            },
    {
        let mut i: usize = self.writes.len();
        proof {
            assert(self.writes@.take(i as int) =~= self.writes@);
        }
        while i > 0
            invariant
                i <= self.writes@.len(),
                spec_mem(self.writes@).dom().contains(addr) == spec_mem(
                    self.writes@.take(i as int),
                ).dom().contains(addr),
                spec_mem(self.writes@).dom().contains(addr) ==> spec_mem(self.writes@)[addr]
                    == spec_mem(self.writes@.take(i as int))[addr],
            decreases i,
        {
            i = i - 1;
            let cell = self.writes[i];
            proof {
                assert(self.writes@.take(i + 1).drop_last() =~= self.writes@.take(i as int));
                assert(self.writes@.take(i + 1).last() == self.writes@[i as int]);
            }
            if cell.addr == addr {
                return Some(cell.val);
            }
        }
        proof {
            assert(self.writes@.take(0) =~= Seq::<MemCell>::empty());
        }
        None
    }

    /// An exact copy of this space, as clone makes when the address space
    /// is not shared: afterwards, writes through one copy are invisible
    /// through the other.
    pub fn duplicate(&self) -> (r: AddrSpace)
        ensures
            r.mem() == self.mem(),
    {
        let mut writes: Vec<MemCell> = Vec::new();
        let mut i: usize = 0;
        while i < self.writes.len()
            invariant
                i <= self.writes@.len(),
                writes@ == self.writes@.take(i as int),
            decreases self.writes@.len() - i,
        {
            writes.push(self.writes[i]);
            proof {
                assert(writes@ =~= self.writes@.take(i + 1));
            }
            i = i + 1;
        }
        proof {
            assert(self.writes@.take(self.writes@.len() as int) =~= self.writes@);
        }
        AddrSpace { writes }
    }
}

} // verus!
