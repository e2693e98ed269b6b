//! The stack allocator: a mapping from pseudo-register name to a unique
//! negative byte offset, plus the running total of allocated bytes.
//!
//! One allocator is created empty per function. Allocating a name either
//! returns its previously assigned offset (idempotence) or assigns the
//! next offset, monotonically decreasing by the slot size of 4 bytes for
//! the supported 32-bit type, and grows the total. The register allocator
//! consumes the allocator once and then discards it.

use vstd::prelude::*;

verus! {

/// Names an allocator can hold while every offset and the total still fit
/// the offset type comfortably.
pub const MAX_SLOTS: u64 = 0x1000_0000_0000_0000;

/// The views of a sequence of names.
pub open spec fn names_view(names: Seq<String>) -> Seq<Seq<char>> {
    names.map_values(|n: String| n@)
}

/// Well-formed allocator contents: no name twice.
pub open spec fn alloc_wf(a: Seq<Seq<char>>) -> bool {
    forall|i: int, j: int| 0 <= i < j < a.len() ==> a[i] != a[j]
}

/// The position of `name` among the allocated names (the last one, which
/// under well-formedness is the only one).
pub open spec fn name_index(a: Seq<Seq<char>>, name: Seq<char>) -> int
    decreases a.len(),
{
    if a.len() == 0 {
        0
    } else if a.last() == name {
        a.len() - 1
    } else {
        name_index(a.drop_last(), name)
    }
}

/// The offset assigned to an allocated name: slots grow downward from the
/// frame base, 4 bytes each.
pub open spec fn spec_offset(a: Seq<Seq<char>>, name: Seq<char>) -> int {
    -4 * (name_index(a, name) + 1)
}

/// The running total of allocated bytes.
pub open spec fn spec_total(a: Seq<Seq<char>>) -> int {
    4 * a.len() as int
}

/// A contained name's index points at it and lies inside the sequence.
pub proof fn lemma_name_index(a: Seq<Seq<char>>, name: Seq<char>)
    requires
        a.contains(name),
    ensures
        0 <= name_index(a, name) < a.len(),
        a[name_index(a, name)] == name,
    decreases a.len(),
{
    if a.len() > 0 && a.last() != name {
        assert(a.drop_last().contains(name)) by {
            let i = choose|i: int| 0 <= i < a.len() && a[i] == name;
            assert(a.drop_last()[i] == name);
        }
        lemma_name_index(a.drop_last(), name);
    }
}

/// Distinct names get distinct offsets, and `n` distinct names make a
/// running total of `n * 4` bytes: with idempotence (see `allocate`), the
/// allocator's whole observable behaviour.
pub proof fn lemma_distinct_offsets(a: Seq<Seq<char>>, n1: Seq<char>, n2: Seq<char>)
    requires
        alloc_wf(a),
        a.contains(n1),
        a.contains(n2),
        n1 != n2,
    ensures
        spec_offset(a, n1) != spec_offset(a, n2),
        spec_total(a) == 4 * a.len(),
{
    lemma_name_index(a, n1);
    lemma_name_index(a, n2);
}

/// Finding a name gives its (unique) index.
proof fn lemma_found_index(a: Seq<Seq<char>>, name: Seq<char>, i: int)
    requires
        alloc_wf(a),
        0 <= i < a.len(),
        a[i] == name,
    ensures
        name_index(a, name) == i,
    decreases a.len(),
{
    if i < a.len() - 1 {
        assert(a.last() != name);
        assert(a.drop_last()[i] == name);
        lemma_found_index(a.drop_last(), name, i);
    }
}

/// The stack allocator: the allocated names in assignment order. The
/// offset of a name and the running total follow from its position.
#[derive(Debug)]
pub struct StackAllocator {
    names: Vec<String>,
}

impl View for StackAllocator {
    type V = Seq<Seq<char>>;

    closed spec fn view(&self) -> Seq<Seq<char>> {
        names_view(self.names@)
    }
}

impl StackAllocator {
    /// An empty allocator.
    pub fn new() -> (r: Self)
        ensures
            r@ == Seq::<Seq<char>>::empty(),
            alloc_wf(r@),
    {
        let r = StackAllocator { names: Vec::new() };
        proof {
            assert(r@ =~= Seq::<Seq<char>>::empty());
        }
        r
    }

    /// The offset of `name`: the one already assigned to it, or the next
    /// free slot, 4 bytes below everything allocated so far.
    pub fn allocate(&mut self, name: &str) -> (r: i64)
        requires
            alloc_wf(old(self)@),
            old(self)@.len() < MAX_SLOTS,
        ensures
            alloc_wf(final(self)@),
            r == spec_offset(final(self)@, name@),
            if old(self)@.contains(name@) {
                final(self)@ == old(self)@
            } else {
                final(self)@ == old(self)@.push(name@) && r == -4 * (old(self)@.len() + 1)
            },
    {
        let n = self.names.len();
        let mut i: usize = 0;
        while i < n
            invariant
                self@ == old(self)@,
                alloc_wf(self@),
                self@.len() < MAX_SLOTS,
                n == self.names@.len(),
                i <= n,
                forall|k: int| 0 <= k < i ==> self@[k] != name@,
            decreases n - i,
        {
            if crate::text::str_eq(name, self.names[i].as_str()) {
                proof {
                    assert(self@.contains(name@)) by {
                        assert(self@[i as int] == name@);
                    }
                    lemma_found_index(self@, name@, i as int);
                }
                return -4 * (i as i64 + 1);
            }
            i += 1;
        }
        proof {
            assert(!self@.contains(name@));
            assert(forall|k: int| 0 <= k < self@.len() ==> self@[k] != name@);
        }
        let owned = name.to_owned();
        let ghost prev = self@;
        self.names.push(owned);
        proof {
            assert(self@ =~= prev.push(name@));
            assert(self@.drop_last() =~= prev);
            assert(alloc_wf(self@));
        }
        let len = self.names.len();
        -4 * (len as i64)
    }

    /// The running total of allocated bytes: 4 per distinct name seen.
    pub fn get(&self) -> (r: i64)
        requires
            self@.len() <= MAX_SLOTS,
        ensures
            r == spec_total(self@),
    {
        (self.names.len() as i64) * 4
    }
}

} // verus!
