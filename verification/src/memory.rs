//! Choosing a memory type for an allocation.
use vstd::prelude::*;

verus! {

/// The memory types of a physical device: how many there are, and the
/// property flags of each.
#[derive(Debug)]
pub struct MemoryProperties {
    pub memory_type_count: u32,
    pub memory_type_flags: Vec<u32>,
}

/// Memory type `index`, with property flags `property_flags`, is allowed by
/// the mask `type_bits` and has every flag of `flags`.
pub open spec fn memory_type_suits(type_bits: u32, index: u32, property_flags: u32, flags: u32) -> bool {
    &&& (1u32 << index) & type_bits != 0
    &&& property_flags & flags == flags
}

/// The memory types the table can describe: at most 32 (one per bit of a
/// type mask), each with its flags.
pub open spec fn memory_properties_valid(p: MemoryProperties) -> bool {
    &&& p.memory_type_count <= 32
    &&& p.memory_type_count <= p.memory_type_flags@.len()
}

/// A memory type suits a request exactly when the request's type mask has
/// the bit of its index set and the type has every requested property flag
/// (having only some of them is not enough).
pub proof fn lemma_memory_type_suits(type_bits: u32, flags: u32)
    ensures
        forall|index: u32, property_flags: u32| index < 32 ==> (#[trigger] memory_type_suits(type_bits, index, property_flags, flags)
            <==> ((type_bits >> index) & 1 == 1 && property_flags & flags == flags)),
{
    assert forall|index: u32| index < 32 implies (((1u32 << index) & type_bits != 0) <==> ((type_bits >> index) & 1 == 1)) by {
        assert(index < 32 ==> (((1u32 << index) & type_bits != 0) <==> ((type_bits >> index) & 1 == 1))) by (bit_vector);
    }
}

impl MemoryProperties {
    /// The first memory type that the mask `memory_type_bits` allows and
    /// that has every property flag of `flags`; `None` when there is none.
    pub fn find_memory_type(&self, memory_type_bits: u32, flags: u32) -> (r: Option<u32>)
        requires
            memory_properties_valid(*self),
        ensures
            r matches Some(i) ==> i < self.memory_type_count && memory_type_suits(memory_type_bits, i, self.memory_type_flags@[i as int], flags),
            r matches Some(i) ==> forall|j: u32| j < i ==> !memory_type_suits(memory_type_bits, j, #[trigger] self.memory_type_flags@[j as int], flags),
            r is None ==> forall|j: u32| j < self.memory_type_count ==> !memory_type_suits(memory_type_bits, j, #[trigger] self.memory_type_flags@[j as int], flags),
            r matches Some(i) ==> self.memory_type_flags@[i as int] & flags == flags,
            r matches Some(i) ==> (memory_type_bits >> i) & 1 == 1,
            r matches Some(i) ==> forall|j: u32| j < i && (memory_type_bits >> j) & 1 == 1 ==> #[trigger] self.memory_type_flags@[j as int] & flags != flags,
            r is None ==> forall|j: u32| j < self.memory_type_count && (memory_type_bits >> j) & 1 == 1 ==> #[trigger] self.memory_type_flags@[j as int] & flags != flags,
    {
        let mut index: u32 = 0;
        while index < self.memory_type_count
            invariant
                memory_properties_valid(*self),
                index <= self.memory_type_count,
                forall|j: u32| j < index ==> !memory_type_suits(memory_type_bits, j, #[trigger] self.memory_type_flags@[j as int], flags),
            decreases self.memory_type_count - index,
        {
            let property_flags = self.memory_type_flags[index as usize];
            if (1u32 << index) & memory_type_bits != 0 && property_flags & flags == flags {
                proof {
                    lemma_memory_type_suits(memory_type_bits, flags);
                    assert(memory_type_suits(memory_type_bits, index, property_flags, flags));
                    assert forall|j: u32| j < index && (memory_type_bits >> j) & 1 == 1 implies #[trigger] self.memory_type_flags@[j as int] & flags != flags by {
                        assert(!memory_type_suits(memory_type_bits, j, self.memory_type_flags@[j as int], flags));
                    }
                }
                return Some(index);
            }
            index = index + 1;
        }
        proof {
            lemma_memory_type_suits(memory_type_bits, flags);
            assert forall|j: u32| j < self.memory_type_count && (memory_type_bits >> j) & 1 == 1 implies #[trigger] self.memory_type_flags@[j as int] & flags != flags by {
                assert(!memory_type_suits(memory_type_bits, j, self.memory_type_flags@[j as int], flags));
            }
        }
        None
    }
}

} // verus!
