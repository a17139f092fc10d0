use vstd::prelude::*;

verus! {

/// `VK_MAX_MEMORY_TYPES`: a device reports at most this many memory types.
pub const MAX_MEMORY_TYPES: usize = 32;

/// No memory type of the device fits a buffer; the engine reports it as
/// `VK_ERROR_INITIALIZATION_FAILED`.
#[derive(Clone, Copy, Debug, PartialEq, Eq, Structural)]
pub enum MemoryTypeError {
    NoSuitableMemoryType,
}

/// Memory type `i` is allowed by the buffer's `memoryTypeBits` and has
/// every property flag asked for.
pub open spec fn memory_type_suitable(
    type_filter: u32,
    memory_type_flags: Seq<u32>,
    properties: u32,
    i: int,
) -> bool {
    &&& type_filter & (1u32 << (i as u32)) != 0
    &&& memory_type_flags[i] & properties == properties
}

/// The first memory type that a buffer may live in and that has the
/// requested properties. `memory_type_flags[i]` holds the property flags of
/// the device's memory type `i`.
pub fn find_memory_type(type_filter: u32, memory_type_flags: &Vec<u32>, properties: u32) -> (found:
    Result<u32, MemoryTypeError>)
    requires
        memory_type_flags@.len() <= MAX_MEMORY_TYPES,
    ensures
        found matches Ok(i) ==> {
            &&& i < memory_type_flags@.len()
            &&& memory_type_flags@[i as int] & properties == properties
            &&& type_filter & (1u32 << i) != 0
            &&& memory_type_suitable(type_filter, memory_type_flags@, properties, i as int)
            &&& forall|j: int|
                0 <= j < i ==> !#[trigger] memory_type_suitable(
                    type_filter,
                    memory_type_flags@,
                    properties,
                    j,
                )
        },
        found matches Err(e) ==> {
            &&& e == MemoryTypeError::NoSuitableMemoryType
            &&& forall|j: int|
                0 <= j < memory_type_flags@.len() ==> !#[trigger] memory_type_suitable(
                    type_filter,
                    memory_type_flags@,
                    properties,
                    j,
                )
        },
{
    let count = memory_type_flags.len();
    let mut i: usize = 0;
    while i < count
        invariant
            count == memory_type_flags@.len() <= MAX_MEMORY_TYPES,
            0 <= i <= count,
            forall|j: int|
                0 <= j < i ==> !#[trigger] memory_type_suitable(
                    type_filter,
                    memory_type_flags@,
                    properties,
                    j,
                ),
        decreases count - i,
    {
        let bit: u32 = 1u32 << (i as u32);
        if (type_filter & bit) != 0 && (memory_type_flags[i] & properties) == properties {
            return Ok(i as u32);
        }
        i = i + 1;
    }
    Err(MemoryTypeError::NoSuitableMemoryType)
}


/// Law of memory-type suitability: a type is suitable exactly when the
/// filter allows it and its flags include every requested property bit
/// (bitwise inclusion, not numeric comparison): each bit set in
/// `properties` is set in the type's flags.
pub proof fn law_memory_type_has_every_property(
    type_filter: u32,
    memory_type_flags: Seq<u32>,
    properties: u32,
    i: int,
)
    requires
        0 <= i < memory_type_flags.len() <= MAX_MEMORY_TYPES,
    ensures
        memory_type_suitable(type_filter, memory_type_flags, properties, i) <==> ((type_filter
            >> (i as u32)) & 1u32 == 1u32 && memory_type_flags[i] | properties
            == memory_type_flags[i]),
        memory_type_suitable(type_filter, memory_type_flags, properties, i) ==> forall|b: u32|
            b < 32 && #[trigger] (properties & (1u32 << b)) != 0 ==> memory_type_flags[i] & (1u32
                << b) != 0,
{
    let f = memory_type_flags[i];
    let s = i as u32;
    assert(s < 32);
    assert((type_filter & (1u32 << s) != 0) <==> ((type_filter >> s) & 1u32 == 1u32)) by (bit_vector)
        requires
            s < 32,
    ;
    assert((f & properties == properties) <==> (f | properties == f)) by (bit_vector);
    if f & properties == properties {
        assert forall|b: u32| b < 32 && #[trigger] (properties & (1u32 << b)) != 0 implies f & (1u32
            << b) != 0 by {
            assert(f & properties == properties && b < 32 && properties & (1u32 << b) != 0 ==> f & (
            1u32 << b) != 0) by (bit_vector);
        }
    }
}

} // verus!
