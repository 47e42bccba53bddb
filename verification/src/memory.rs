//! Memory types of a device and the choice of one for a resource.

use vstd::prelude::*;
use crate::error::TextureError;

verus! {

/// A property that a kind of device memory can have.
#[derive(Clone, Copy, Debug, PartialEq, Eq, Structural)]
pub enum MemoryProperty {
    /// The memory lives on the device.
    DeviceLocal,
    /// The host can map the memory and write to it.
    HostVisible,
    /// Host writes become visible to the device without a flush.
    HostCoherent,
    /// The host caches the memory.
    HostCached,
    /// The device may allocate the memory lazily; the host cannot see it.
    LazilyAllocated,
}

/// The set of properties of one memory type.
#[derive(Clone, Copy, Debug, PartialEq, Eq, Structural)]
pub struct MemoryProperties {
    pub device_local: bool,
    pub host_visible: bool,
    pub host_coherent: bool,
    pub host_cached: bool,
    pub lazily_allocated: bool,
}

impl MemoryProperties {
    /// Whether `property` is in the set.
    pub open spec fn has(self, property: MemoryProperty) -> bool {
        match property {
            MemoryProperty::DeviceLocal => self.device_local,
            MemoryProperty::HostVisible => self.host_visible,
            MemoryProperty::HostCoherent => self.host_coherent,
            MemoryProperty::HostCached => self.host_cached,
            MemoryProperty::LazilyAllocated => self.lazily_allocated,
        }
    }

    /// The properties as a mathematical set.
    pub open spec fn view(self) -> Set<MemoryProperty> {
        Set::new(|p: MemoryProperty| self.has(p))
    }

    /// The set without any property.
    pub fn empty() -> (r: MemoryProperties)
        ensures
            forall|p: MemoryProperty| !r.has(p),
    {
        MemoryProperties {
            device_local: false,
            host_visible: false,
            host_coherent: false,
            host_cached: false,
            lazily_allocated: false,
        }
    }

    /// Whether `property` is in the set.
    pub fn contains(&self, property: MemoryProperty) -> (r: bool)
        ensures
            r == self.has(property),
            r == self@.contains(property),
    {
        match property {
            MemoryProperty::DeviceLocal => self.device_local,
            MemoryProperty::HostVisible => self.host_visible,
            MemoryProperty::HostCoherent => self.host_coherent,
            MemoryProperty::HostCached => self.host_cached,
            MemoryProperty::LazilyAllocated => self.lazily_allocated,
        }
    }

    /// The set with `property` added.
    pub fn with(self, property: MemoryProperty) -> (r: MemoryProperties)
        ensures
            forall|p: MemoryProperty| r.has(p) == (p == property || self.has(p)),
    {
        let mut r = self;
        match property {
            MemoryProperty::DeviceLocal => { r.device_local = true; },
            MemoryProperty::HostVisible => { r.host_visible = true; },
            MemoryProperty::HostCoherent => { r.host_coherent = true; },
            MemoryProperty::HostCached => { r.host_cached = true; },
            MemoryProperty::LazilyAllocated => { r.lazily_allocated = true; },
        }
        r
    }
}

/// One entry of the device's memory type table.
#[derive(Clone, Copy, Debug, PartialEq, Eq, Structural)]
pub struct MemoryType {
    /// The index by which the device knows this type.
    pub index: u32,
    /// What this kind of memory can do.
    pub properties: MemoryProperties,
}

/// What a created resource asks of the memory bound to it.
#[derive(Clone, Copy, Debug, PartialEq, Eq, Structural)]
pub struct MemoryRequirement {
    /// Bytes needed.
    pub size: u64,
    /// Alignment of the allocation, in bytes.
    pub alignment: u64,
    /// Bit `i` is set where the memory type with index `i` may back the resource.
    pub type_mask: u64,
}

/// Whether bit `index` of `type_mask` is set. An index beyond the mask's width
/// is never allowed.
pub open spec fn mask_allows(type_mask: u64, index: u32) -> bool {
    index < 64 && (type_mask >> (index as u64)) & 1u64 == 1u64
}

/// Whether memory type `t` may back a resource with the given mask and has
/// the wanted property.
pub open spec fn is_compatible(type_mask: u64, t: MemoryType, required: MemoryProperty) -> bool {
    mask_allows(type_mask, t.index) && t.properties.has(required)
}

/// Whether any entry of the table is compatible.
pub open spec fn has_compatible(
    type_mask: u64,
    memory_types: Seq<MemoryType>,
    required: MemoryProperty,
) -> bool {
    exists|k: int|
        0 <= k < memory_types.len() && is_compatible(type_mask, #[trigger] memory_types[k], required)
}

/// Whether position `k` holds the first compatible entry of the table.
pub open spec fn is_first_compatible(
    type_mask: u64,
    memory_types: Seq<MemoryType>,
    required: MemoryProperty,
    k: int,
) -> bool {
    &&& 0 <= k < memory_types.len()
    &&& is_compatible(type_mask, memory_types[k], required)
    &&& forall|j: int| 0 <= j < k ==> !is_compatible(type_mask, #[trigger] memory_types[j], required)
}

/// The index that selection gives: that of the first compatible entry, or
/// `None` where the table has no compatible entry.
pub open spec fn selected_type(
    type_mask: u64,
    memory_types: Seq<MemoryType>,
    required: MemoryProperty,
) -> Option<u32> {
    if has_compatible(type_mask, memory_types, required) {
        Some(
            memory_types[choose|k: int|
                #[trigger] is_first_compatible(type_mask, memory_types, required, k)].index,
        )
    } else {
        None
    }
}

/// A table as a device enumerates it: each entry stands at its own index.
pub open spec fn is_enumerated(memory_types: Seq<MemoryType>) -> bool {
    forall|k: int| 0 <= k < memory_types.len() ==> (#[trigger] memory_types[k]).index == k
}

/// Whether bit `index` of `type_mask` is set.
pub fn mask_contains(type_mask: u64, index: u32) -> (r: bool)
    ensures
        r == mask_allows(type_mask, index),
{
    index < 64 && (type_mask >> (index as u64)) & 1u64 == 1u64
}

/// Picks the memory type for a resource: the first entry of the table, in
/// table order, whose index bit is set in the resource's mask and whose
/// properties contain `required`. Returns that entry's index, or
/// `NoCompatibleMemoryType` exactly when no entry qualifies.
pub fn select(
    requirements: &MemoryRequirement,
    memory_types: &Vec<MemoryType>,
    required: MemoryProperty,
) -> (r: Result<u32, TextureError>)
    ensures
        r is Ok <==> has_compatible(requirements.type_mask, memory_types@, required),
        r matches Ok(index) ==> exists|k: int|
            #[trigger] is_first_compatible(requirements.type_mask, memory_types@, required, k)
                && memory_types@[k].index == index,
        r matches Err(e) ==> e == TextureError::NoCompatibleMemoryType,
        r == match selected_type(requirements.type_mask, memory_types@, required) {
            Some(index) => Ok::<u32, TextureError>(index),
            None => Err::<u32, TextureError>(TextureError::NoCompatibleMemoryType),
        },
{
    let mut k: usize = 0;
    while k < memory_types.len()
        invariant
            k <= memory_types.len(),
            forall|j: int|
                0 <= j < k ==> !is_compatible(
                    requirements.type_mask,
                    #[trigger] memory_types@[j],
                    required,
                ),
        decreases memory_types.len() - k,
    {
        let t = memory_types[k];
        if mask_contains(requirements.type_mask, t.index) && t.properties.contains(required) {
            proof {
                let mask = requirements.type_mask;
                assert(is_first_compatible(mask, memory_types@, required, k as int));
                let c = choose|c: int| #[trigger] is_first_compatible(mask, memory_types@, required, c);
                lemma_first_compatible_is_unique(mask, memory_types@, required, c, k as int);
            }
            return Ok(t.index);
        }
        k += 1;
    }
    Err(TextureError::NoCompatibleMemoryType)
}

/// In a table that stands in index order, the selected index is the least
/// compatible one, and it is the position of its entry.
pub proof fn lemma_first_compatible_is_least(
    type_mask: u64,
    memory_types: Seq<MemoryType>,
    required: MemoryProperty,
    k: int,
)
    requires
        is_enumerated(memory_types),
        is_first_compatible(type_mask, memory_types, required, k),
    ensures
        memory_types[k].index == k,
        forall|j: int|
            0 <= j < memory_types.len() && is_compatible(type_mask, #[trigger] memory_types[j], required)
                ==> memory_types[k].index <= memory_types[j].index,
{
    assert forall|j: int|
        0 <= j < memory_types.len() && is_compatible(
            type_mask,
            #[trigger] memory_types[j],
            required,
        ) implies memory_types[k].index <= memory_types[j].index by {
        if j < k {
            assert(!is_compatible(type_mask, memory_types[j], required));
        }
    }
}

/// The first compatible position is unique: selection is a function of its inputs.
pub proof fn lemma_first_compatible_is_unique(
    type_mask: u64,
    memory_types: Seq<MemoryType>,
    required: MemoryProperty,
    a: int,
    b: int,
)
    requires
        is_first_compatible(type_mask, memory_types, required, a),
        is_first_compatible(type_mask, memory_types, required, b),
    ensures
        a == b,
{
    if a < b {
        assert(!is_compatible(type_mask, memory_types[a], required));
    } else if b < a {
        assert(!is_compatible(type_mask, memory_types[b], required));
    }
}

/// Selection gives the index of the entry at the first compatible position.
pub proof fn lemma_selected_is_first(
    type_mask: u64,
    memory_types: Seq<MemoryType>,
    required: MemoryProperty,
    k: int,
)
    requires
        is_first_compatible(type_mask, memory_types, required, k),
    ensures
        selected_type(type_mask, memory_types, required) == Some(memory_types[k].index),
{
    let c = choose|c: int| #[trigger] is_first_compatible(type_mask, memory_types, required, c);
    lemma_first_compatible_is_unique(type_mask, memory_types, required, c, k);
}

/// Where selection gives an index, an entry of the table has that index, is
/// allowed by the mask and has the wanted property.
pub proof fn lemma_selected_exists(
    type_mask: u64,
    memory_types: Seq<MemoryType>,
    required: MemoryProperty,
)
    requires
        selected_type(type_mask, memory_types, required) is Some,
    ensures
        exists|k: int|
            0 <= k < memory_types.len() && (#[trigger] memory_types[k]).index == selected_type(
                type_mask,
                memory_types,
                required,
            )->0 && is_compatible(type_mask, memory_types[k], required),
{
    let w = choose|w: int|
        0 <= w < memory_types.len() && is_compatible(type_mask, #[trigger] memory_types[w], required);
    lemma_first_exists(type_mask, memory_types, required, w);
    let c = choose|c: int| #[trigger] is_first_compatible(type_mask, memory_types, required, c);
    assert(memory_types[c].index == selected_type(type_mask, memory_types, required)->0);
}

/// Where some entry is compatible, there is a first one.
pub proof fn lemma_first_exists(
    type_mask: u64,
    memory_types: Seq<MemoryType>,
    required: MemoryProperty,
    w: int,
)
    requires
        0 <= w < memory_types.len(),
        is_compatible(type_mask, memory_types[w], required),
    ensures
        exists|k: int| #[trigger] is_first_compatible(type_mask, memory_types, required, k),
    decreases w,
{
    if exists|j: int| 0 <= j < w && is_compatible(type_mask, #[trigger] memory_types[j], required) {
        let j = choose|j: int|
            0 <= j < w && is_compatible(type_mask, #[trigger] memory_types[j], required);
        lemma_first_exists(type_mask, memory_types, required, j);
    } else {
        assert(is_first_compatible(type_mask, memory_types, required, w));
    }
}

} // verus!
