//! Queue families: which ones a device offers, and which ones to ask for.

use crate::backend::vulkan::flags::{has_flags, includes_graphics, QUEUE_GRAPHICS};
use vstd::prelude::*;

verus! {

/// One queue family of a physical device, as the host found it.
#[derive(Clone, Copy, Debug)]
pub struct QueueFamily {
    /// Raw capability flags of the family.
    pub queue_flags: u32,
    /// The outcome of asking whether the family can present to the surface;
    /// `Err` holds the native code of a query that failed.
    pub surface_support: Result<bool, i32>,
}

impl QueueFamily {
    /// Whether the family's capabilities include graphics operations.
    pub open spec fn spec_supports_graphics(&self) -> bool {
        has_flags(self.queue_flags, QUEUE_GRAPHICS)
    }

    /// Whether the family is known to present to the surface. A failed
    /// query counts as "no".
    pub open spec fn spec_supports_present(&self) -> bool {
        self.surface_support == Ok::<bool, i32>(true)
    }

    /// Whether the family's capabilities include graphics operations.
    pub fn supports_graphics(&self) -> (yes: bool)
        ensures
            yes == self.spec_supports_graphics(),
    {
        includes_graphics(self.queue_flags)
    }

    /// Whether the family is known to present to the surface. A failed
    /// query counts as "no" and is not reported.
    pub fn supports_present(&self) -> (yes: bool)
        ensures
            yes == self.spec_supports_present(),
    {
        match self.surface_support {
            Ok(supported) => supported,
            Err(_) => false,
        }
    }
}

/// Family indices are 32-bit: a list is addressable if each of its
/// positions is one.
pub open spec fn addressable(families: Seq<QueueFamily>) -> bool {
    families.len() <= u32::MAX
}

/// `i` is the lowest position of a graphics-capable family.
pub open spec fn is_first_graphics(families: Seq<QueueFamily>, i: int) -> bool {
    &&& 0 <= i < families.len()
    &&& families[i].spec_supports_graphics()
    &&& forall|j: int| 0 <= j < i ==> !(#[trigger] families[j]).spec_supports_graphics()
}

/// `i` is the lowest position of a family that presents to the surface.
pub open spec fn is_first_present(families: Seq<QueueFamily>, i: int) -> bool {
    &&& 0 <= i < families.len()
    &&& families[i].spec_supports_present()
    &&& forall|j: int| 0 <= j < i ==> !(#[trigger] families[j]).spec_supports_present()
}

/// Some family is graphics-capable.
pub open spec fn has_graphics(families: Seq<QueueFamily>) -> bool {
    exists|i: int| 0 <= i < families.len() && (#[trigger] families[i]).spec_supports_graphics()
}

/// Some family presents to the surface.
pub open spec fn has_present(families: Seq<QueueFamily>) -> bool {
    exists|i: int| 0 <= i < families.len() && (#[trigger] families[i]).spec_supports_present()
}

/// A device is suitable when both roles can be filled.
pub open spec fn suitable(families: Seq<QueueFamily>) -> bool {
    has_graphics(families) && has_present(families)
}

/// Why a device was passed over.
#[derive(Clone, Copy, Debug, PartialEq, Eq, Structural)]
pub enum SuitabilityError {
    /// The device lacks a graphics family, a presenting family, or both.
    MissingQueueFamilies,
}

impl SuitabilityError {
    /// The reason in words.
    pub fn message(&self) -> (m: &'static str)
        ensures
            m@ == "Missing required queue families"@,
    {
        "Missing required queue families"
    }
}

/// The family chosen for each role. The two may be one and the same.
#[derive(Clone, Copy, Debug, PartialEq, Eq, Structural)]
pub struct QueueFamilyIndices {
    pub graphics: u32,
    pub present: u32,
}

/// The lowest position of a graphics-capable family, if there is one.
pub fn first_graphics_family(families: &Vec<QueueFamily>) -> (found: Option<u32>)
    requires
        addressable(families@),
    ensures
        found matches Some(i) ==> is_first_graphics(families@, i as int),
        found is None ==> !has_graphics(families@),
{
    let mut i: usize = 0;
    while i < families.len()
        invariant
            i <= families.len() <= u32::MAX,
            forall|j: int| 0 <= j < i ==> !(#[trigger] families@[j]).spec_supports_graphics(),
        decreases families.len() - i,
    {
        if families[i].supports_graphics() {
            return Some(i as u32);
        }
        i += 1;
    }
    None
}

/// The lowest position of a family that presents to the surface, if there
/// is one.
pub fn first_present_family(families: &Vec<QueueFamily>) -> (found: Option<u32>)
    requires
        addressable(families@),
    ensures
        found matches Some(i) ==> is_first_present(families@, i as int),
        found is None ==> !has_present(families@),
{
    let mut i: usize = 0;
    while i < families.len()
        invariant
            i <= families.len() <= u32::MAX,
            forall|j: int| 0 <= j < i ==> !(#[trigger] families@[j]).spec_supports_present(),
        decreases families.len() - i,
    {
        if families[i].supports_present() {
            return Some(i as u32);
        }
        i += 1;
    }
    None
}

impl QueueFamilyIndices {
    /// Resolves both roles over a device's families: for each role the
    /// lowest position that can fill it. Fails exactly when a role cannot
    /// be filled.
    pub fn get(
        families: &Vec<QueueFamily>,
    ) -> (result: Result<QueueFamilyIndices, SuitabilityError>)
        requires
            addressable(families@),
        ensures
            result is Ok <==> suitable(families@),
            result matches Ok(indices) ==> {
                &&& is_first_graphics(families@, indices.graphics as int)
                &&& is_first_present(families@, indices.present as int)
            },
            result matches Err(e) ==> e == SuitabilityError::MissingQueueFamilies,
    {
        let graphics = first_graphics_family(families);
        let present = first_present_family(families);
        match (graphics, present) {
            (Some(graphics), Some(present)) => Ok(QueueFamilyIndices { graphics, present }),
            _ => Err(SuitabilityError::MissingQueueFamilies),
        }
    }

    /// The distinct families among the two roles: graphics first, then
    /// present unless it is the same family.
    pub fn unique_families(&self) -> (unique: Vec<u32>)
        ensures
            unique@ == spec_unique_families(*self),
    {
        let mut unique: Vec<u32> = Vec::new();
        unique.push(self.graphics);
        if self.present != self.graphics {
            unique.push(self.present);
        }
        unique
    }

    /// One request per distinct family, each for a single queue at full
    /// priority.
    pub fn queue_requests(&self) -> (requests: Vec<QueueRequest>)
        ensures
            requests@ == spec_queue_requests(*self),
    {
        let unique = self.unique_families();
        let mut requests: Vec<QueueRequest> = Vec::new();
        let mut i: usize = 0;
        while i < unique.len()
            invariant
                i <= unique.len(),
                requests.len() == i,
                forall|j: int|
                    0 <= j < i ==> requests@[j] == single_queue(#[trigger] unique@[j]),
            decreases unique.len() - i,
        {
            requests.push(
                QueueRequest {
                    family_index: unique[i],
                    queue_count: 1,
                    priority_bits: FULL_PRIORITY_BITS,
                },
            );
            i += 1;
        }
        requests
    }
}

/// The highest queue priority, 1.0, as the bits of a 32-bit float.
pub const FULL_PRIORITY_BITS: u32 = 0x3F80_0000;

/// A request for queues of one family.
#[derive(Clone, Copy, Debug, PartialEq, Eq, Structural)]
pub struct QueueRequest {
    pub family_index: u32,
    pub queue_count: u32,
    /// The priority of every queue asked for, as the bits of a 32-bit
    /// float.
    pub priority_bits: u32,
}

/// The request for exactly one queue of a family, at full priority.
pub open spec fn single_queue(family_index: u32) -> QueueRequest {
    QueueRequest { family_index, queue_count: 1, priority_bits: FULL_PRIORITY_BITS }
}

/// The distinct families among the two roles.
pub open spec fn spec_unique_families(indices: QueueFamilyIndices) -> Seq<u32> {
    if indices.graphics == indices.present {
        seq![indices.graphics]
    } else {
        seq![indices.graphics, indices.present]
    }
}

/// The queue requests for the two roles.
pub open spec fn spec_queue_requests(indices: QueueFamilyIndices) -> Seq<QueueRequest> {
    spec_unique_families(indices).map_values(|family: u32| single_queue(family))
}

/// The lowest graphics-capable position is unique: resolution of the
/// graphics role has one possible outcome.
pub proof fn lemma_first_graphics_unique(families: Seq<QueueFamily>, a: int, b: int)
    requires
        is_first_graphics(families, a),
        is_first_graphics(families, b),
    ensures
        a == b,
{
}

/// The lowest presenting position is unique: resolution of the present
/// role has one possible outcome.
pub proof fn lemma_first_present_unique(families: Seq<QueueFamily>, a: int, b: int)
    requires
        is_first_present(families, a),
        is_first_present(families, b),
    ensures
        a == b,
{
}

/// A graphics-capable family at `k` means a lowest one at or below `k`.
pub proof fn lemma_first_graphics_exists(families: Seq<QueueFamily>, k: int) -> (i: int)
    requires
        0 <= k < families.len(),
        families[k].spec_supports_graphics(),
    ensures
        0 <= i <= k,
        is_first_graphics(families, i),
    decreases k,
{
    if exists|j: int| 0 <= j < k && (#[trigger] families[j]).spec_supports_graphics() {
        let j = choose|j: int| 0 <= j < k && (#[trigger] families[j]).spec_supports_graphics();
        lemma_first_graphics_exists(families, j)
    } else {
        k
    }
}

/// A presenting family at `k` means a lowest one at or below `k`.
pub proof fn lemma_first_present_exists(families: Seq<QueueFamily>, k: int) -> (i: int)
    requires
        0 <= k < families.len(),
        families[k].spec_supports_present(),
    ensures
        0 <= i <= k,
        is_first_present(families, i),
    decreases k,
{
    if exists|j: int| 0 <= j < k && (#[trigger] families[j]).spec_supports_present() {
        let j = choose|j: int| 0 <= j < k && (#[trigger] families[j]).spec_supports_present();
        lemma_first_present_exists(families, j)
    } else {
        k
    }
}

/// For every list with a graphics-capable family at `g` and a presenting
/// family at `p`, both roles resolve, each to the lowest matching position
/// and to no other, whether or not the two coincide.
pub proof fn lemma_roles_resolve_to_lowest(
    families: Seq<QueueFamily>,
    g: int,
    p: int,
) -> (lowest: (int, int))
    requires
        0 <= g < families.len(),
        0 <= p < families.len(),
        families[g].spec_supports_graphics(),
        families[p].spec_supports_present(),
    ensures
        suitable(families),
        is_first_graphics(families, lowest.0),
        is_first_present(families, lowest.1),
        lowest.0 <= g,
        lowest.1 <= p,
        forall|i: int| is_first_graphics(families, i) ==> i == lowest.0,
        forall|i: int| is_first_present(families, i) ==> i == lowest.1,
{
    let first_g = lemma_first_graphics_exists(families, g);
    let first_p = lemma_first_present_exists(families, p);
    assert forall|i: int| is_first_graphics(families, i) implies i == first_g by {
        lemma_first_graphics_unique(families, i, first_g);
    }
    assert forall|i: int| is_first_present(families, i) implies i == first_p by {
        lemma_first_present_unique(families, i, first_p);
    }
    (first_g, first_p)
}

/// Deduplication: one request when both roles share a family, two when
/// they do not; each request asks for one queue at full priority, no
/// family is asked for twice, and both roles are served.
pub proof fn lemma_queue_requests_deduplicated(indices: QueueFamilyIndices)
    ensures
        indices.graphics == indices.present ==> spec_queue_requests(indices).len() == 1,
        indices.graphics != indices.present ==> spec_queue_requests(indices).len() == 2,
        forall|i: int|
            0 <= i < spec_queue_requests(indices).len() ==> (#[trigger] spec_queue_requests(
                indices,
            )[i]) == single_queue(spec_queue_requests(indices)[i].family_index),
        forall|i: int, j: int|
            0 <= i < j < spec_queue_requests(indices).len() ==> (#[trigger] spec_queue_requests(
                indices,
            )[i]).family_index != (#[trigger] spec_queue_requests(indices)[j]).family_index,
        spec_queue_requests(indices).contains(single_queue(indices.graphics)),
        spec_queue_requests(indices).contains(single_queue(indices.present)),
{
    let requests = spec_queue_requests(indices);
    assert(requests[0] == single_queue(indices.graphics));
    if indices.graphics != indices.present {
        assert(requests[1] == single_queue(indices.present));
    }
}

/// Whether a device can be used, without saying how.
pub fn check_physical_device(
    families: &Vec<QueueFamily>,
) -> (result: Result<(), SuitabilityError>)
    requires
        addressable(families@),
    ensures
        result is Ok <==> suitable(families@),
        result matches Err(e) ==> e == SuitabilityError::MissingQueueFamilies,
{
    match QueueFamilyIndices::get(families) {
        Ok(_) => Ok(()),
        Err(e) => Err(e),
    }
}

} // verus!
