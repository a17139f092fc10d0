use vstd::prelude::*;

verus! {

/// The `VK_QUEUE_GRAPHICS_BIT` bit of a queue family's flags.
pub const QUEUE_GRAPHICS_BIT: u32 = 1;

/// Whether queue flags include graphics support (`flags.contains(GRAPHICS)`).
pub open spec fn supports_graphics(queue_flags: u32) -> bool {
    queue_flags & QUEUE_GRAPHICS_BIT == QUEUE_GRAPHICS_BIT
}

/// Indices of the queue families that the engine draws and presents with.
#[derive(Clone, Copy, Debug)]
pub struct QueueFamilyIndices {
    pub graphics_family: Option<u32>,
    pub present_family: Option<u32>,
}

/// What the engine learns of one queue family of a physical device.
#[derive(Clone, Copy, Debug)]
pub struct QueueFamilyInfo {
    /// The raw `VkQueueFlags` of the family.
    pub queue_flags: u32,
    /// Whether the family can present to the window's surface.
    pub present_support: bool,
}

impl QueueFamilyIndices {
    pub open spec fn complete(self) -> bool {
        self.graphics_family is Some && self.present_family is Some
    }

    /// The indices after looking at family `index`: a family with graphics
    /// support becomes the graphics family, one that can present becomes the
    /// present family.
    pub open spec fn after_family(self, index: u32, info: QueueFamilyInfo) -> QueueFamilyIndices {
        QueueFamilyIndices {
            graphics_family: if supports_graphics(info.queue_flags) {
                Some(index)
            } else {
                self.graphics_family
            },
            present_family: if info.present_support {
                Some(index)
            } else {
                self.present_family
            },
        }
    }

    /// Neither family found yet.
    pub fn empty() -> (indices: QueueFamilyIndices)
        ensures
            indices.graphics_family is None,
            indices.present_family is None,
    {
        QueueFamilyIndices { graphics_family: None, present_family: None }
    }

    /// Both a graphics family and a present family are known.
    pub fn is_complete(&self) -> (complete: bool)
        ensures
            complete == self.complete(),
    {
        self.graphics_family.is_some() && self.present_family.is_some()
    }

    /// Takes family `index` into account (one step of the family search).
    pub fn record_family(&mut self, index: u32, info: QueueFamilyInfo)
        ensures
            *final(self) == old(self).after_family(index, info),
            info.queue_flags & QUEUE_GRAPHICS_BIT != 0 ==> final(self).graphics_family == Some(
                index,
            ),
            info.queue_flags & QUEUE_GRAPHICS_BIT == 0 ==> final(self).graphics_family == old(
                self,
            ).graphics_family,
            info.present_support ==> final(self).present_family == Some(index),
            !info.present_support ==> final(self).present_family == old(self).present_family,
    {
        proof {
            lemma_graphics_bit(info.queue_flags);
        }
        if (info.queue_flags & QUEUE_GRAPHICS_BIT) == QUEUE_GRAPHICS_BIT {
            self.graphics_family = Some(index);
        }
        if info.present_support {
            self.present_family = Some(index);
        }
    }
}

/// The search of `find_queue_families` from family `i` on, with `acc`
/// found so far: it stops as soon as both families are known.
pub open spec fn queue_family_search(
    families: Seq<QueueFamilyInfo>,
    i: int,
    acc: QueueFamilyIndices,
) -> QueueFamilyIndices
    decreases families.len() - i,
{
    if i < 0 || i >= families.len() {
        acc
    } else {
        let next = acc.after_family(i as u32, families[i]);
        if next.complete() {
            next
        } else {
            queue_family_search(families, i + 1, next)
        }
    }
}

/// No family found yet.
pub open spec fn no_families() -> QueueFamilyIndices {
    QueueFamilyIndices { graphics_family: None, present_family: None }
}

/// The queue families that `find_queue_families` selects.
pub open spec fn find_queue_families_spec(families: Seq<QueueFamilyInfo>) -> QueueFamilyIndices {
    queue_family_search(families, 0, no_families())
}

/// Scans the queue families in order; each family with graphics support
/// becomes the graphics family and each one that can present becomes the
/// present family, and the scan stops once both are known.
pub fn find_queue_families(families: &Vec<QueueFamilyInfo>) -> (indices: QueueFamilyIndices)
    ensures
        indices == find_queue_families_spec(families@),
{
    let mut indices = QueueFamilyIndices::empty();
    let mut i: usize = 0;
    while i < families.len()
        invariant
            0 <= i <= families.len(),
            !indices.complete(),
            queue_family_search(families@, i as int, indices) == find_queue_families_spec(
                families@,
            ),
        decreases families.len() - i,
    {
        let info = families[i];
        indices.record_family(i as u32, info);
        if indices.is_complete() {
            return indices;
        }
        i = i + 1;
    }
    indices
}

/// Some family in `families[i..]` supports graphics.
pub open spec fn graphics_from(families: Seq<QueueFamilyInfo>, i: int) -> bool {
    exists|k: int| i <= k < families.len() && supports_graphics(#[trigger] families[k].queue_flags)
}

/// Some family in `families[i..]` can present.
pub open spec fn present_from(families: Seq<QueueFamilyInfo>, i: int) -> bool {
    exists|k: int| i <= k < families.len() && (#[trigger] families[k]).present_support
}

proof fn lemma_search_complete(families: Seq<QueueFamilyInfo>, i: int, acc: QueueFamilyIndices)
    requires
        0 <= i <= families.len(),
    ensures
        queue_family_search(families, i, acc).complete() <==> ((acc.graphics_family is Some
            || graphics_from(families, i)) && (acc.present_family is Some || present_from(
            families,
            i,
        ))),
    decreases families.len() - i,
{
    if i < families.len() {
        let next = acc.after_family(i as u32, families[i]);
        if !next.complete() {
            lemma_search_complete(families, i + 1, next);
            if graphics_from(families, i) {
                let k = choose|k: int|
                    i <= k < families.len() && supports_graphics(#[trigger] families[k].queue_flags);
                if k == i {
                    assert(next.graphics_family is Some);
                } else {
                    assert(graphics_from(families, i + 1));
                }
            }
            if present_from(families, i) {
                let k = choose|k: int| i <= k < families.len() && (#[trigger] families[k]).present_support;
                if k == i {
                    assert(next.present_family is Some);
                } else {
                    assert(present_from(families, i + 1));
                }
            }
            if graphics_from(families, i + 1) {
                let k = choose|k: int|
                    i + 1 <= k < families.len() && supports_graphics(
                        #[trigger] families[k].queue_flags,
                    );
                assert(graphics_from(families, i));
            }
            if present_from(families, i + 1) {
                let k = choose|k: int|
                    i + 1 <= k < families.len() && (#[trigger] families[k]).present_support;
                assert(present_from(families, i));
            }
        } else {
            if supports_graphics(families[i].queue_flags) {
                assert(graphics_from(families, i));
            }
            if families[i].present_support {
                assert(present_from(families, i));
            }
        }
    }
}

proof fn lemma_search_sound(families: Seq<QueueFamilyInfo>, i: int, acc: QueueFamilyIndices)
    requires
        0 <= i <= families.len(),
        acc.graphics_family matches Some(g) ==> exists|k: int|
            0 <= k < i && k as u32 == g && supports_graphics(#[trigger] families[k].queue_flags),
        acc.present_family matches Some(p) ==> exists|k: int|
            0 <= k < i && k as u32 == p && (#[trigger] families[k]).present_support,
    ensures
        ({
            let r = queue_family_search(families, i, acc);
            &&& r.graphics_family matches Some(g) ==> exists|k: int|
                0 <= k < families.len() && k as u32 == g && supports_graphics(
                    #[trigger] families[k].queue_flags,
                )
            &&& r.present_family matches Some(p) ==> exists|k: int|
                0 <= k < families.len() && k as u32 == p && (#[trigger] families[k]).present_support
        }),
    decreases families.len() - i,
{
    if i < families.len() {
        let next = acc.after_family(i as u32, families[i]);
        if let Some(g) = next.graphics_family {
            if supports_graphics(families[i].queue_flags) {
                assert(0 <= i < i + 1 && i as u32 == g && supports_graphics(families[i].queue_flags));
            } else {
                let k = choose|k: int|
                    0 <= k < i && k as u32 == g && supports_graphics(#[trigger] families[k].queue_flags);
                assert(0 <= k < i + 1);
            }
        }
        if let Some(p) = next.present_family {
            if families[i].present_support {
                assert(0 <= i < i + 1 && i as u32 == p && families[i].present_support);
            } else {
                let k = choose|k: int| 0 <= k < i && k as u32 == p && (#[trigger] families[k]).present_support;
                assert(0 <= k < i + 1);
            }
        }
        if !next.complete() {
            lemma_search_sound(families, i + 1, next);
        }
    }
}

/// Law of the queue family search: it finds both families exactly when some
/// family supports graphics and some family can present, and each family it
/// reports has the capability it was chosen for.
pub proof fn law_queue_families_found(families: Seq<QueueFamilyInfo>)
    ensures
        find_queue_families_spec(families).complete() <==> (graphics_from(families, 0)
            && present_from(families, 0)),
        find_queue_families_spec(families).graphics_family matches Some(g) ==> exists|k: int|
            0 <= k < families.len() && k as u32 == g && supports_graphics(
                #[trigger] families[k].queue_flags,
            ),
        find_queue_families_spec(families).present_family matches Some(p) ==> exists|k: int|
            0 <= k < families.len() && k as u32 == p && (#[trigger] families[k]).present_support,
{
    lemma_search_complete(families, 0, no_families());
    lemma_search_sound(families, 0, no_families());
}


/// The name of the `VK_KHR_swapchain` device extension, without its NUL.
pub open spec fn swapchain_extension_name_spec() -> Seq<u8> {
    // "VK_KHR_swapchain"
    seq![
        86u8, 75u8, 95u8, 75u8, 72u8, 82u8, 95u8, 115u8,
        119u8, 97u8, 112u8, 99u8, 104u8, 97u8, 105u8, 110u8,
    ]
}

/// Bytes of ash's `khr::swapchain::NAME`, a C string constant whose bytes
/// before the NUL are `VK_KHR_swapchain`; the contract states those bytes.
#[verifier::external_body]
fn swapchain_extension_name() -> (name: Vec<u8>)
    ensures
        name@ == swapchain_extension_name_spec(),
{
    ash::khr::swapchain::NAME.to_bytes().to_vec()
}

/// The device extensions the engine cannot run without.
pub open spec fn required_device_extensions_spec() -> Seq<Seq<u8>> {
    seq![swapchain_extension_name_spec()]
}

/// Names of the device extensions the engine requires: the swapchain one.
pub fn required_device_extensions() -> (names: Vec<Vec<u8>>)
    ensures
        names@.len() == required_device_extensions_spec().len(),
        forall|i: int|
            0 <= i < names@.len() ==> #[trigger] names@[i]@ == required_device_extensions_spec()[i],
{
    let mut names: Vec<Vec<u8>> = Vec::new();
    names.push(swapchain_extension_name());
    names
}

/// Byte-wise equality of two names.
fn same_name(a: &Vec<u8>, b: &Vec<u8>) -> (same: bool)
    ensures
        same == (a@ == b@),
{
    if a.len() != b.len() {
        return false;
    }
    let mut i: usize = 0;
    while i < a.len()
        invariant
            a.len() == b.len(),
            0 <= i <= a.len(),
            forall|j: int| 0 <= j < i ==> a@[j] == b@[j],
        decreases a.len() - i,
    {
        if a[i] != b[i] {
            return false;
        }
        i = i + 1;
    }
    assert(a@ =~= b@);
    true
}

/// `name` is one of `available`.
pub open spec fn name_available(available: Seq<Seq<u8>>, name: Seq<u8>) -> bool {
    exists|k: int| 0 <= k < available.len() && #[trigger] available[k] == name
}

/// Every required extension is among the available ones.
pub open spec fn extensions_supported(available: Seq<Seq<u8>>) -> bool {
    forall|r: int|
        0 <= r < required_device_extensions_spec().len() ==> name_available(
            available,
            #[trigger] required_device_extensions_spec()[r],
        )
}

/// The names of a list of extensions, as byte sequences.
pub open spec fn names_view(names: Seq<Vec<u8>>) -> Seq<Seq<u8>> {
    names.map_values(|n: Vec<u8>| n@)
}

/// The supported-extensions answer for a list of names, in terms of the
/// list itself.
proof fn lemma_supported_iff_listed(exts: Seq<Vec<u8>>)
    ensures
        extensions_supported(names_view(exts)) == exists|k: int|
            0 <= k < exts.len() && #[trigger] exts[k]@ == swapchain_extension_name_spec(),
{
    let avail = names_view(exts);
    law_extension_found_anywhere(avail);
    assert((exists|k: int|
        0 <= k < exts.len() && #[trigger] exts[k]@
            == swapchain_extension_name_spec()) == (exists|k: int|
        0 <= k < avail.len() && #[trigger] avail[k] == swapchain_extension_name_spec())) by {
        if exists|k: int|
            0 <= k < exts.len() && #[trigger] exts[k]@
                == swapchain_extension_name_spec() {
            let k = choose|k: int|
                0 <= k < exts.len() && #[trigger] exts[k]@
                    == swapchain_extension_name_spec();
            assert(avail[k] == swapchain_extension_name_spec());
        }
        if exists|k: int|
            0 <= k < avail.len() && #[trigger] avail[k] == swapchain_extension_name_spec() {
            let k = choose|k: int|
                0 <= k < avail.len() && #[trigger] avail[k] == swapchain_extension_name_spec();
            assert(exts[k]@ == swapchain_extension_name_spec());
        }
    }
}

/// Whether a device offers every required extension, given the names (bytes
/// before the NUL) of the extensions it offers.
pub fn check_device_extension_support(available_extensions: &Vec<Vec<u8>>) -> (supported: bool)
    ensures
        supported == extensions_supported(names_view(available_extensions@)),
        supported == exists|k: int|
            0 <= k < available_extensions@.len() && #[trigger] available_extensions@[k]@
                == swapchain_extension_name_spec(),
{
    let required = required_device_extensions();
    let ghost avail = names_view(available_extensions@);
    let mut r: usize = 0;
    while r < required.len()
        invariant
            0 <= r <= required.len(),
            required@.len() == required_device_extensions_spec().len(),
            forall|i: int|
                0 <= i < required@.len() ==> #[trigger] required@[i]@
                    == required_device_extensions_spec()[i],
            avail == names_view(available_extensions@),
            forall|q: int|
                0 <= q < r ==> name_available(avail, #[trigger] required_device_extensions_spec()[q]),
        decreases required.len() - r,
    {
        let mut found = false;
        let mut k: usize = 0;
        while k < available_extensions.len()
            invariant
                0 <= k <= available_extensions.len(),
                0 <= r < required@.len(),
                avail == names_view(available_extensions@),
                found <==> exists|j: int| 0 <= j < k && #[trigger] avail[j] == required@[r as int]@,
            decreases available_extensions.len() - k,
        {
            if same_name(&available_extensions[k], &required[r]) {
                found = true;
            }
            proof {
                if avail[k as int] == required@[r as int]@ {
                    assert(exists|j: int| 0 <= j < k + 1 && #[trigger] avail[j] == required@[r as int]@);
                }
            }
            k = k + 1;
        }
        if !found {
            assert(!name_available(avail, required_device_extensions_spec()[r as int]));
            proof {
                lemma_supported_iff_listed(available_extensions@);
            }
            return false;
        }
        r = r + 1;
    }
    proof {
        lemma_supported_iff_listed(available_extensions@);
    }
    true
}

/// What the engine learns of a physical device when it looks for one to use.
#[derive(Clone, Copy, Debug)]
pub struct DeviceCandidate {
    pub queue_families: QueueFamilyIndices,
    pub extensions_supported: bool,
}

/// A device is usable when it has both queue families and every required
/// extension.
pub open spec fn device_suitable(candidate: DeviceCandidate) -> bool {
    candidate.queue_families.complete() && candidate.extensions_supported
}

impl DeviceCandidate {
    /// Whether the engine can run on this device.
    pub fn is_suitable(&self) -> (suitable: bool)
        ensures
            suitable == device_suitable(*self),
            suitable == (self.queue_families.graphics_family is Some
                && self.queue_families.present_family is Some && self.extensions_supported),
    {
        self.queue_families.is_complete() && self.extensions_supported
    }
}

/// The index of the first usable device, or `None` when there is none.
pub fn pick_physical_device(candidates: &Vec<DeviceCandidate>) -> (picked: Option<usize>)
    ensures
        picked matches Some(i) ==> {
            &&& i < candidates@.len()
            &&& device_suitable(candidates@[i as int])
            &&& forall|j: int| 0 <= j < i ==> !device_suitable(#[trigger] candidates@[j])
        },
        picked is None ==> forall|j: int|
            0 <= j < candidates@.len() ==> !device_suitable(#[trigger] candidates@[j]),
{
    let mut i: usize = 0;
    while i < candidates.len()
        invariant
            0 <= i <= candidates.len(),
            forall|j: int| 0 <= j < i ==> !device_suitable(#[trigger] candidates@[j]),
        decreases candidates.len() - i,
    {
        if candidates[i].is_suitable() {
            return Some(i);
        }
        i = i + 1;
    }
    None
}

/// The distinct queue families that logical-device creation asks queues of.
pub open spec fn unique_queue_families_spec(graphics: u32, present: u32) -> Seq<u32> {
    if graphics == present {
        seq![graphics]
    } else {
        seq![graphics, present]
    }
}

/// The graphics and present families without repetition, one queue each.
pub fn unique_queue_families(indices: &QueueFamilyIndices) -> (families: Vec<u32>)
    requires
        indices.complete(),
    ensures
        families@ == unique_queue_families_spec(
            indices.graphics_family->0,
            indices.present_family->0,
        ),
        families@.no_duplicates(),
        families@.to_set() == set![indices.graphics_family->0, indices.present_family->0],
{
    let graphics = indices.graphics_family.unwrap();
    let present = indices.present_family.unwrap();
    let mut families: Vec<u32> = Vec::new();
    families.push(graphics);
    if present != graphics {
        families.push(present);
    }
    proof {
        let s = families@;
        if graphics == present {
            assert(s.to_set() =~= set![graphics, present]) by {
                assert(s[0] == graphics);
            }
        } else {
            assert(s.to_set() =~= set![graphics, present]) by {
                assert(s[0] == graphics);
                assert(s[1] == present);
            }
        }
    }
    families
}


proof fn lemma_graphics_bit(f: u32)
    ensures
        (f & QUEUE_GRAPHICS_BIT == QUEUE_GRAPHICS_BIT) <==> (f & QUEUE_GRAPHICS_BIT != 0),
        (f & QUEUE_GRAPHICS_BIT == QUEUE_GRAPHICS_BIT) <==> (f % 2 == 1),
{
    assert((f & 1u32 == 1u32) <==> (f & 1u32 != 0u32)) by (bit_vector);
    assert((f & 1u32 == 1u32) <==> (f % 2 == 1)) by (bit_vector);
}

/// Law of graphics support: a family supports graphics exactly when the
/// lowest bit (`GRAPHICS`) of its flags is set, whatever the other bits
/// (compute, transfer, sparse binding, ...) are; adding or removing other
/// bits never changes the answer.
pub proof fn law_graphics_bit_alone_decides(flags: u32, other: u32)
    ensures
        supports_graphics(flags) <==> flags % 2 == 1,
        supports_graphics(flags) == supports_graphics(flags | (other & !1u32)),
        supports_graphics(flags) == supports_graphics(flags & 1u32),
        supports_graphics(1u32),
        !supports_graphics(0u32),
{
    lemma_graphics_bit(flags);
    assert(((flags & 1u32) == 1u32) == (((flags | (other & !1u32)) & 1u32) == 1u32)) by (bit_vector);
    assert(((flags & 1u32) == 1u32) == (((flags & 1u32) & 1u32) == 1u32)) by (bit_vector);
    assert((1u32 & 1u32) == 1u32) by (bit_vector);
    assert((0u32 & 1u32) != 1u32) by (bit_vector);
}

/// Law of the family search on a family that does everything: when the
/// first family has the graphics bit set (with any other bits) and can
/// present, it is both the graphics and the present family.
pub proof fn law_first_family_with_both(families: Seq<QueueFamilyInfo>)
    requires
        families.len() > 0,
        families[0].queue_flags % 2 == 1,
        families[0].present_support,
    ensures
        find_queue_families_spec(families).graphics_family == Some(0u32),
        find_queue_families_spec(families).present_family == Some(0u32),
{
    lemma_graphics_bit(families[0].queue_flags);
}

/// Law of suitability: a device is suitable exactly when it has some
/// graphics family, some present family (the same one or not) and the
/// required extensions.
pub proof fn law_device_suitable(candidate: DeviceCandidate)
    ensures
        device_suitable(candidate) <==> (candidate.queue_families.graphics_family is Some
            && candidate.queue_families.present_family is Some && candidate.extensions_supported),
        candidate.queue_families.graphics_family is Some
            && candidate.queue_families.graphics_family == candidate.queue_families.present_family
            && candidate.extensions_supported ==> device_suitable(candidate),
{
}

/// Law of extension support: a device supports the required extensions
/// exactly when the swapchain extension occurs at some position of its
/// list, so the order of the list does not matter.
pub proof fn law_extension_found_anywhere(available: Seq<Seq<u8>>)
    ensures
        extensions_supported(available) <==> exists|k: int|
            0 <= k < available.len() && #[trigger] available[k] == swapchain_extension_name_spec(),
        forall|k: int|
            0 <= k < available.len() && #[trigger] available[k] == swapchain_extension_name_spec()
                ==> extensions_supported(available),
{
    let req = required_device_extensions_spec();
    assert(req.len() == 1 && req[0] == swapchain_extension_name_spec());
    if extensions_supported(available) {
        assert(name_available(available, req[0]));
    }
    if exists|k: int| 0 <= k < available.len() && #[trigger] available[k] == swapchain_extension_name_spec() {
        assert forall|r: int| 0 <= r < req.len() implies name_available(available, #[trigger] req[r]) by {
            assert(r == 0);
        }
    }
}

/// Law of extension support and reordering: a device's answer is the same
/// for any two lists holding the same names.
pub proof fn law_extension_order_irrelevant(a: Seq<Seq<u8>>, b: Seq<Seq<u8>>)
    requires
        a.to_multiset() == b.to_multiset(),
    ensures
        extensions_supported(a) == extensions_supported(b),
{
    broadcast use vstd::seq_lib::group_to_multiset_ensures;
    law_extension_found_anywhere(a);
    law_extension_found_anywhere(b);
    let n = swapchain_extension_name_spec();
    assert(a.contains(n) == (a.to_multiset().count(n) > 0));
    assert(b.contains(n) == (b.to_multiset().count(n) > 0));
    if a.contains(n) {
        let k = choose|k: int| 0 <= k < b.len() && b[k] == n;
        assert(b[k] == n);
    }
    if b.contains(n) {
        let k = choose|k: int| 0 <= k < a.len() && a[k] == n;
        assert(a[k] == n);
    }
}

} // verus!
