//! Choosing a physical device and its queue families.

use vstd::prelude::*;
use crate::constants::QUEUE_GRAPHICS;
use crate::error::RenderError;
use crate::flags::{has_flags, queue_flags_contain};

verus! {

/// The queue families that the renderer submits to: one that can draw and one
/// that can present to the surface. They may be the same family.
#[derive(Clone, Copy, Debug, PartialEq, Eq)]
pub struct QueueFamilyIndices {
    pub graphics_family: Option<u32>,
    pub present_family: Option<u32>,
}

impl QueueFamilyIndices {
    /// Neither family has been found yet.
    pub fn new() -> (indices: QueueFamilyIndices)
        ensures
            indices.graphics_family is None,
            indices.present_family is None,
    {
        QueueFamilyIndices { graphics_family: None, present_family: None }
    }

    /// Both families are known.
    pub open spec fn complete(&self) -> bool {
        self.graphics_family is Some && self.present_family is Some
    }

    /// Whether both families are known.
    pub fn is_complete(&self) -> (complete: bool)
        ensures
            complete == self.complete(),
    {
        self.graphics_family.is_some() && self.present_family.is_some()
    }
}

/// What a device says of one of its queue families, and whether the family
/// can present to the surface.
#[derive(Clone, Copy, Debug, PartialEq, Eq, Structural)]
pub struct QueueFamily {
    pub queue_count: u32,
    pub queue_flags: u32,
    pub present_support: bool,
}

impl QueueFamily {
    /// The family has a queue that can draw.
    pub open spec fn can_draw(&self) -> bool {
        self.queue_count > 0 && has_flags(self.queue_flags, QUEUE_GRAPHICS)
    }

    /// The family has a queue that can present to the surface.
    pub open spec fn can_present(&self) -> bool {
        self.queue_count > 0 && self.present_support
    }
}

/// The last of the first `end` families that can draw.
pub open spec fn last_drawing(families: Seq<QueueFamily>, end: int) -> Option<u32>
    decreases end,
{
    if end <= 0 {
        None
    } else if families[end - 1].can_draw() {
        Some((end - 1) as u32)
    } else {
        last_drawing(families, end - 1)
    }
}

/// The last of the first `end` families that can present.
pub open spec fn last_presenting(families: Seq<QueueFamily>, end: int) -> Option<u32>
    decreases end,
{
    if end <= 0 {
        None
    } else if families[end - 1].can_present() {
        Some((end - 1) as u32)
    } else {
        last_presenting(families, end - 1)
    }
}

/// The families found among the first `end`.
pub open spec fn found_among(families: Seq<QueueFamily>, end: int) -> QueueFamilyIndices {
    QueueFamilyIndices {
        graphics_family: last_drawing(families, end),
        present_family: last_presenting(families, end),
    }
}

/// How many families are looked at, from the one at `from` on: the search
/// ends with the first family that makes the pair complete, or with the last
/// family.
pub open spec fn examined_from(families: Seq<QueueFamily>, from: int) -> int
    decreases families.len() - from,
{
    if from >= families.len() {
        families.len() as int
    } else if found_among(families, from + 1).complete() {
        from + 1
    } else {
        examined_from(families, from + 1)
    }
}

/// The queue families that the search finds.
pub open spec fn found_families(families: Seq<QueueFamily>) -> QueueFamilyIndices {
    found_among(families, examined_from(families, 0))
}

/// What is known of a physical device when it is judged.
pub struct PhysicalDeviceInfo {
    pub queue_families: Vec<QueueFamily>,
    /// The names of the extensions that the device offers.
    pub extension_names: Vec<String>,
    /// How many formats and present modes the surface offers with this
    /// device.
    pub surface_format_count: usize,
    pub present_mode_count: usize,
    pub sampler_anisotropy: bool,
}

/// `name` is one of `names`.
pub open spec fn names_contain(names: Seq<String>, name: Seq<char>) -> bool {
    exists|i: int| 0 <= i < names.len() && (#[trigger] names[i])@ == name
}

/// Every one of `required` is among `available`.
pub open spec fn names_contain_all(available: Seq<String>, required: Seq<String>) -> bool {
    forall|r: int| 0 <= r < required.len() ==> names_contain(available, (#[trigger] required[r])@)
}

/// The extension that lets a device present to a surface.
pub open spec fn swapchain_extension() -> Seq<char> {
    "VK_KHR_swapchain"@
}

impl PhysicalDeviceInfo {
    /// The device can be used: it has a family that draws and one that
    /// presents, it offers the swapchain extension, the surface offers a
    /// format and a present mode with it, and it can filter anisotropically.
    pub open spec fn suitable(&self) -> bool {
        &&& self.queue_families@.len() <= u32::MAX
        &&& found_families(self.queue_families@).complete()
        &&& names_contain(self.extension_names@, swapchain_extension())
        &&& self.surface_format_count > 0
        &&& self.present_mode_count > 0
        &&& self.sampler_anisotropy
    }
}

/// No device before position `end` is suitable.
pub open spec fn none_suitable(devices: Seq<PhysicalDeviceInfo>, end: int) -> bool {
    forall|j: int| 0 <= j < end ==> !(#[trigger] devices[j]).suitable()
}

/// Whether `name` is one of `names`.
pub fn contains_name(names: &Vec<String>, name: &String) -> (found: bool)
    ensures
        found == names_contain(names@, name@),
{
    let mut i: usize = 0;
    while i < names.len()
        invariant
            i <= names@.len(),
            forall|j: int| 0 <= j < i ==> (#[trigger] names@[j])@ != name@,
        decreases names@.len() - i,
    {
        if names[i] == *name {
            return true;
        }
        i += 1;
    }
    false
}

/// Whether every one of `required` is among `available`.
pub fn contains_all_names(available: &Vec<String>, required: &Vec<String>) -> (found: bool)
    ensures
        found == names_contain_all(available@, required@),
{
    let mut r: usize = 0;
    while r < required.len()
        invariant
            r <= required@.len(),
            forall|j: int| 0 <= j < r ==> names_contain(available@, (#[trigger] required@[j])@),
        decreases required@.len() - r,
    {
        if !contains_name(available, &required[r]) {
            return false;
        }
        r += 1;
    }
    true
}

/// The device that was chosen, and the queue families used on it.
pub struct GraphicDevice {
    /// The position of the device among those on offer.
    pub physical: usize,
    pub family_indices: QueueFamilyIndices,
}

impl GraphicDevice {
    /// Chooses the first device on offer that is suitable, and finds its
    /// queue families.
    ///
    /// Fails where no device is suitable.
    pub fn new(devices: &Vec<PhysicalDeviceInfo>) -> (device: Result<GraphicDevice, RenderError>)
        ensures
            device is Ok <==> exists|i: int|
                0 <= i < devices@.len() && (#[trigger] devices@[i]).suitable(),
            device is Ok ==> device->Ok_0.physical < devices@.len() && devices@[device->Ok_0.physical as int].suitable()
                && none_suitable(devices@, device->Ok_0.physical as int)
                && device->Ok_0.family_indices == found_families(
                devices@[device->Ok_0.physical as int].queue_families@,
            ) && device->Ok_0.family_indices.complete(),
            device is Err ==> device->Err_0 == RenderError::NoSuitableDevice,
    {
        match Self::pick_physical_device(devices) {
            Some(physical) => {
                let family_indices = Self::find_queue_family(&devices[physical].queue_families);
                Ok(GraphicDevice { physical, family_indices })
            },
            None => Err(RenderError::NoSuitableDevice),
        }
    }

    /// The position of the first suitable device, if there is one.
    pub fn pick_physical_device(devices: &Vec<PhysicalDeviceInfo>) -> (picked: Option<usize>)
        ensures
            picked is Some <==> exists|i: int|
                0 <= i < devices@.len() && (#[trigger] devices@[i]).suitable(),
            picked is Some ==> picked->0 < devices@.len() && devices@[picked->0 as int].suitable()
                && none_suitable(devices@, picked->0 as int),
    {
        let mut i: usize = 0;
        while i < devices.len()
            invariant
                i <= devices@.len(),
                none_suitable(devices@, i as int),
            decreases devices@.len() - i,
        {
            if Self::is_physical_device_suitable(&devices[i]) {
                return Some(i);
            }
            i += 1;
        }
        None
    }

    /// Whether a device can be used.
    pub fn is_physical_device_suitable(device: &PhysicalDeviceInfo) -> (suitable: bool)
        ensures
            suitable == device.suitable(),
    {
        if device.queue_families.len() > u32::MAX as usize {
            return false;
        }
        let indices = Self::find_queue_family(&device.queue_families);
        let is_queue_family_supported = indices.is_complete();
        let is_device_extension_supported = Self::check_device_extension_support(
            &device.extension_names,
        );
        let is_swapchain_supported = if is_device_extension_supported {
            device.surface_format_count > 0 && device.present_mode_count > 0
        } else {
            false
        };
        is_queue_family_supported && is_device_extension_supported && is_swapchain_supported
            && device.sampler_anisotropy
    }

    /// Finds the queue families to use. The families are looked at in
    /// order; the search ends as soon as one that draws and one that
    /// presents have both been seen, and of each kind the last one seen is
    /// taken.
    pub fn find_queue_family(queue_families: &Vec<QueueFamily>) -> (indices: QueueFamilyIndices)
        requires
            queue_families@.len() <= u32::MAX,
        ensures
            indices == found_families(queue_families@),
    {
        let mut queue_family_indices = QueueFamilyIndices::new();
        let mut index: u32 = 0;
        while (index as usize) < queue_families.len()
            invariant
                queue_families@.len() <= u32::MAX,
                index <= queue_families@.len(),
                queue_family_indices == found_among(queue_families@, index as int),
                !queue_family_indices.complete(),
                examined_from(queue_families@, 0) == examined_from(queue_families@, index as int),
            decreases queue_families@.len() - index,
        {
            let queue_family = queue_families[index as usize];
            if queue_family.queue_count > 0 && queue_flags_contain(
                queue_family.queue_flags,
                QUEUE_GRAPHICS,
            ) {
                queue_family_indices.graphics_family = Some(index);
            }
            if queue_family.queue_count > 0 && queue_family.present_support {
                queue_family_indices.present_family = Some(index);
            }
            if queue_family_indices.is_complete() {
                return queue_family_indices;
            }
            index += 1;
        }
        queue_family_indices
    }

    /// Whether a device that offers the named extensions offers all that the
    /// renderer needs: the swapchain extension.
    pub fn check_device_extension_support(available_extension_names: &Vec<String>) -> (supported:
        bool)
        ensures
            supported == names_contain(available_extension_names@, swapchain_extension()),
    {
        let required = "VK_KHR_swapchain".to_owned();
        contains_name(available_extension_names, &required)
    }

    /// The families to create queues for, each one once: the family that
    /// draws, and the family that presents where it is another.
    pub fn unique_queue_families(indices: &QueueFamilyIndices) -> (families: Result<
        Vec<u32>,
        RenderError,
    >)
        ensures
            indices.complete() ==> families is Ok && families->Ok_0@ == if indices.graphics_family
                == indices.present_family {
                seq![indices.graphics_family->0]
            } else {
                seq![indices.graphics_family->0, indices.present_family->0]
            },
            !indices.complete() ==> families is Err && families->Err_0
                == RenderError::MissingQueueFamily,
    {
        match (indices.graphics_family, indices.present_family) {
            (Some(graphics_family), Some(present_family)) => {
                let mut families: Vec<u32> = Vec::new();
                families.push(graphics_family);
                if present_family != graphics_family {
                    families.push(present_family);
                }
                Ok(families)
            },
            _ => Err(RenderError::MissingQueueFamily),
        }
    }
}

/// The last of the first `end` families that can draw is one of them and
/// can draw, and none after it can; where there is none, no family among
/// them can draw. The same holds of presenting.
proof fn lemma_last_found(families: Seq<QueueFamily>, end: int)
    requires
        0 <= end <= families.len(),
        families.len() <= u32::MAX,
    ensures
        last_drawing(families, end) is Some ==> 0 <= last_drawing(families, end)->0 < end
            && families[last_drawing(families, end)->0 as int].can_draw(),
        last_drawing(families, end) is None ==> forall|i: int|
            0 <= i < end ==> !(#[trigger] families[i]).can_draw(),
        last_presenting(families, end) is Some ==> 0 <= last_presenting(families, end)->0 < end
            && families[last_presenting(families, end)->0 as int].can_present(),
        last_presenting(families, end) is None ==> forall|i: int|
            0 <= i < end ==> !(#[trigger] families[i]).can_present(),
    decreases end,
{
    if end > 0 {
        lemma_last_found(families, end - 1);
    }
}

/// The search looks at no more families than there are, and ends early only
/// with a complete pair.
proof fn lemma_examined(families: Seq<QueueFamily>, from: int)
    requires
        0 <= from <= families.len(),
    ensures
        from <= examined_from(families, from) <= families.len(),
        examined_from(families, from) < families.len() ==> found_among(
            families,
            examined_from(families, from),
        ).complete(),
    decreases families.len() - from,
{
    if from < families.len() && !found_among(families, from + 1).complete() {
        lemma_examined(families, from + 1);
    }
}

/// The search finds both families exactly where some family can draw and
/// some family can present, and the families it finds can do what they were
/// found for.
pub proof fn lemma_families_found(families: Seq<QueueFamily>)
    requires
        families.len() <= u32::MAX,
    ensures
        found_families(families).complete() <==> (exists|i: int|
            0 <= i < families.len() && (#[trigger] families[i]).can_draw()) && (exists|j: int|
            0 <= j < families.len() && (#[trigger] families[j]).can_present()),
        found_families(families).graphics_family is Some ==> found_families(
            families,
        ).graphics_family->0 < families.len() && families[found_families(
            families,
        ).graphics_family->0 as int].can_draw(),
        found_families(families).present_family is Some ==> found_families(
            families,
        ).present_family->0 < families.len() && families[found_families(
            families,
        ).present_family->0 as int].can_present(),
{
    let examined = examined_from(families, 0);
    lemma_examined(families, 0);
    lemma_last_found(families, examined);
}

} // verus!
