//! Physical-device selection: queue-family resolution, category scoring
//! and the highest-score-wins elimination over all enumerated devices.

use vstd::prelude::*;

verus! {

/// Queue family indices resolved for one physical device: the first
/// family offering graphics work and the first offering presentation
/// to the target surface.  The two may differ.
#[derive(Debug, Clone)]
pub struct QueueFamilyIndices {
    pub graphics_family: Option<u32>,
    pub present_family: Option<u32>,
}

impl QueueFamilyIndices {
    pub fn new() -> (r: QueueFamilyIndices)
        ensures
            r.graphics_family is None,
            r.present_family is None,
    {
        QueueFamilyIndices { graphics_family: None, present_family: None }
    }

    /// Both indices found: the device can both render and present.
    pub fn is_compelete(&self) -> (r: bool)
        ensures
            r == (self.graphics_family is Some && self.present_family is Some),
    {
        self.graphics_family.is_some() && self.present_family.is_some()
    }
}

/// What the selection logic reads of one queue family, as plain values:
/// how many queues it offers and which operations they support.
/// Presentation support is a per-surface query, so the shell fills
/// `supports_present` for the surface at hand.
#[derive(Debug, Clone, Copy)]
pub struct QueueFamilyProps {
    pub queue_count: u32,
    pub supports_graphics: bool,
    pub supports_present: bool,
}

pub open spec fn usable_for_graphics(f: QueueFamilyProps) -> bool {
    f.queue_count > 0 && f.supports_graphics
}

pub open spec fn usable_for_present(f: QueueFamilyProps) -> bool {
    f.queue_count > 0 && f.supports_present
}

/// Resolve the queue family indices for a device: the first family with
/// usable graphics queues, and the first (possibly different) family
/// that can present to the surface.
pub fn find_queue_family_indices(families: &Vec<QueueFamilyProps>) -> (r: QueueFamilyIndices)
    requires
        families@.len() <= u32::MAX,
    ensures
        r.graphics_family matches Some(i) ==> {
            &&& i < families.len()
            &&& usable_for_graphics(families@[i as int])
            &&& forall|j: int| 0 <= j < i ==> !usable_for_graphics(#[trigger] families@[j])
        },
        r.graphics_family is None ==> forall|j: int|
            0 <= j < families@.len() ==> !usable_for_graphics(#[trigger] families@[j]),
        r.present_family matches Some(i) ==> {
            &&& i < families.len()
            &&& usable_for_present(families@[i as int])
            &&& forall|j: int| 0 <= j < i ==> !usable_for_present(#[trigger] families@[j])
        },
        r.present_family is None ==> forall|j: int|
            0 <= j < families@.len() ==> !usable_for_present(#[trigger] families@[j]),
{
    let mut indices = QueueFamilyIndices::new();
    let mut index: usize = 0;
    while index < families.len()
        invariant
            index <= families.len(),
            families@.len() <= u32::MAX,
            indices.graphics_family matches Some(i) ==> {
                &&& i < index
                &&& usable_for_graphics(families@[i as int])
                &&& forall|j: int| 0 <= j < i ==> !usable_for_graphics(#[trigger] families@[j])
            },
            indices.graphics_family is None ==> forall|j: int|
                0 <= j < index ==> !usable_for_graphics(#[trigger] families@[j]),
            indices.present_family matches Some(i) ==> {
                &&& i < index
                &&& usable_for_present(families@[i as int])
                &&& forall|j: int| 0 <= j < i ==> !usable_for_present(#[trigger] families@[j])
            },
            indices.present_family is None ==> forall|j: int|
                0 <= j < index ==> !usable_for_present(#[trigger] families@[j]),
        decreases families.len() - index,
    {
        let family = families[index];
        if family.queue_count > 0 {
            if indices.graphics_family.is_none() && family.supports_graphics {
                indices.graphics_family = Some(index as u32);
            }
            if indices.present_family.is_none() && family.supports_present {
                indices.present_family = Some(index as u32);
            }
        }
        if indices.is_compelete() {
            return indices;
        }
        index += 1;
    }
    indices
}

/// The category a physical device reports, ordered by how well it is
/// expected to perform.
#[derive(Debug, Clone, Copy, PartialEq, Eq, Structural)]
pub enum DeviceCategory {
    DiscreteGpu,
    IntegratedGpu,
    VirtualGpu,
    Cpu,
    Unknown,
}

pub open spec fn category_score(c: DeviceCategory) -> u8 {
    match c {
        DeviceCategory::DiscreteGpu => 4,
        DeviceCategory::IntegratedGpu => 3,
        DeviceCategory::VirtualGpu => 2,
        DeviceCategory::Cpu => 1,
        DeviceCategory::Unknown => 0,
    }
}

pub fn device_category_score(c: DeviceCategory) -> (r: u8)
    ensures
        r == category_score(c),
{
    match c {
        DeviceCategory::DiscreteGpu => 4,
        DeviceCategory::IntegratedGpu => 3,
        DeviceCategory::VirtualGpu => 2,
        DeviceCategory::Cpu => 1,
        DeviceCategory::Unknown => 0,
    }
}

/// What device selection reads of one physical device: its category,
/// its queue families, and the device extensions it advertises.
#[derive(Debug, Clone)]
pub struct PhysicalDeviceInfo {
    pub category: DeviceCategory,
    pub queue_families: Vec<QueueFamilyProps>,
    pub extension_names: Vec<String>,
}

pub open spec fn device_wf(d: PhysicalDeviceInfo) -> bool {
    d.queue_families@.len() <= u32::MAX
}

pub open spec fn contains_name(names: Seq<String>, target: Seq<char>) -> bool {
    exists|i: int| 0 <= i < names.len() && (#[trigger] names[i])@ == target
}

/// Every required name occurs among the available ones.
pub open spec fn supports_all_names(available: Seq<String>, required: Seq<String>) -> bool {
    forall|i: int| 0 <= i < required.len() ==> contains_name(available, (#[trigger] required[i])@)
}

pub fn contains_string(names: &Vec<String>, target: &String) -> (r: bool)
    ensures
        r == contains_name(names@, target@),
{
    let mut i: usize = 0;
    while i < names.len()
        invariant
            i <= names.len(),
            forall|j: int| 0 <= j < i ==> (#[trigger] names@[j])@ != target@,
        decreases names.len() - i,
    {
        if names[i].eq(target) {
            return true;
        }
        i += 1;
    }
    false
}

/// Whether a device advertises every required extension.  Mirrors the
/// set-difference check made against the enumerated device extensions.
pub fn is_device_support_extensions(available: &Vec<String>, required: &Vec<String>) -> (r: bool)
    ensures
        r == supports_all_names(available@, required@),
{
    let mut i: usize = 0;
    while i < required.len()
        invariant
            i <= required.len(),
            forall|j: int| 0 <= j < i ==> contains_name(available@, (#[trigger] required@[j])@),
        decreases required.len() - i,
    {
        if !contains_string(available, &required[i]) {
            return false;
        }
        i += 1;
    }
    true
}

pub open spec fn has_graphics_family(d: PhysicalDeviceInfo) -> bool {
    exists|i: int| 0 <= i < d.queue_families@.len() && usable_for_graphics(#[trigger] d.queue_families@[i])
}

pub open spec fn has_present_family(d: PhysicalDeviceInfo) -> bool {
    exists|i: int| 0 <= i < d.queue_families@.len() && usable_for_present(#[trigger] d.queue_families@[i])
}

/// A device is eligible when its category scores above zero, some queue
/// family can do graphics work, some family can present to the surface,
/// and every required device extension is advertised.
pub open spec fn device_eligible(d: PhysicalDeviceInfo, required: Seq<String>) -> bool {
    &&& category_score(d.category) > 0
    &&& has_graphics_family(d)
    &&& has_present_family(d)
    &&& supports_all_names(d.extension_names@, required)
}

pub fn check_device_eligible(d: &PhysicalDeviceInfo, required: &Vec<String>) -> (r: bool)
    requires
        device_wf(*d),
    ensures
        r == device_eligible(*d, required@),
{
    let score = device_category_score(d.category);
    let indices = find_queue_family_indices(&d.queue_families);
    let complete = indices.is_compelete();
    let supports = is_device_support_extensions(&d.extension_names, required);
    score > 0 && complete && supports
}

/// One elimination step of device selection: the current device replaces
/// the best seen so far exactly when it is eligible and strictly
/// outscores it, so that ties keep the device found first.
pub fn iterate_select_device(
    devices: &Vec<PhysicalDeviceInfo>,
    last_device: Option<u32>,
    last_device_score: u8,
    current_device: u32,
    required: &Vec<String>,
) -> (r: (Option<u32>, u8))
    requires
        current_device < devices@.len(),
        device_wf(devices@[current_device as int]),
    ensures
        r == if device_eligible(devices@[current_device as int], required@)
            && category_score(devices@[current_device as int].category) > last_device_score {
            (Some(current_device), category_score(devices@[current_device as int].category))
        } else {
            (last_device, last_device_score)
        },
{
    let current = &devices[current_device as usize];
    let score = device_category_score(current.category);
    if check_device_eligible(current, required) && score > last_device_score {
        (Some(current_device), score)
    } else {
        (last_device, last_device_score)
    }
}

/// Select the eligible device with the highest category score; among
/// equally scored devices the first enumerated wins.  Returns the index
/// of the selected device, or `None` when no device is eligible.
pub fn pick_physical_device(devices: &Vec<PhysicalDeviceInfo>, required: &Vec<String>) -> (r: Option<
    u32,
>)
    requires
        devices@.len() <= u32::MAX,
        forall|i: int| 0 <= i < devices@.len() ==> device_wf(#[trigger] devices@[i]),
    ensures
        r is None ==> forall|i: int|
            0 <= i < devices@.len() ==> !device_eligible(#[trigger] devices@[i], required@),
        r matches Some(i) ==> {
            &&& i < devices@.len()
            &&& device_eligible(devices@[i as int], required@)
            &&& forall|j: int|
                0 <= j < devices@.len() && device_eligible(#[trigger] devices@[j], required@)
                    ==> category_score(devices@[j].category) <= category_score(
                    devices@[i as int].category,
                )
            &&& forall|j: int|
                0 <= j < i && device_eligible(#[trigger] devices@[j], required@)
                    ==> category_score(devices@[j].category) < category_score(
                    devices@[i as int].category,
                )
        },
{
    let mut result: Option<u32> = None;
    let mut device_score: u8 = 0;
    let mut index: u32 = 0;
    while (index as usize) < devices.len()
        invariant
            index <= devices@.len(),
            devices@.len() <= u32::MAX,
            forall|i: int| 0 <= i < devices@.len() ==> device_wf(#[trigger] devices@[i]),
            result is None ==> device_score == 0 && forall|i: int|
                0 <= i < index ==> !device_eligible(#[trigger] devices@[i], required@),
            result matches Some(i) ==> {
                &&& i < index
                &&& device_eligible(devices@[i as int], required@)
                &&& device_score == category_score(devices@[i as int].category)
                &&& forall|j: int|
                    0 <= j < index && device_eligible(#[trigger] devices@[j], required@)
                        ==> category_score(devices@[j].category) <= device_score
                &&& forall|j: int|
                    0 <= j < i && device_eligible(#[trigger] devices@[j], required@)
                        ==> category_score(devices@[j].category) < device_score
            },
        decreases devices@.len() - index,
    {
        let (next_result, next_score) = iterate_select_device(
            devices,
            result,
            device_score,
            index,
            required,
        );
        result = next_result;
        device_score = next_score;
        index += 1;
    }
    result
}

} // verus!
