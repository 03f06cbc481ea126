//! Startup configuration: window size, frames in flight, validation
//! layers, required extension names, and the packed API version words
//! the instance is created with.

use vstd::prelude::*;
use crate::device::supports_all_names;

verus! {

pub const WINDOW_WIDTH: u32 = 800;

pub const WINDOW_HEIGHT: u32 = 600;

/// How many ring slots of per-frame resources are cycled.
pub const MAX_FRAMES_IN_FLIGHT: usize = 2;

/// Whether the diagnostic validation layer is requested, and which
/// layer names it needs.  Passed explicitly into context creation; no
/// ambient global.
#[derive(Debug, Clone)]
pub struct ValidationInfo {
    pub enabled: bool,
    pub required_validation_layers: [&'static str; 1],
}

/// The names of the device extensions a device must offer.
#[derive(Debug, Clone)]
pub struct DeviceExtensionInfo {
    pub names: [&'static str; 1],
}

/// The default validation configuration: the standard validation layer,
/// switched on.
pub fn validation() -> (r: ValidationInfo)
    ensures
        r.enabled == true,
        r.required_validation_layers@[0]@ == "VK_LAYER_KHRONOS_validation"@,
{
    ValidationInfo { enabled: true, required_validation_layers: ["VK_LAYER_KHRONOS_validation"] }
}

/// The device extension set required of every eligible device: at
/// minimum, swapchain presentation.
pub fn get_required_device_extension_names() -> (r: Vec<String>)
    ensures
        r@.len() == 1,
        r@[0]@ == "VK_KHR_swapchain"@,
{
    let mut names: Vec<String> = Vec::new();
    names.push("VK_KHR_swapchain".to_owned());
    names
}

/// Whether every required validation layer is among the layers the
/// runtime reports; an empty report means no layer support at all.
pub fn check_validation_layer_support(
    available_layers: &Vec<String>,
    required_layers: &Vec<String>,
) -> (r: bool)
    ensures
        r == (available_layers@.len() > 0 && supports_all_names(
            available_layers@,
            required_layers@,
        )),
{
    if available_layers.len() == 0 {
        return false;
    }
    crate::device::is_device_support_extensions(available_layers, required_layers)
}

/// The packed API version word: variant, major, minor and patch in one
/// integer.
pub open spec fn api_version_encoding(variant: u32, major: u32, minor: u32, patch: u32) -> u32 {
    (variant << 29u32) | (major << 22u32) | (minor << 12u32) | patch
}

/// Relies on ash::vk::make_api_version: packs the four version parts by
/// the fixed shift-and-or layout the API defines.
pub assume_specification [ ash::vk::make_api_version ](
    variant: u32,
    major: u32,
    minor: u32,
    patch: u32,
) -> (r: u32)
    ensures
        r == api_version_encoding(variant, major, minor, patch),
;

/// The application's own version word.
pub fn application_version() -> (r: u32)
    ensures
        r == api_version_encoding(0, 1, 0, 0),
{
    ash::vk::make_api_version(0, 1, 0, 0)
}

/// The engine's version word.
pub fn engine_version() -> (r: u32)
    ensures
        r == api_version_encoding(0, 1, 0, 0),
{
    ash::vk::make_api_version(0, 1, 0, 0)
}

/// The API version requested of the instance.
pub fn api_version() -> (r: u32)
    ensures
        r == api_version_encoding(0, 1, 3, 0),
{
    ash::vk::make_api_version(0, 1, 3, 0)
}

/// The windowing platform the surface is created on.
#[derive(Debug, Clone, Copy, PartialEq, Eq, Structural)]
pub enum Platform {
    Windows,
    Xlib,
    MacOs,
}

/// The instance extensions each platform needs: the surface extension,
/// the platform's own surface extension, and the debug-utils extension.
pub fn required_extension_names(platform: Platform) -> (r: Vec<String>)
    ensures
        r@.len() == 3,
        r@[0]@ == "VK_KHR_surface"@,
        platform is Windows ==> r@[1]@ == "VK_KHR_win32_surface"@,
        platform is Xlib ==> r@[1]@ == "VK_KHR_xlib_surface"@,
        platform is MacOs ==> r@[1]@ == "VK_MVK_macos_surface"@,
        r@[2]@ == "VK_EXT_debug_utils"@,
{
    let mut names: Vec<String> = Vec::new();
    names.push("VK_KHR_surface".to_owned());
    match platform {
        Platform::Windows => names.push("VK_KHR_win32_surface".to_owned()),
        Platform::Xlib => names.push("VK_KHR_xlib_surface".to_owned()),
        Platform::MacOs => names.push("VK_MVK_macos_surface".to_owned()),
    }
    names.push("VK_EXT_debug_utils".to_owned());
    names
}

fn clone_string_vec(v: &Vec<String>) -> (r: Vec<String>)
    ensures
        r@ == v@,
{
    let mut out: Vec<String> = Vec::new();
    let mut i: usize = 0;
    while i < v.len()
        invariant
            i <= v@.len(),
            out@ == v@.take(i as int),
        decreases v@.len() - i,
    {
        out.push(v[i].clone());
        proof {
            assert(out@ =~= v@.take(i + 1));
        }
        i += 1;
    }
    proof {
        assert(out@ =~= v@);
    }
    out
}

/// Everything the one instance-creation call copies in.
pub struct InstancePlan {
    pub application_version: u32,
    pub engine_version: u32,
    pub api_version: u32,
    pub extension_names: Vec<String>,
    pub enabled_layer_names: Vec<String>,
}

/// Plan instance creation: refuse outright (the fatal startup case)
/// when validation is requested but its layers are not all available;
/// otherwise fix the version words, the platform extensions, and the
/// layer list (empty when validation is off).
pub fn create_instance(
    validation_enabled: bool,
    required_layers: &Vec<String>,
    available_layers: &Vec<String>,
    platform: Platform,
) -> (r: Option<InstancePlan>)
    ensures
        r is Some <==> (!validation_enabled || (available_layers@.len() > 0 && supports_all_names(
            available_layers@,
            required_layers@,
        ))),
        r matches Some(p) ==> {
            &&& p.application_version == api_version_encoding(0, 1, 0, 0)
            &&& p.engine_version == api_version_encoding(0, 1, 0, 0)
            &&& p.api_version == api_version_encoding(0, 1, 3, 0)
            &&& p.extension_names@.len() == 3
            &&& p.enabled_layer_names@ == if validation_enabled {
                required_layers@
            } else {
                Seq::<String>::empty()
            }
        },
{
    if validation_enabled && !check_validation_layer_support(available_layers, required_layers) {
        return None;
    }
    let enabled_layer_names = if validation_enabled {
        clone_string_vec(required_layers)
    } else {
        Vec::new()
    };
    proof {
        if !validation_enabled {
            assert(enabled_layer_names@ =~= Seq::<String>::empty());
        }
    }
    Some(
        InstancePlan {
            application_version: application_version(),
            engine_version: engine_version(),
            api_version: api_version(),
            extension_names: required_extension_names(platform),
            enabled_layer_names,
        },
    )
}

} // verus!
