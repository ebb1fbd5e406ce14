//! The device: which Vulkan version is asked for, which physical device and
//! queue family are used, and what the surface supports.

use vstd::prelude::*;

use super::vk;
use crate::debug::Level;

verus! {

/// Severity bit of a message of the validation layers: diagnostics.
pub const DEBUG_SEVERITY_VERBOSE: u32 = 0x1;

/// Severity bit of a message of the validation layers: information.
pub const DEBUG_SEVERITY_INFO: u32 = 0x10;

/// Severity bit of a message of the validation layers: a warning.
pub const DEBUG_SEVERITY_WARNING: u32 = 0x100;

/// Severity bit of a message of the validation layers: an error.
pub const DEBUG_SEVERITY_ERROR: u32 = 0x1000;

/// The level at which a message of the validation layers is logged: its
/// own where it is diagnostics, information or a warning, and as an error
/// in every other case.
pub fn debug_message_level(message_severity: u32) -> (level: Level)
    ensures
        level == if message_severity == DEBUG_SEVERITY_VERBOSE {
            Level::Debug
        } else if message_severity == DEBUG_SEVERITY_INFO {
            Level::Info
        } else if message_severity == DEBUG_SEVERITY_WARNING {
            Level::Warn
        } else {
            Level::Error
        },
{
    if message_severity == DEBUG_SEVERITY_VERBOSE {
        Level::Debug
    } else if message_severity == DEBUG_SEVERITY_INFO {
        Level::Info
    } else if message_severity == DEBUG_SEVERITY_WARNING {
        Level::Warn
    } else {
        Level::Error
    }
}

/// What a surface supports: the input of the swapchain policy.
#[derive(Debug)]
pub struct SwapChainSupportDetails {
    /// The format and color space pairs the surface can show.
    pub formats: Vec<vk::SurfaceFormatKHR>,
    /// The capabilities of the surface.
    pub capabilities: vk::SurfaceCapabilitiesKHR,
    /// The present modes the surface supports.
    pub present_modes: Vec<i32>,
}

impl SwapChainSupportDetails {
    pub fn new(
        formats: Vec<vk::SurfaceFormatKHR>,
        capabilities: vk::SurfaceCapabilitiesKHR,
        present_modes: Vec<i32>,
    ) -> (details: Self)
        ensures
            details.formats == formats,
            details.capabilities == capabilities,
            details.present_modes == present_modes,
    {
        SwapChainSupportDetails { formats, capabilities, present_modes }
    }
}

/// A version of the graphics API.
#[derive(Clone, Copy, Debug, PartialEq, Eq, Structural)]
pub struct ApiVersion {
    pub variant: u32,
    pub major: u32,
    pub minor: u32,
    pub patch: u32,
}

/// The version number that packs the four parts of a version: the variant
/// in the top 3 bits, then 7 bits of major, 10 of minor and 12 of patch.
/// Bits of a part that do not fit its field spill into the field above or
/// are lost at the top.
pub open spec fn packed_version(variant: u32, major: u32, minor: u32, patch: u32) -> u32 {
    (variant << 29) | (major << 22) | (minor << 12) | patch
}

/// Calls `ash::vk::make_api_version`, which shifts the variant left by 29
/// bits, the major number by 22 and the minor number by 12, and ors the
/// three with the patch number.
#[verifier::external_body]
fn make_api_version(variant: u32, major: u32, minor: u32, patch: u32) -> (version: u32)
    ensures
        version == packed_version(variant, major, minor, patch),
{
    ash::vk::make_api_version(variant, major, minor, patch)
}

impl ApiVersion {
    pub fn new(variant: u32, major: u32, minor: u32, patch: u32) -> (version: Self)
        ensures
            version == (ApiVersion { variant, major, minor, patch }),
    {
        ApiVersion { variant, major, minor, patch }
    }

    /// The version as the one number the graphics API takes.
    pub fn packed(self) -> (version: u32)
        ensures
            version == packed_version(self.variant, self.major, self.minor, self.patch),
    {
        make_api_version(self.variant, self.major, self.minor, self.patch)
    }
}

impl From<ApiVersion> for u32 {
    fn from(val: ApiVersion) -> (version: u32) {
        val.packed()
    }
}

impl vstd::std_specs::convert::FromSpecImpl<ApiVersion> for u32 {
    open spec fn obeys_from_spec() -> bool {
        true
    }

    open spec fn from_spec(val: ApiVersion) -> u32 {
        packed_version(val.variant, val.major, val.minor, val.patch)
    }
}

/// The highest version of the graphics API that the engine is written for.
pub fn api_version() -> (version: ApiVersion)
    ensures
        version == (ApiVersion { variant: 0, major: 1, minor: 2, patch: 0 }),
        packed_version(version.variant, version.major, version.minor, version.patch) == 0x0040_2000,
{
    assert(packed_version(0, 1, 2, 0) == 0x0040_2000) by (bit_vector);
    ApiVersion::new(0, 1, 2, 0)
}

/// Why no device was chosen.
#[derive(Clone, Copy, Debug, PartialEq, Eq, Structural)]
pub enum DeviceError {
    /// No physical device has a queue family that does graphics and can
    /// present to the surface.
    NoSuitableDevice,
}

/// Whether a queue family does graphics and can present to the surface.
pub open spec fn family_suits(family: vk::QueueFamilyProperties) -> bool {
    family.queue_flags & vk::QUEUE_GRAPHICS == vk::QUEUE_GRAPHICS && family.surface_support
}

/// Whether family `index` is the first of `families` that suits.
pub open spec fn is_first_suitable_family(
    families: Seq<vk::QueueFamilyProperties>,
    index: int,
) -> bool {
    &&& 0 <= index < families.len()
    &&& family_suits(families[index])
    &&& forall|j: int| 0 <= j < index ==> !family_suits(#[trigger] families[j])
}

/// Whether no family of `families` suits.
pub open spec fn no_suitable_family(families: Seq<vk::QueueFamilyProperties>) -> bool {
    forall|j: int| 0 <= j < families.len() ==> !family_suits(#[trigger] families[j])
}

fn find_suitable_family(families: &Vec<vk::QueueFamilyProperties>) -> (found: Option<u32>)
    requires
        families@.len() <= u32::MAX,
    ensures
        match found {
            Some(index) => is_first_suitable_family(families@, index as int),
            None => no_suitable_family(families@),
        },
{
    let mut index: u32 = 0;
    while (index as usize) < families.len()
        invariant
            index <= families@.len() <= u32::MAX,
            forall|j: int| 0 <= j < index ==> !family_suits(#[trigger] families@[j]),
        decreases families@.len() - index,
    {
        let family = families[index as usize];
        if family.queue_flags & vk::QUEUE_GRAPHICS == vk::QUEUE_GRAPHICS && family.surface_support {
            return Some(index);
        }
        index += 1;
    }
    None
}

/// The first physical device that has a suitable queue family, with the
/// first such family of it. `devices` holds the queue families of each
/// physical device, in the order in which the instance lists the devices.
pub fn find_suitable_physical_device(devices: &Vec<Vec<vk::QueueFamilyProperties>>) -> (found:
    Result<(usize, u32), DeviceError>)
    requires
        forall|d: int| 0 <= d < devices@.len() ==> (#[trigger] devices@[d])@.len() <= u32::MAX,
    ensures
        match found {
            Ok((device, family)) => {
                &&& 0 <= device < devices@.len()
                &&& is_first_suitable_family(devices@[device as int]@, family as int)
                &&& forall|d: int| 0 <= d < device ==> no_suitable_family((#[trigger] devices@[d])@)
            },
            Err(e) => {
                &&& e == DeviceError::NoSuitableDevice
                &&& forall|d: int|
                    0 <= d < devices@.len() ==> no_suitable_family((#[trigger] devices@[d])@)
            },
        },
{
    let mut device: usize = 0;
    while device < devices.len()
        invariant
            device <= devices@.len(),
            forall|d: int| 0 <= d < devices@.len() ==> (#[trigger] devices@[d])@.len() <= u32::MAX,
            forall|d: int| 0 <= d < device ==> no_suitable_family((#[trigger] devices@[d])@),
        decreases devices@.len() - device,
    {
        match find_suitable_family(&devices[device]) {
            Some(family) => {
                return Ok((device, family));
            },
            None => {},
        }
        device += 1;
    }
    Err(DeviceError::NoSuitableDevice)
}

} // verus!
