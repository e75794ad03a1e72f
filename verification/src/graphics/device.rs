//! Capability negotiation and the choice of a physical device.

use crate::graphics::constants::{
    DEBUG_SEVERITY_ERROR, DEBUG_SEVERITY_INFO, DEBUG_SEVERITY_WARNING, DEBUG_TYPE_GENERAL,
    DEBUG_TYPE_PERFORMANCE, DEBUG_TYPE_VALIDATION, QUEUE_GRAPHICS,
};
use crate::graphics::errors::VkAppError;
use crate::log::ProjectError;
use crate::graphics::extensions::{
    lemma_missing_names_are_all_the_absent, missing_names, Extensions,
};
use crate::graphics::presentation::{
    get_surface_details, surface_details_outcome, SurfaceCapabilities, SurfaceDetails,
    SurfaceFormat,
};
use crate::project::{APP_NAME, VERSION_MAJOR, VERSION_MINOR};
use crate::text::{joined, lemma_joined_lists, texts_of};
use vstd::prelude::*;
use vstd::string::StringExecFns;

verus! {

/// A problem with what a physical device can do, or with a call made on it.
#[derive(Debug)]
pub struct DeviceError {
    device_name: String,
    cause: String,
}

impl DeviceError {
    /// The name of the device the error is about.
    pub closed spec fn device_name_text(&self) -> Seq<char> {
        self.device_name@
    }

    /// What went wrong.
    pub closed spec fn cause_text(&self) -> Seq<char> {
        self.cause@
    }

    /// An error about the device called `device_name`.
    pub fn new(device_name: String, cause: String) -> (error: Self)
        ensures
            error.device_name_text() == device_name@,
            error.cause_text() == cause@,
    {
        DeviceError { device_name, cause }
    }

    /// `Device Error for device <name>: <cause>`
    pub fn message(&self) -> (message: String)
        ensures
            message@ == "Device Error for device "@ + self.device_name_text() + ": "@
                + self.cause_text(),
    {
        let mut message = String::from_str("Device Error for device ");
        message.append(self.device_name.as_str());
        message.append(": ");
        message.append(self.cause.as_str());
        message
    }
}

/// The validation layer the renderer runs under.
pub fn validation_layers() -> (layers: Extensions<'static, 1>)
    ensures
        layers.names() == seq!["VK_LAYER_KHRONOS_validation"@],
{
    let layers = Extensions(["VK_LAYER_KHRONOS_validation"]);
    assert(layers.names() =~= seq!["VK_LAYER_KHRONOS_validation"@]);
    layers
}

/// The instance extensions the renderer needs: surfaces, debug messages, and surfaces
/// on Win32 windows.
pub fn instance_extensions() -> (extensions: Extensions<'static, 3>)
    ensures
        extensions.names() == seq![
            "VK_KHR_surface"@,
            "VK_EXT_debug_utils"@,
            "VK_KHR_win32_surface"@,
        ],
{
    let extensions = Extensions(["VK_KHR_surface", "VK_EXT_debug_utils", "VK_KHR_win32_surface"]);
    assert(extensions.names() =~= seq![
        "VK_KHR_surface"@,
        "VK_EXT_debug_utils"@,
        "VK_KHR_win32_surface"@,
    ]);
    extensions
}

/// The device extension the renderer needs: presenting through a swapchain.
pub fn device_extensions() -> (extensions: Extensions<'static, 1>)
    ensures
        extensions.names() == seq!["VK_KHR_swapchain"@],
{
    let extensions = Extensions(["VK_KHR_swapchain"]);
    assert(extensions.names() =~= seq!["VK_KHR_swapchain"@]);
    extensions
}

/// A Vulkan version number: variant, major, minor and patch packed into 32 bits.
pub open spec fn api_version(variant: u32, major: u32, minor: u32, patch: u32) -> u32 {
    (variant << 29) | (major << 22) | (minor << 12) | patch
}

/// `ash::vk::make_api_version` packs its four arguments as `VK_MAKE_API_VERSION` does:
/// the variant from bit 29, the major version from bit 22, the minor version from bit
/// 12, the patch in the low bits. Bits that do not fit are dropped or overlap.
pub assume_specification[ ash::vk::make_api_version ](
    variant: u32,
    major: u32,
    minor: u32,
    patch: u32,
) -> (version: u32)
    ensures
        version == api_version(variant, major, minor, patch),
;

/// The version numbers the renderer names: itself and its engine as 0.1.0, and Vulkan
/// 1.0 as the interface it is written to.
pub proof fn lemma_version_numbers()
    ensures
        api_version(0, VERSION_MAJOR, VERSION_MINOR, 0) == 0x1000,
        api_version(0, 0, 1, 0) == 0x1000,
        api_version(0, 1, 0, 0) == 0x40_0000,
{
    assert((0u32 << 29) | (0u32 << 22) | (1u32 << 12) | 0u32 == 0x1000u32) by (bit_vector);
    assert((0u32 << 29) | (1u32 << 22) | (0u32 << 12) | 0u32 == 0x40_0000u32) by (bit_vector);
}

/// The create-info of the instance.
#[derive(Clone, Debug)]
pub struct InstanceRequest {
    pub application_name: String,
    pub application_version: u32,
    pub engine_name: String,
    pub engine_version: u32,
    pub api_version: u32,
    pub enabled_extensions: Extensions<'static, 3>,
    pub enabled_layers: Extensions<'static, 1>,
}

/// `Did not find requested layer(s) or extension(s) <names>`
pub open spec fn missing_capabilities_text(names: Seq<char>) -> Seq<char> {
    "Did not find requested layer(s) or extension(s) "@ + names
}

/// The request [`create_instance`] gives where nothing is missing.
pub open spec fn is_instance_request(request: InstanceRequest) -> bool {
    &&& request.application_name@ == APP_NAME@
    &&& request.application_version == api_version(0, VERSION_MAJOR, VERSION_MINOR, 0)
    &&& request.engine_name@ == "No Engine"@
    &&& request.engine_version == api_version(0, 0, 1, 0)
    &&& request.api_version == api_version(0, 1, 0, 0)
    &&& request.enabled_extensions.names() == seq![
        "VK_KHR_surface"@,
        "VK_EXT_debug_utils"@,
        "VK_KHR_win32_surface"@,
    ]
    &&& request.enabled_layers.names() == seq!["VK_LAYER_KHRONOS_validation"@]
}

/// Every layer and instance extension the renderer needs and the installation lacks:
/// the missing layers, then the missing extensions, each in the order it is asked for.
pub open spec fn missing_capabilities(
    available_layers: Seq<Seq<char>>,
    available_extensions: Seq<Seq<char>>,
) -> Seq<Seq<char>> {
    missing_names(seq!["VK_LAYER_KHRONOS_validation"@], available_layers) + missing_names(
        seq!["VK_KHR_surface"@, "VK_EXT_debug_utils"@, "VK_KHR_win32_surface"@],
        available_extensions,
    )
}

/// The list of missing capabilities leaves nothing out: it holds the validation layer
/// where the installation lacks it, and every needed extension the installation lacks;
/// and it is empty exactly where the layer and all three extensions are there.
pub proof fn lemma_every_missing_capability_is_named(
    available_layers: Seq<Seq<char>>,
    available_extensions: Seq<Seq<char>>,
)
    ensures
        !available_layers.contains("VK_LAYER_KHRONOS_validation"@) ==> missing_capabilities(
            available_layers,
            available_extensions,
        ).contains("VK_LAYER_KHRONOS_validation"@),
        !available_extensions.contains("VK_KHR_surface"@) ==> missing_capabilities(
            available_layers,
            available_extensions,
        ).contains("VK_KHR_surface"@),
        !available_extensions.contains("VK_EXT_debug_utils"@) ==> missing_capabilities(
            available_layers,
            available_extensions,
        ).contains("VK_EXT_debug_utils"@),
        !available_extensions.contains("VK_KHR_win32_surface"@) ==> missing_capabilities(
            available_layers,
            available_extensions,
        ).contains("VK_KHR_win32_surface"@),
        missing_capabilities(available_layers, available_extensions).len() == 0 <==> {
            &&& available_layers.contains("VK_LAYER_KHRONOS_validation"@)
            &&& available_extensions.contains("VK_KHR_surface"@)
            &&& available_extensions.contains("VK_EXT_debug_utils"@)
            &&& available_extensions.contains("VK_KHR_win32_surface"@)
        },
{
    let layers = seq!["VK_LAYER_KHRONOS_validation"@];
    let extensions = seq!["VK_KHR_surface"@, "VK_EXT_debug_utils"@, "VK_KHR_win32_surface"@];
    let missing_layers = missing_names(layers, available_layers);
    let missing_extensions = missing_names(extensions, available_extensions);
    let missing = missing_capabilities(available_layers, available_extensions);
    lemma_missing_names_are_all_the_absent(layers, available_layers);
    lemma_missing_names_are_all_the_absent(extensions, available_extensions);
    assert(layers[0] == "VK_LAYER_KHRONOS_validation"@);
    assert(extensions[0] == "VK_KHR_surface"@);
    assert(extensions[1] == "VK_EXT_debug_utils"@);
    assert(extensions[2] == "VK_KHR_win32_surface"@);
    assert forall|name: Seq<char>| missing_layers.contains(name) implies missing.contains(
        name,
    ) by {
        let k = choose|k: int| 0 <= k < missing_layers.len() && missing_layers[k] == name;
        assert(missing[k] == name);
    }
    assert forall|name: Seq<char>| missing_extensions.contains(name) implies missing.contains(
        name,
    ) by {
        let k = choose|k: int| 0 <= k < missing_extensions.len() && missing_extensions[k] == name;
        assert(missing[missing_layers.len() + k] == name);
    }
}

/// What [`create_instance`] returns.
pub open spec fn instance_outcome(
    layers: Result<Vec<String>, VkAppError>,
    extensions: Result<Vec<String>, VkAppError>,
    result: Result<InstanceRequest, VkAppError>,
) -> bool {
    match layers {
        Err(error) => result == Err::<InstanceRequest, VkAppError>(error),
        Ok(layers) => match extensions {
            Err(error) => result == Err::<InstanceRequest, VkAppError>(error),
            Ok(extensions) => {
                let missing = missing_capabilities(texts_of(layers@), texts_of(extensions@));
                if missing.len() > 0 {
                    result matches Err(VkAppError::InstanceError(text)) && text@
                        == missing_capabilities_text(joined(missing, ", "@))
                } else {
                    result matches Ok(request) && is_instance_request(request)
                }
            },
        },
    }
}

/// Describes the instance to create, given which layers and which instance extensions
/// the Vulkan installation offers (or why that could not be found out).
///
/// Where it could not be found out, the result is the error of the failed enumeration,
/// that of the layers first. Else, where anything the renderer needs is missing, the
/// result is one instance error that names all of it: every missing layer and every
/// missing extension, separated by a comma and a space. The instance is described only
/// where nothing is missing.
pub fn create_instance(
    available_layers: Result<Vec<String>, VkAppError>,
    available_extensions: Result<Vec<String>, VkAppError>,
) -> (result: Result<InstanceRequest, VkAppError>)
    ensures
        instance_outcome(available_layers, available_extensions, result),
{
    let layers = match available_layers {
        Ok(layers) => layers,
        Err(error) => {
            return Err(error);
        },
    };
    let extensions = match available_extensions {
        Ok(extensions) => extensions,
        Err(error) => {
            return Err(error);
        },
    };
    let wanted_layers = validation_layers();
    let wanted_extensions = instance_extensions();
    proof {
        lemma_joined_lists(
            missing_names(wanted_layers.names(), texts_of(layers@)),
            missing_names(wanted_extensions.names(), texts_of(extensions@)),
            ", "@,
        );
    }
    let missing = match wanted_layers.are_in(&layers) {
        Ok(()) => match wanted_extensions.are_in(&extensions) {
            Ok(()) => None,
            Err(names) => Some(names),
        },
        Err(mut names) => {
            if let Err(more) = wanted_extensions.are_in(&extensions) {
                names.append(", ");
                names.append(more.as_str());
            }
            Some(names)
        },
    };
    if let Some(names) = missing {
        let mut text = String::from_str("Did not find requested layer(s) or extension(s) ");
        text.append(names.as_str());
        return Err(VkAppError::InstanceError(text));
    }
    Ok(
        InstanceRequest {
            application_name: String::from_str(APP_NAME),
            application_version: ash::vk::make_api_version(0, VERSION_MAJOR, VERSION_MINOR, 0),
            engine_name: String::from_str("No Engine"),
            engine_version: ash::vk::make_api_version(0, 0, 1, 0),
            api_version: ash::vk::make_api_version(0, 1, 0, 0),
            enabled_extensions: wanted_extensions,
            enabled_layers: wanted_layers,
        },
    )
}

/// Which driver messages the renderer wants to hear.
#[derive(Copy, Clone, Debug, PartialEq, Eq, Structural)]
pub struct DebugMessengerRequest {
    pub message_severity: u32,
    pub message_type: u32,
}

/// Describes the debug messenger: errors, warnings and information, of the general,
/// validation and performance kinds.
pub fn create_debug_messenger() -> (request: DebugMessengerRequest)
    ensures
        request.message_severity == DEBUG_SEVERITY_ERROR | DEBUG_SEVERITY_WARNING
            | DEBUG_SEVERITY_INFO,
        request.message_type == DEBUG_TYPE_GENERAL | DEBUG_TYPE_VALIDATION
            | DEBUG_TYPE_PERFORMANCE,
{
    DebugMessengerRequest {
        message_severity: DEBUG_SEVERITY_ERROR | DEBUG_SEVERITY_WARNING | DEBUG_SEVERITY_INFO,
        message_type: DEBUG_TYPE_GENERAL | DEBUG_TYPE_VALIDATION | DEBUG_TYPE_PERFORMANCE,
    }
}

/// A device that can do everything the renderer needs.
#[derive(Clone, Debug)]
pub struct SupportedPhysicalDevice {
    pub vk_physical_device: u64,
    pub device_name: String,
    pub graphics_family_index: u32,
    pub present_family_index: u32,
    /// Whether the device can filter anisotropically. The renderer asks for that, and
    /// samples the texture that way, only where it can.
    pub sampler_anisotropy: bool,
}


/// The warning about a device called `name` that cannot filter anisotropically.
pub open spec fn anisotropy_warning_text(name: Seq<char>) -> Seq<char> {
    "Device "@ + name + " does not support sampler anisotropy"@
}

impl SupportedPhysicalDevice {
    /// The warning the device is worth although it is used, if any: that it cannot
    /// filter anisotropically.
    pub open spec fn warning_of(&self) -> Option<Seq<char>> {
        if self.sampler_anisotropy {
            None
        } else {
            Some(anisotropy_warning_text(self.device_name@))
        }
    }

    /// Words the warning the device is worth although it is used: one where it cannot
    /// filter anisotropically, none where it can.
    pub fn warning(&self) -> (warning: Option<String>)
        ensures
            match warning {
                Some(text) => self.warning_of() == Some(text@),
                None => self.warning_of() is None,
            },
    {
        if self.sampler_anisotropy {
            None
        } else {
            let mut text = String::from_str("Device ");
            text.append(self.device_name.as_str());
            text.append(" does not support sampler anisotropy");
            Some(text)
        }
    }
}

/// What one queue family of a device can do.
pub struct QueueFamilyReport {
    /// Raw `VkQueueFlags` of the family.
    pub queue_flags: u32,
    /// Whether the family can present to the surface, or why that could not be found out.
    pub present_support: Result<bool, VkAppError>,
}

/// Everything that was found out about one physical device.
pub struct PhysicalDeviceReport {
    pub vk_physical_device: u64,
    /// The name the driver gives, where it is valid UTF-8.
    pub device_name: Option<String>,
    /// Names of the device extensions on offer, or why they could not be listed.
    pub extensions: Result<Vec<String>, VkAppError>,
    /// The queue families, in the driver's order.
    pub queue_families: Vec<QueueFamilyReport>,
    pub surface_formats: Result<Vec<SurfaceFormat>, VkAppError>,
    pub surface_present_modes: Result<Vec<i32>, VkAppError>,
    pub surface_capabilities: Result<SurfaceCapabilities, VkAppError>,
    /// Whether the device can filter anisotropically. Worth a warning where it cannot,
    /// but it does not decide whether the device is used.
    pub sampler_anisotropy: bool,
}

/// Which families were found so far while going through a device's queue families.
#[derive(Copy, Clone, Debug, PartialEq, Eq, Structural)]
pub struct QueueScan {
    pub graphics_family_index: u32,
    pub present_family_index: u32,
    pub graphics_support: bool,
    pub present_support: bool,
}

impl QueueScan {
    /// Nothing found yet.
    pub open spec fn start() -> QueueScan {
        QueueScan {
            graphics_family_index: 0,
            present_family_index: 0,
            graphics_support: false,
            present_support: false,
        }
    }

    /// Both a graphics and a present family are found: the search is over.
    pub open spec fn is_done(&self) -> bool {
        self.graphics_support && self.present_support
    }
}

/// The family can take graphics commands.
pub open spec fn has_graphics(family: QueueFamilyReport) -> bool {
    family.queue_flags & QUEUE_GRAPHICS == QUEUE_GRAPHICS
}

/// The family is known to be able to present.
pub open spec fn can_present(family: QueueFamilyReport) -> bool {
    family.present_support == Ok::<bool, VkAppError>(true)
}

/// The search after looking at the family with the given index: a family that can do
/// graphics becomes the graphics family, one that can present the present family. A
/// failed presentation query ends the search with that error.
pub open spec fn scan_step(scan: QueueScan, index: u32, family: QueueFamilyReport) -> Result<
    QueueScan,
    VkAppError,
> {
    match family.present_support {
        Err(error) => Err(error),
        Ok(presents) => Ok(
            QueueScan {
                graphics_family_index: if has_graphics(family) {
                    index
                } else {
                    scan.graphics_family_index
                },
                graphics_support: scan.graphics_support || has_graphics(family),
                present_family_index: if presents {
                    index
                } else {
                    scan.present_family_index
                },
                present_support: scan.present_support || presents,
            },
        ),
    }
}

/// The search through `families` from the first on, which stops as soon as both a
/// graphics and a present family are found. So each index is that of the last suitable
/// family up to the one that completed the pair.
pub open spec fn scan_queue_families(families: Seq<QueueFamilyReport>) -> Result<
    QueueScan,
    VkAppError,
>
    decreases families.len(),
{
    if families.len() == 0 {
        Ok(QueueScan::start())
    } else {
        match scan_queue_families(families.drop_last()) {
            Err(error) => Err(error),
            Ok(scan) => if scan.is_done() {
                Ok(scan)
            } else {
                scan_step(scan, (families.len() - 1) as u32, families.last())
            },
        }
    }
}

/// Once the search has failed or has found both families, further families change
/// nothing.
pub proof fn lemma_scan_settles(families: Seq<QueueFamilyReport>, n: int)
    requires
        0 <= n <= families.len(),
        match scan_queue_families(families.take(n)) {
            Err(_) => true,
            Ok(scan) => scan.is_done(),
        },
    ensures
        scan_queue_families(families) == scan_queue_families(families.take(n)),
    decreases families.len() - n,
{
    if n == families.len() {
        assert(families.take(n) =~= families);
    } else {
        assert(families.take(n + 1).drop_last() =~= families.take(n));
        lemma_scan_settles(families, n + 1);
    }
}

/// Goes through the queue families of a device in search of one for graphics and one
/// for presenting.
pub fn find_queue_families(families: Vec<QueueFamilyReport>) -> (result: Result<
    QueueScan,
    VkAppError,
>)
    requires
        families@.len() <= u32::MAX,
    ensures
        result == scan_queue_families(families@),
{
    let mut scan = QueueScan {
        graphics_family_index: 0,
        present_family_index: 0,
        graphics_support: false,
        present_support: false,
    };
    let ghost all = families@;
    let mut index: u32 = 0;
    assert(all.take(0) =~= Seq::<QueueFamilyReport>::empty());
    for family in it: families
        invariant
            it.seq() == all,
            all.len() <= u32::MAX,
            index == it.index(),
            scan_queue_families(all.take(it.index() as int)) == Ok::<QueueScan, VkAppError>(
                scan,
            ),
            !scan.is_done(),
    {
        proof {
            assert(all.take(index as int + 1).drop_last() =~= all.take(index as int));
            assert(all.take(index as int + 1).last() == family);
        }
        let QueueFamilyReport { queue_flags, present_support } = family;
        if queue_flags & QUEUE_GRAPHICS == QUEUE_GRAPHICS {
            scan.graphics_family_index = index;
            scan.graphics_support = true;
        }
        match present_support {
            Err(error) => {
                proof {
                    lemma_scan_settles(all, index as int + 1);
                }
                return Err(error);
            },
            Ok(presents) => {
                if presents {
                    scan.present_family_index = index;
                    scan.present_support = true;
                }
            },
        }
        if scan.graphics_support && scan.present_support {
            proof {
                lemma_scan_settles(all, index as int + 1);
            }
            return Ok(scan);
        }
        index += 1;
    }
    assert(all.take(all.len() as int) =~= all);
    Ok(scan)
}

/// Why a device was passed over.
pub enum Rejection {
    /// Its extensions could not be listed.
    ExtensionQueryFailed(VkAppError),
    /// It lacks device extensions the renderer needs; the text names them.
    MissingExtensions(String),
    /// None of its queue families takes graphics commands.
    NoGraphicsQueue,
    /// None of its queue families can present to the surface.
    NoPresentQueue,
    /// What the surface offers on it could not be found out, or is not enough.
    SurfaceUnacceptable(VkAppError),
}

/// A device that was passed over, and why.
pub struct RejectedDevice {
    pub vk_physical_device: u64,
    pub device_name: String,
    pub rejection: Rejection,
}

/// The warning about a device called `name` that was passed over for `rejection`.
pub open spec fn warning_text(name: Seq<char>, rejection: Rejection) -> Seq<char> {
    match rejection {
        Rejection::ExtensionQueryFailed(error) => "Error getting device "@ + name
            + " extension properties: "@ + error.cause_text() + ", skipping"@,
        Rejection::MissingExtensions(names) => "Device "@ + name
            + " does not have required device extension(s): "@ + names@ + ", skipping"@,
        Rejection::NoGraphicsQueue => "Device "@ + name
            + " does not support graphics queue, skipping"@,
        Rejection::NoPresentQueue => "Device "@ + name
            + " does not support present queue, skipping"@,
        Rejection::SurfaceUnacceptable(error) => "Device "@ + name
            + " failed to get acceptable surface capabilities, "@ + error.message_text()
            + ", skipping"@,
    }
}

impl RejectedDevice {
    /// Words the warning that the device is passed over, with the reason.
    pub fn warning(&self) -> (warning: String)
        ensures
            warning@ == warning_text(self.device_name@, self.rejection),
    {
        match &self.rejection {
            Rejection::ExtensionQueryFailed(error) => {
                let mut warning = String::from_str("Error getting device ");
                warning.append(self.device_name.as_str());
                warning.append(" extension properties: ");
                warning.append(error.cause().as_str());
                warning.append(", skipping");
                warning
            },
            Rejection::MissingExtensions(names) => {
                let mut warning = String::from_str("Device ");
                warning.append(self.device_name.as_str());
                warning.append(" does not have required device extension(s): ");
                warning.append(names.as_str());
                warning.append(", skipping");
                warning
            },
            Rejection::NoGraphicsQueue => {
                let mut warning = String::from_str("Device ");
                warning.append(self.device_name.as_str());
                warning.append(" does not support graphics queue, skipping");
                warning
            },
            Rejection::NoPresentQueue => {
                let mut warning = String::from_str("Device ");
                warning.append(self.device_name.as_str());
                warning.append(" does not support present queue, skipping");
                warning
            },
            Rejection::SurfaceUnacceptable(error) => {
                let mut warning = String::from_str("Device ");
                warning.append(self.device_name.as_str());
                warning.append(" failed to get acceptable surface capabilities, ");
                warning.append(error.message().as_str());
                warning.append(", skipping");
                warning
            },
        }
    }
}

/// What the renderer makes of one device.
pub enum DeviceVerdict {
    /// It can be used, with these queue families and this surface support.
    Supported(SupportedPhysicalDevice, SurfaceDetails),
    /// It cannot be used; the search goes on.
    Rejected(RejectedDevice),
    /// Looking at it brought an error that ends the search.
    Failed(VkAppError),
}

impl DeviceVerdict {
    /// The warning the verdict is worth, if any: for a device that is passed over, that
    /// it is and why; for a device that is used, what it cannot do; none for an error,
    /// which is handed on instead.
    pub open spec fn warning_of(&self) -> Option<Seq<char>> {
        match self {
            DeviceVerdict::Supported(device, _) => device.warning_of(),
            DeviceVerdict::Rejected(rejected) => Some(
                warning_text(rejected.device_name@, rejected.rejection),
            ),
            DeviceVerdict::Failed(_) => None,
        }
    }

    /// Words the warning the verdict is worth, if any.
    pub fn warning(&self) -> (warning: Option<String>)
        ensures
            match warning {
                Some(text) => self.warning_of() == Some(text@),
                None => self.warning_of() is None,
            },
    {
        match self {
            DeviceVerdict::Supported(device, _) => device.warning(),
            DeviceVerdict::Rejected(rejected) => Some(rejected.warning()),
            DeviceVerdict::Failed(_) => None,
        }
    }
}

/// The device offers every device extension the renderer needs.
pub open spec fn has_required_extensions(report: PhysicalDeviceReport) -> bool {
    report.extensions matches Ok(extensions) && missing_names(
        seq!["VK_KHR_swapchain"@],
        texts_of(extensions@),
    ).len() == 0
}

/// The surface offers at least one format and one present mode on the device, and
/// its capabilities are known.
pub open spec fn surface_is_usable(report: PhysicalDeviceReport) -> bool {
    &&& report.surface_formats matches Ok(formats) && formats@.len() > 0
    &&& report.surface_present_modes matches Ok(present_modes) && present_modes@.len() > 0
    &&& report.surface_capabilities is Ok
}

/// The device can be used: it has the extensions, a graphics family, a present family,
/// and a usable surface.
pub open spec fn is_supported(report: PhysicalDeviceReport) -> bool {
    &&& has_required_extensions(report)
    &&& scan_queue_families(report.queue_families@) matches Ok(scan) && scan.is_done()
    &&& surface_is_usable(report)
}

/// The error that ends the search at this device, if there is one: a failed
/// presentation query on a device that has the extensions.
pub open spec fn fatal_error(report: PhysicalDeviceReport) -> Option<VkAppError> {
    if has_required_extensions(report) {
        match scan_queue_families(report.queue_families@) {
            Err(error) => Some(error),
            Ok(_) => None,
        }
    } else {
        None
    }
}

/// The device's name, or `Unknown Device` where the driver's name cannot be read.
pub open spec fn name_of(report: PhysicalDeviceReport) -> Seq<char> {
    match report.device_name {
        Some(name) => name@,
        None => "Unknown Device"@,
    }
}

/// `device` and `details` say of a supported device what `report` says.
pub open spec fn describes(
    report: PhysicalDeviceReport,
    device: SupportedPhysicalDevice,
    details: SurfaceDetails,
) -> bool {
    &&& device.vk_physical_device == report.vk_physical_device
    &&& device.device_name@ == name_of(report)
    &&& scan_queue_families(report.queue_families@) matches Ok(scan)
    &&& device.graphics_family_index == scan.graphics_family_index
    &&& device.present_family_index == scan.present_family_index
    &&& device.sampler_anisotropy == report.sampler_anisotropy
    &&& report.surface_formats matches Ok(formats)
    &&& report.surface_present_modes matches Ok(present_modes)
    &&& report.surface_capabilities matches Ok(capabilities)
    &&& details == SurfaceDetails { capabilities, formats, present_modes }
}

/// `rejection` is the first reason, in the order of the checks, for which the device
/// in `report` cannot be used.
pub open spec fn is_rejection_of(report: PhysicalDeviceReport, rejection: Rejection) -> bool {
    match report.extensions {
        Err(error) => rejection == Rejection::ExtensionQueryFailed(error),
        Ok(extensions) => {
            let missing = missing_names(seq!["VK_KHR_swapchain"@], texts_of(extensions@));
            if missing.len() > 0 {
                rejection matches Rejection::MissingExtensions(names) && names@ == joined(
                    missing,
                    ", "@,
                )
            } else {
                match scan_queue_families(report.queue_families@) {
                    Err(_) => false,
                    Ok(scan) => if !scan.graphics_support {
                        rejection == Rejection::NoGraphicsQueue
                    } else if !scan.present_support {
                        rejection == Rejection::NoPresentQueue
                    } else {
                        rejection matches Rejection::SurfaceUnacceptable(error)
                            && surface_details_outcome(
                            report.surface_formats,
                            report.surface_present_modes,
                            report.surface_capabilities,
                            Err(error),
                        )
                    },
                }
            }
        },
    }
}

/// `rejected` names the device in `report` and says for which reason it cannot be used.
pub open spec fn is_rejected_as(report: PhysicalDeviceReport, rejected: RejectedDevice) -> bool {
    &&& rejected.vk_physical_device == report.vk_physical_device
    &&& rejected.device_name@ == name_of(report)
    &&& is_rejection_of(report, rejected.rejection)
}

/// `verdict` is what the renderer makes of the device in `report`: that it can be used,
/// with its description; or that it cannot, with the first reason for that; or the
/// error that ends the search.
pub open spec fn is_verdict_of(report: PhysicalDeviceReport, verdict: DeviceVerdict) -> bool {
    match verdict {
        DeviceVerdict::Supported(device, details) => is_supported(report) && describes(
            report,
            device,
            details,
        ),
        DeviceVerdict::Rejected(rejected) => !is_supported(report) && fatal_error(report)
            is None && is_rejected_as(report, rejected),
        DeviceVerdict::Failed(error) => fatal_error(report) == Some(error),
    }
}

/// Decides whether the device in `report` can be used.
///
/// The checks go in this order: the device extensions, a queue family for graphics,
/// one for presenting, then the surface's formats and present modes. Whether the device
/// filters anisotropically does not decide; it is only passed on.
pub fn assess_device(report: PhysicalDeviceReport) -> (verdict: DeviceVerdict)
    requires
        report.queue_families@.len() <= u32::MAX,
    ensures
        is_verdict_of(report, verdict),
{
    let PhysicalDeviceReport {
        vk_physical_device,
        device_name,
        extensions,
        queue_families,
        surface_formats,
        surface_present_modes,
        surface_capabilities,
        sampler_anisotropy,
    } = report;
    let device_name = match device_name {
        Some(name) => name,
        None => String::from_str("Unknown Device"),
    };
    let extensions = match extensions {
        Ok(extensions) => extensions,
        Err(error) => {
            return DeviceVerdict::Rejected(
                RejectedDevice {
                    vk_physical_device,
                    device_name,
                    rejection: Rejection::ExtensionQueryFailed(error),
                },
            );
        },
    };
    if let Err(names) = device_extensions().are_in(&extensions) {
        return DeviceVerdict::Rejected(
            RejectedDevice {
                vk_physical_device,
                device_name,
                rejection: Rejection::MissingExtensions(names),
            },
        );
    }
    let scan = match find_queue_families(queue_families) {
        Ok(scan) => scan,
        Err(error) => {
            return DeviceVerdict::Failed(error);
        },
    };
    if !scan.graphics_support {
        return DeviceVerdict::Rejected(
            RejectedDevice {
                vk_physical_device,
                device_name,
                rejection: Rejection::NoGraphicsQueue,
            },
        );
    }
    if !scan.present_support {
        return DeviceVerdict::Rejected(
            RejectedDevice {
                vk_physical_device,
                device_name,
                rejection: Rejection::NoPresentQueue,
            },
        );
    }
    match get_surface_details(surface_formats, surface_present_modes, surface_capabilities) {
        Err(error) => DeviceVerdict::Rejected(
            RejectedDevice {
                vk_physical_device,
                device_name,
                rejection: Rejection::SurfaceUnacceptable(error),
            },
        ),
        Ok(details) => DeviceVerdict::Supported(
            SupportedPhysicalDevice {
                vk_physical_device,
                device_name,
                graphics_family_index: scan.graphics_family_index,
                present_family_index: scan.present_family_index,
                sampler_anisotropy,
            },
            details,
        ),
    }
}

/// Holds of the reports of devices that can be used.
pub open spec fn supported() -> spec_fn(PhysicalDeviceReport) -> bool {
    |report: PhysicalDeviceReport| is_supported(report)
}

/// The reports of the devices that can be used, in the order they came in.
pub open spec fn supported_reports(reports: Seq<PhysicalDeviceReport>) -> Seq<
    PhysicalDeviceReport,
> {
    reports.filter(supported())
}

/// `devices` describes, one for one and in order, the devices of `reports`.
pub open spec fn describe_all(
    reports: Seq<PhysicalDeviceReport>,
    devices: Seq<(SupportedPhysicalDevice, SurfaceDetails)>,
) -> bool {
    &&& devices.len() == reports.len()
    &&& forall|k: int|
        0 <= k < reports.len() ==> describes(#[trigger] reports[k], devices[k].0, devices[k].1)
}

/// `verdicts` are the verdicts on the devices of `reports`, in order, up to the first
/// one that ends the search, or on all of them where none does.
pub open spec fn are_verdicts_of(
    reports: Seq<PhysicalDeviceReport>,
    verdicts: Seq<DeviceVerdict>,
) -> bool {
    &&& verdicts.len() <= reports.len()
    &&& forall|i: int|
        0 <= i < verdicts.len() ==> is_verdict_of(reports[i], #[trigger] verdicts[i])
    &&& forall|i: int| 0 <= i < verdicts.len() - 1 ==> !((#[trigger] verdicts[i]) is Failed)
    &&& verdicts.len() < reports.len() ==> verdicts.len() > 0 && verdicts.last() is Failed
}

/// Goes through the devices in order and gives the verdict on each, until all are
/// looked at or one ends the search.
///
/// A failed presentation query ends the search with its error, unless the device it was
/// made on lacks a device extension. Every other shortcoming only drops the device.
pub fn survey_physical_devices(reports: Vec<PhysicalDeviceReport>) -> (verdicts: Vec<
    DeviceVerdict,
>)
    requires
        forall|i: int|
            0 <= i < reports@.len() ==> (#[trigger] reports@[i]).queue_families@.len()
                <= u32::MAX,
    ensures
        are_verdicts_of(reports@, verdicts@),
{
    let mut verdicts: Vec<DeviceVerdict> = Vec::new();
    let ghost all = reports@;
    for report in it: reports
        invariant
            it.seq() == all,
            forall|i: int|
                0 <= i < all.len() ==> (#[trigger] all[i]).queue_families@.len() <= u32::MAX,
            verdicts@.len() == it.index(),
            forall|i: int|
                0 <= i < verdicts@.len() ==> is_verdict_of(all[i], #[trigger] verdicts@[i]),
            forall|i: int| 0 <= i < verdicts@.len() ==> !((#[trigger] verdicts@[i]) is Failed),
    {
        let verdict = assess_device(report);
        let ended = match &verdict {
            DeviceVerdict::Failed(_) => true,
            _ => false,
        };
        verdicts.push(verdict);
        if ended {
            return verdicts;
        }
    }
    verdicts
}

/// The error of the first verdict that ends the search, if there is one.
pub open spec fn first_failure(verdicts: Seq<DeviceVerdict>) -> Option<VkAppError>
    decreases verdicts.len(),
{
    if verdicts.len() == 0 {
        None
    } else {
        match first_failure(verdicts.drop_last()) {
            Some(error) => Some(error),
            None => match verdicts.last() {
                DeviceVerdict::Failed(error) => Some(error),
                _ => None,
            },
        }
    }
}

/// The devices that `verdicts` take for usable, in order, each with what the surface
/// supports on it.
pub open spec fn supported_in(verdicts: Seq<DeviceVerdict>) -> Seq<
    (SupportedPhysicalDevice, SurfaceDetails),
>
    decreases verdicts.len(),
{
    if verdicts.len() == 0 {
        Seq::empty()
    } else {
        match verdicts.last() {
            DeviceVerdict::Supported(device, details) => supported_in(verdicts.drop_last()).push(
                (device, details),
            ),
            _ => supported_in(verdicts.drop_last()),
        }
    }
}

/// Once a verdict has ended the search, later verdicts change nothing.
proof fn lemma_failure_settles(verdicts: Seq<DeviceVerdict>, n: int)
    requires
        0 <= n <= verdicts.len(),
        first_failure(verdicts.take(n)) is Some,
    ensures
        first_failure(verdicts) == first_failure(verdicts.take(n)),
    decreases verdicts.len() - n,
{
    if n == verdicts.len() {
        assert(verdicts.take(n) =~= verdicts);
    } else {
        assert(verdicts.take(n + 1).drop_last() =~= verdicts.take(n));
        lemma_failure_settles(verdicts, n + 1);
    }
}

/// Draws from the verdicts what the search comes to: the error of the first verdict
/// that ends it, or else the devices that can be used, in order.
pub fn supported_devices(verdicts: Vec<DeviceVerdict>) -> (result: Result<
    Vec<(SupportedPhysicalDevice, SurfaceDetails)>,
    VkAppError,
>)
    ensures
        match first_failure(verdicts@) {
            Some(error) => result == Err::<
                Vec<(SupportedPhysicalDevice, SurfaceDetails)>,
                VkAppError,
            >(error),
            None => result matches Ok(devices) && devices@ == supported_in(verdicts@),
        },
{
    let mut devices: Vec<(SupportedPhysicalDevice, SurfaceDetails)> = Vec::new();
    let ghost all = verdicts@;
    assert(all.take(0) =~= Seq::<DeviceVerdict>::empty());
    for verdict in it: verdicts
        invariant
            it.seq() == all,
            first_failure(all.take(it.index() as int)) is None,
            devices@ == supported_in(all.take(it.index() as int)),
    {
        proof {
            let after = all.take(it.index() as int + 1);
            assert(after.drop_last() =~= all.take(it.index() as int));
            assert(after.last() == verdict);
        }
        match verdict {
            DeviceVerdict::Supported(device, details) => {
                devices.push((device, details));
            },
            DeviceVerdict::Rejected(_) => {},
            DeviceVerdict::Failed(error) => {
                proof {
                    lemma_failure_settles(all, it.index() as int + 1);
                }
                return Err(error);
            },
        }
    }
    assert(all.take(all.len() as int) =~= all);
    Ok(devices)
}

/// Among verdicts none of which ends the search there is no failure, and the devices
/// they take for usable are, one for one and in order, the devices that can be used.
proof fn lemma_verdicts_describe_the_supported(
    reports: Seq<PhysicalDeviceReport>,
    verdicts: Seq<DeviceVerdict>,
)
    requires
        verdicts.len() == reports.len(),
        forall|i: int|
            0 <= i < verdicts.len() ==> is_verdict_of(reports[i], #[trigger] verdicts[i]),
        forall|i: int| 0 <= i < verdicts.len() ==> !((#[trigger] verdicts[i]) is Failed),
    ensures
        first_failure(verdicts) is None,
        describe_all(supported_reports(reports), supported_in(verdicts)),
        forall|i: int| 0 <= i < reports.len() ==> fatal_error(#[trigger] reports[i]) is None,
    decreases verdicts.len(),
{
    reveal(Seq::filter);
    if verdicts.len() > 0 {
        let last = verdicts.len() - 1;
        assert(verdicts.last() == verdicts[last]);
        assert(reports.last() == reports[last]);
        assert(is_verdict_of(reports[last], verdicts[last]));
        lemma_verdicts_describe_the_supported(reports.drop_last(), verdicts.drop_last());
        assert forall|i: int| 0 <= i < reports.len() implies fatal_error(
            #[trigger] reports[i],
        ) is None by {
            if i < last {
                assert(reports.drop_last()[i] == reports[i]);
            }
        }
    }
}

/// Goes through the devices in order and keeps those that can be used, each with what
/// the surface supports on it.
///
/// A failed presentation query ends the search with its error, unless the device it was
/// made on lacks a device extension. Every other shortcoming only drops the device.
pub fn get_physical_devices(reports: Vec<PhysicalDeviceReport>) -> (result: Result<
    Vec<(SupportedPhysicalDevice, SurfaceDetails)>,
    VkAppError,
>)
    requires
        forall|i: int|
            0 <= i < reports@.len() ==> (#[trigger] reports@[i]).queue_families@.len()
                <= u32::MAX,
    ensures
        match result {
            Ok(devices) => {
                &&& forall|i: int|
                    0 <= i < reports@.len() ==> fatal_error(#[trigger] reports@[i]) is None
                &&& describe_all(supported_reports(reports@), devices@)
            },
            Err(error) => exists|i: int|
                {
                    &&& 0 <= i < reports@.len()
                    &&& fatal_error(#[trigger] reports@[i]) == Some(error)
                    &&& forall|j: int| 0 <= j < i ==> fatal_error(#[trigger] reports@[j]) is None
                },
        },
{
    let verdicts = survey_physical_devices(reports);
    proof {
        lemma_search_outcome(reports@, verdicts@);
    }
    supported_devices(verdicts)
}

/// What the verdicts of a search come to, said of the devices themselves: where a
/// verdict ends the search, its error is that of the first device with such an error;
/// where none does, no device has such an error and the devices taken for usable are
/// exactly those that can be used.
pub proof fn lemma_search_outcome(
    reports: Seq<PhysicalDeviceReport>,
    verdicts: Seq<DeviceVerdict>,
)
    requires
        are_verdicts_of(reports, verdicts),
    ensures
        match first_failure(verdicts) {
            Some(error) => {
                &&& verdicts.len() > 0
                &&& fatal_error(reports[verdicts.len() - 1]) == Some(error)
                &&& forall|j: int|
                    0 <= j < verdicts.len() - 1 ==> fatal_error(#[trigger] reports[j]) is None
            },
            None => {
                &&& verdicts.len() == reports.len()
                &&& forall|i: int|
                    0 <= i < reports.len() ==> fatal_error(#[trigger] reports[i]) is None
                &&& describe_all(supported_reports(reports), supported_in(verdicts))
            },
        },
{
    if verdicts.len() == 0 {
        lemma_verdicts_describe_the_supported(reports, verdicts);
    } else {
        let last = verdicts.len() - 1;
        let earlier = verdicts.drop_last();
        assert forall|i: int| 0 <= i < earlier.len() implies is_verdict_of(
            reports.take(last)[i],
            #[trigger] earlier[i],
        ) by {
            assert(earlier[i] == verdicts[i]);
        }
        assert forall|i: int| 0 <= i < earlier.len() implies !((
        #[trigger] earlier[i]) is Failed) by {
            assert(earlier[i] == verdicts[i]);
        }
        lemma_verdicts_describe_the_supported(reports.take(last), earlier);
        assert(verdicts.last() == verdicts[last]);
        assert(is_verdict_of(reports[last], verdicts[last]));
        assert forall|j: int| 0 <= j < last implies fatal_error(#[trigger] reports[j]) is None by {
            assert(reports.take(last)[j] == reports[j]);
        }
        if !(verdicts[last] is Failed) {
            assert(reports.take(verdicts.len() as int) =~= reports);
            lemma_verdicts_describe_the_supported(reports, verdicts);
        }
    }
}

/// Text of the error for a machine without a usable device.
pub open spec fn no_supported_devices_text() -> Seq<char> {
    "No supported devices"@
}

/// Picks the device to render on: the first of those that can be used.
pub fn select_physical_device(devices: Vec<(SupportedPhysicalDevice, SurfaceDetails)>) -> (result:
    Result<(SupportedPhysicalDevice, SurfaceDetails), VkAppError>)
    ensures
        devices@.len() > 0 ==> result == Ok::<
            (SupportedPhysicalDevice, SurfaceDetails),
            VkAppError,
        >(devices@[0]),
        devices@.len() == 0 ==> (result matches Err(VkAppError::DeviceError(text)) && text@
            == no_supported_devices_text()),
{
    let mut devices = devices;
    if devices.len() > 0 {
        Ok(devices.remove(0))
    } else {
        Err(VkAppError::DeviceError(String::from_str("No supported devices")))
    }
}


/// The families the search settles on are what it took them for: the graphics family
/// takes graphics commands and the present family can present.
pub proof fn lemma_scan_is_sound(families: Seq<QueueFamilyReport>)
    requires
        families.len() <= u32::MAX,
    ensures
        scan_queue_families(families) matches Ok(scan) ==> {
            &&& scan.graphics_support ==> scan.graphics_family_index < families.len()
                && has_graphics(families[scan.graphics_family_index as int])
            &&& scan.present_support ==> scan.present_family_index < families.len()
                && can_present(families[scan.present_family_index as int])
        },
    decreases families.len(),
{
    if families.len() > 0 {
        lemma_scan_is_sound(families.drop_last());
    }
}

/// How many families the search looked at: all of them, or those up to the one that
/// completed the pair.
pub open spec fn families_scanned(scan: QueueScan, families: Seq<QueueFamilyReport>) -> int {
    if scan.is_done() {
        if scan.graphics_family_index >= scan.present_family_index {
            scan.graphics_family_index + 1
        } else {
            scan.present_family_index + 1
        }
    } else {
        families.len() as int
    }
}

/// What the search settles on, said outright: it looks at the families in order up to
/// the first with which both a graphics and a present family have been seen, and takes
/// for each purpose the last suitable family among those it looked at.
pub proof fn lemma_scan_takes_the_last_family_seen(families: Seq<QueueFamilyReport>)
    requires
        families.len() <= u32::MAX,
    ensures
        scan_queue_families(families) matches Ok(scan) ==> {
            let seen = families_scanned(scan, families);
            &&& 0 <= seen <= families.len()
            &&& scan.graphics_support ==> {
                &&& scan.graphics_family_index < seen
                &&& has_graphics(families[scan.graphics_family_index as int])
                &&& forall|j: int|
                    scan.graphics_family_index < j < seen ==> !has_graphics(
                        #[trigger] families[j],
                    )
            }
            &&& !scan.graphics_support ==> forall|j: int|
                0 <= j < seen ==> !has_graphics(#[trigger] families[j])
            &&& scan.present_support ==> {
                &&& scan.present_family_index < seen
                &&& can_present(families[scan.present_family_index as int])
                &&& forall|j: int|
                    scan.present_family_index < j < seen ==> !can_present(#[trigger] families[j])
            }
            &&& !scan.present_support ==> forall|j: int|
                0 <= j < seen ==> !can_present(#[trigger] families[j])
            &&& scan.is_done() ==> {
                ||| forall|j: int| 0 <= j < seen - 1 ==> !has_graphics(#[trigger] families[j])
                ||| forall|j: int| 0 <= j < seen - 1 ==> !can_present(#[trigger] families[j])
            }
        },
    decreases families.len(),
{
    if families.len() > 0 {
        let rest = families.drop_last();
        lemma_scan_takes_the_last_family_seen(rest);
        match scan_queue_families(rest) {
            Err(_) => {},
            Ok(earlier) => {
                assert forall|j: int| 0 <= j < rest.len() implies rest[j] == families[j] by {}
                if !earlier.is_done() {
                    assert(families.last() == families[families.len() - 1]);
                }
            },
        }
    }
}

/// Where every presentation query succeeded, the search finds a graphics family exactly
/// where there is one, and a present family exactly where there is one.
pub proof fn lemma_scan_is_complete(families: Seq<QueueFamilyReport>)
    requires
        families.len() <= u32::MAX,
        forall|i: int| 0 <= i < families.len() ==> (#[trigger] families[i]).present_support is Ok,
    ensures
        scan_queue_families(families) matches Ok(scan) && {
            &&& scan.graphics_support <==> exists|i: int|
                0 <= i < families.len() && has_graphics(#[trigger] families[i])
            &&& scan.present_support <==> exists|i: int|
                0 <= i < families.len() && can_present(#[trigger] families[i])
        },
    decreases families.len(),
{
    if families.len() > 0 {
        let rest = families.drop_last();
        let last = families.len() - 1;
        lemma_scan_is_complete(rest);
        lemma_scan_is_sound(families);
        let scan = scan_queue_families(families)->Ok_0;
        let earlier = scan_queue_families(rest)->Ok_0;
        assert(families[last] == families.last());
        if exists|i: int| 0 <= i < families.len() && has_graphics(#[trigger] families[i]) {
            let i = choose|i: int| 0 <= i < families.len() && has_graphics(#[trigger] families[i]);
            if i < last {
                assert(has_graphics(rest[i]));
            }
            assert(scan.graphics_support);
        }
        if exists|i: int| 0 <= i < families.len() && can_present(#[trigger] families[i]) {
            let i = choose|i: int| 0 <= i < families.len() && can_present(#[trigger] families[i]);
            if i < last {
                assert(can_present(rest[i]));
            }
            assert(scan.present_support);
        }
    }
}

/// A device is never taken for usable if it has no queue family for graphics, none that
/// can present, no surface format or no present mode.
pub proof fn lemma_deficient_device_is_not_supported(report: PhysicalDeviceReport)
    requires
        report.queue_families@.len() <= u32::MAX,
        ({
            ||| forall|i: int|
                0 <= i < report.queue_families@.len() ==> !has_graphics(
                    #[trigger] report.queue_families@[i],
                )
            ||| forall|i: int|
                0 <= i < report.queue_families@.len() ==> !can_present(
                    #[trigger] report.queue_families@[i],
                )
            ||| report.surface_formats matches Ok(formats) && formats@.len() == 0
            ||| report.surface_present_modes matches Ok(present_modes) && present_modes@.len()
                == 0
        }),
    ensures
        !is_supported(report),
{
    lemma_scan_is_sound(report.queue_families@);
}

/// Where every presentation query on a device succeeded, the device is taken for usable
/// exactly if it has the extensions, a queue family for graphics, one that can present,
/// and a surface with at least one format and one present mode.
pub proof fn lemma_supported_iff_checks_pass(report: PhysicalDeviceReport)
    requires
        report.queue_families@.len() <= u32::MAX,
        forall|i: int|
            0 <= i < report.queue_families@.len() ==> (
            #[trigger] report.queue_families@[i]).present_support is Ok,
    ensures
        is_supported(report) <==> {
            &&& has_required_extensions(report)
            &&& exists|i: int|
                0 <= i < report.queue_families@.len() && has_graphics(
                    #[trigger] report.queue_families@[i],
                )
            &&& exists|i: int|
                0 <= i < report.queue_families@.len() && can_present(
                    #[trigger] report.queue_families@[i],
                )
            &&& surface_is_usable(report)
        },
{
    lemma_scan_is_complete(report.queue_families@);
}

/// Whether a device can filter anisotropically does not decide whether it is used: a
/// device that cannot is taken or passed over, or ends the search, exactly as if it
/// could.
pub proof fn lemma_anisotropy_decides_nothing(
    report: PhysicalDeviceReport,
    sampler_anisotropy: bool,
)
    ensures
        is_supported(PhysicalDeviceReport { sampler_anisotropy, ..report }) == is_supported(report),
        fatal_error(PhysicalDeviceReport { sampler_anisotropy, ..report }) == fatal_error(report),
        forall|rejected: RejectedDevice|
            is_rejected_as(PhysicalDeviceReport { sampler_anisotropy, ..report }, rejected)
                == is_rejected_as(report, rejected),
{
}

/// The first device that can be used heads the list of supported devices, so it is the
/// one that is picked.
pub proof fn lemma_first_supported_device_leads(reports: Seq<PhysicalDeviceReport>, first: int)
    requires
        0 <= first < reports.len(),
        is_supported(reports[first]),
        forall|j: int| 0 <= j < first ==> !is_supported(#[trigger] reports[j]),
    ensures
        supported_reports(reports).len() > 0,
        supported_reports(reports)[0] == reports[first],
    decreases reports.len(),
{
    reveal(Seq::filter);
    let rest = reports.drop_last();
    if first < reports.len() - 1 {
        lemma_first_supported_device_leads(rest, first);
    } else {
        lemma_nothing_supported(rest);
    }
}

/// Where no device can be used, the list of supported devices is empty.
pub proof fn lemma_nothing_supported(reports: Seq<PhysicalDeviceReport>)
    requires
        forall|j: int| 0 <= j < reports.len() ==> !is_supported(#[trigger] reports[j]),
    ensures
        supported_reports(reports).len() == 0,
    decreases reports.len(),
{
    reveal(Seq::filter);
    if reports.len() > 0 {
        lemma_nothing_supported(reports.drop_last());
    }
}


/// The queues to create in one family.
#[derive(Copy, Clone, Debug, PartialEq, Eq, Structural)]
pub struct QueueRequest {
    pub queue_family_index: u32,
    pub queue_count: u32,
    /// Priority of each queue, as a whole number: 1 is the highest there is.
    pub queue_priority: u32,
}

/// The elements of `indices` without repetitions, each where it first occurs.
pub open spec fn distinct(indices: Seq<u32>) -> Seq<u32>
    decreases indices.len(),
{
    if indices.len() == 0 {
        Seq::empty()
    } else if distinct(indices.drop_last()).contains(indices.last()) {
        distinct(indices.drop_last())
    } else {
        distinct(indices.drop_last()).push(indices.last())
    }
}

/// One queue of the highest priority in each of `families`.
pub open spec fn one_queue_each(families: Seq<u32>) -> Seq<QueueRequest> {
    Seq::new(
        families.len(),
        |i: int|
            QueueRequest { queue_family_index: families[i], queue_count: 1, queue_priority: 1 },
    )
}

/// `distinct` keeps every value once: nothing repeats in it, and it holds exactly the
/// values of the sequence it was made from.
pub proof fn lemma_distinct_keeps_each_once(indices: Seq<u32>)
    ensures
        distinct(indices).no_duplicates(),
        forall|value: u32| distinct(indices).contains(value) <==> indices.contains(value),
    decreases indices.len(),
{
    if indices.len() > 0 {
        let rest = indices.drop_last();
        let last = indices.last();
        lemma_distinct_keeps_each_once(rest);
        assert forall|value: u32| distinct(indices).contains(value) <==> indices.contains(
            value,
        ) by {
            if indices.contains(value) {
                let i = choose|i: int| 0 <= i < indices.len() && indices[i] == value;
                if i < indices.len() - 1 {
                    assert(rest[i] == value);
                    assert(rest.contains(value));
                    assert(distinct(rest).contains(value));
                    let k = choose|k: int|
                        0 <= k < distinct(rest).len() && distinct(rest)[k] == value;
                    assert(distinct(indices)[k] == value);
                } else if !distinct(rest).contains(last) {
                    assert(distinct(indices)[distinct(rest).len() as int] == value);
                }
            }
            if distinct(indices).contains(value) {
                let k = choose|k: int|
                    0 <= k < distinct(indices).len() && distinct(indices)[k] == value;
                if k < distinct(rest).len() {
                    assert(distinct(rest)[k] == value);
                    assert(distinct(rest).contains(value));
                    assert(rest.contains(value));
                    let i = choose|i: int| 0 <= i < rest.len() && rest[i] == value;
                    assert(indices[i] == value);
                } else {
                    assert(indices[indices.len() - 1] == value);
                }
            }
        }
    }
}

fn holds_index(indices: &Vec<u32>, wanted: u32) -> (found: bool)
    ensures
        found == indices@.contains(wanted),
{
    let mut i: usize = 0;
    while i < indices.len()
        invariant
            i <= indices.len(),
            forall|j: int| 0 <= j < i ==> indices@[j] != wanted,
        decreases indices.len() - i,
    {
        if indices[i] == wanted {
            return true;
        }
        i += 1;
    }
    false
}

/// Asks for one queue in each family named in `queue_family_indices`. A family that is
/// named more than once still gets one queue.
pub fn get_queue_create_infos(queue_family_indices: Vec<u32>) -> (requests: Vec<QueueRequest>)
    ensures
        requests@ == one_queue_each(distinct(queue_family_indices@)),
{
    let mut families: Vec<u32> = Vec::new();
    let mut requests: Vec<QueueRequest> = Vec::new();
    let mut i: usize = 0;
    assert(queue_family_indices@.take(0) =~= Seq::<u32>::empty());
    while i < queue_family_indices.len()
        invariant
            i <= queue_family_indices.len(),
            families@ == distinct(queue_family_indices@.take(i as int)),
            requests@ == one_queue_each(families@),
        decreases queue_family_indices.len() - i,
    {
        let index = queue_family_indices[i];
        proof {
            let after = queue_family_indices@.take(i as int + 1);
            assert(after.drop_last() =~= queue_family_indices@.take(i as int));
            assert(after.last() == index);
        }
        if !holds_index(&families, index) {
            families.push(index);
            requests.push(
                QueueRequest { queue_family_index: index, queue_count: 1, queue_priority: 1 },
            );
            assert(requests@ =~= one_queue_each(families@));
        }
        i += 1;
    }
    assert(queue_family_indices@.take(queue_family_indices.len() as int) =~= queue_family_indices@);
    requests
}

/// The create-info of the logical device.
#[derive(Clone, Debug)]
pub struct DeviceRequest {
    pub queues: Vec<QueueRequest>,
    /// Whether anisotropic filtering is switched on.
    pub sampler_anisotropy: bool,
    pub enabled_extensions: Extensions<'static, 1>,
}

/// The families the logical device gets a queue in: the graphics family and, where it
/// is another one, the present family.
pub open spec fn queue_families_of(device: SupportedPhysicalDevice) -> Seq<u32> {
    if device.graphics_family_index == device.present_family_index {
        seq![device.graphics_family_index]
    } else {
        seq![device.graphics_family_index, device.present_family_index]
    }
}

/// Describes the logical device on `physical_device`: one queue in the graphics family,
/// one in the present family unless it is the same, anisotropic filtering switched on
/// where the device can do it, and the swapchain extension enabled.
pub fn create_logical_device(physical_device: &SupportedPhysicalDevice) -> (request: DeviceRequest)
    ensures
        request.queues@ == one_queue_each(queue_families_of(*physical_device)),
        request.sampler_anisotropy == physical_device.sampler_anisotropy,
        request.enabled_extensions.names() == seq!["VK_KHR_swapchain"@],
{
    let mut indices: Vec<u32> = Vec::new();
    indices.push(physical_device.graphics_family_index);
    indices.push(physical_device.present_family_index);
    proof {
        let both = indices@;
        assert(both.drop_last() =~= seq![physical_device.graphics_family_index]);
        assert(both.drop_last().drop_last() =~= Seq::<u32>::empty());
        assert(distinct(both.drop_last().drop_last()) =~= Seq::<u32>::empty());
        assert(distinct(both.drop_last()) =~= seq![physical_device.graphics_family_index]);
        assert(distinct(both) =~= queue_families_of(*physical_device));
    }
    DeviceRequest {
        queues: get_queue_create_infos(indices),
        sampler_anisotropy: physical_device.sampler_anisotropy,
        enabled_extensions: device_extensions(),
    }
}

} // verus!
