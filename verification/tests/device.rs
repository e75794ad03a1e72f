use vulkan_quad::graphics::constants::ERROR_OUT_OF_DATE_KHR;
use vulkan_quad::graphics::device::{
    assess_device, create_debug_messenger, create_instance, create_logical_device,
    device_extensions, find_queue_families, get_physical_devices, get_queue_create_infos,
    instance_extensions, select_physical_device, supported_devices, survey_physical_devices,
    validation_layers, DeviceError, DeviceVerdict, PhysicalDeviceReport, QueueFamilyReport,
    QueueRequest, RejectedDevice, Rejection, SupportedPhysicalDevice,
};
use vulkan_quad::graphics::errors::VkAppError;
use vulkan_quad::graphics::presentation::{
    Extent2D, SurfaceCapabilities, SurfaceDetails, SurfaceFormat,
};

fn names(list: &[&str]) -> Vec<String> {
    list.iter().map(|name| String::from(*name)).collect()
}

fn capabilities() -> SurfaceCapabilities {
    SurfaceCapabilities {
        min_image_count: 2,
        max_image_count: 8,
        current_extent: Extent2D { width: 640, height: 480 },
        min_image_extent: Extent2D { width: 1, height: 1 },
        max_image_extent: Extent2D { width: 4096, height: 4096 },
        current_transform: 1,
    }
}

fn family(queue_flags: u32, presents: bool) -> QueueFamilyReport {
    QueueFamilyReport { queue_flags, present_support: Ok(presents) }
}

fn report(handle: u64, families: Vec<QueueFamilyReport>) -> PhysicalDeviceReport {
    PhysicalDeviceReport {
        vk_physical_device: handle,
        device_name: Some(format!("GPU {}", handle)),
        extensions: Ok(names(&["VK_KHR_swapchain", "VK_KHR_maintenance1"])),
        queue_families: families,
        surface_formats: Ok(vec![SurfaceFormat { format: 50, color_space: 0 }]),
        surface_present_modes: Ok(vec![2]),
        surface_capabilities: Ok(capabilities()),
        sampler_anisotropy: true,
    }
}

fn supported(verdict: DeviceVerdict) -> (SupportedPhysicalDevice, SurfaceDetails) {
    match verdict {
        DeviceVerdict::Supported(device, details) => (device, details),
        _ => panic!("the device was not supported"),
    }
}

fn rejection(verdict: DeviceVerdict) -> Rejection {
    match verdict {
        DeviceVerdict::Rejected(rejected) => rejected.rejection,
        _ => panic!("the device was not rejected"),
    }
}

#[test]
fn device_error_message() {
    let error = DeviceError::new(String::from("GPU 0"), String::from("too old"));
    assert_eq!(error.message(), "Device Error for device GPU 0: too old");
}

#[test]
fn required_names() {
    assert_eq!(validation_layers().0, ["VK_LAYER_KHRONOS_validation"]);
    assert_eq!(
        instance_extensions().0,
        ["VK_KHR_surface", "VK_EXT_debug_utils", "VK_KHR_win32_surface"]
    );
    assert_eq!(device_extensions().0, ["VK_KHR_swapchain"]);
}

#[test]
fn required_names_are_those_of_the_driver_crate() {
    assert_eq!(instance_extensions().0[0], ash::khr::surface::NAME.to_str().unwrap());
    assert_eq!(instance_extensions().0[1], ash::ext::debug_utils::NAME.to_str().unwrap());
    assert_eq!(instance_extensions().0[2], ash::khr::win32_surface::NAME.to_str().unwrap());
    assert_eq!(device_extensions().0[0], ash::khr::swapchain::NAME.to_str().unwrap());
}

#[test]
fn instance_is_described_when_nothing_is_missing() {
    let request = create_instance(
        Ok(names(&["VK_LAYER_KHRONOS_validation"])),
        Ok(names(&["VK_KHR_win32_surface", "VK_KHR_surface", "VK_EXT_debug_utils", "other"])),
    )
    .unwrap();
    assert_eq!(request.application_name, "Vulkan Project Rust");
    assert_eq!(request.application_version, 1 << 12);
    assert_eq!(request.engine_name, "No Engine");
    assert_eq!(request.engine_version, 1 << 12);
    assert_eq!(request.api_version, 1 << 22);
    assert_eq!(request.api_version, ash::vk::API_VERSION_1_0);
    assert_eq!(request.enabled_layers.0, ["VK_LAYER_KHRONOS_validation"]);
    assert_eq!(
        request.enabled_extensions.0,
        ["VK_KHR_surface", "VK_EXT_debug_utils", "VK_KHR_win32_surface"]
    );
}

fn instance_error(layers: &[&str], extensions: &[&str]) -> String {
    match create_instance(Ok(names(layers)), Ok(names(extensions))) {
        Err(VkAppError::InstanceError(text)) => text,
        _ => panic!("expected an instance error"),
    }
}

#[test]
fn missing_layer_is_an_instance_error() {
    assert_eq!(
        instance_error(
            &["VK_LAYER_other"],
            &["VK_KHR_surface", "VK_EXT_debug_utils", "VK_KHR_win32_surface"]
        ),
        "Did not find requested layer(s) or extension(s) VK_LAYER_KHRONOS_validation"
    );
}

#[test]
fn missing_extensions_are_all_named() {
    assert_eq!(
        instance_error(&["VK_LAYER_KHRONOS_validation"], &["VK_EXT_debug_utils"]),
        "Did not find requested layer(s) or extension(s) VK_KHR_surface, VK_KHR_win32_surface"
    );
}

#[test]
fn missing_layers_and_extensions_are_named_together() {
    assert_eq!(
        instance_error(&["VK_LAYER_other"], &["VK_KHR_surface", "VK_EXT_debug_utils"]),
        "Did not find requested layer(s) or extension(s) \
         VK_LAYER_KHRONOS_validation, VK_KHR_win32_surface"
    );
    assert_eq!(
        instance_error(&[], &[]),
        "Did not find requested layer(s) or extension(s) \
         VK_LAYER_KHRONOS_validation, VK_KHR_surface, VK_EXT_debug_utils, VK_KHR_win32_surface"
    );
}

#[test]
fn every_absent_capability_is_in_the_message() {
    let wanted_layers = ["VK_LAYER_KHRONOS_validation"];
    let wanted_extensions = ["VK_KHR_surface", "VK_EXT_debug_utils", "VK_KHR_win32_surface"];
    for mask in 0u32..16 {
        let layers: Vec<&str> =
            wanted_layers.iter().copied().filter(|_| mask & 1 != 0).collect();
        let extensions: Vec<&str> = wanted_extensions
            .iter()
            .copied()
            .enumerate()
            .filter(|(i, _)| mask & (2 << i) != 0)
            .map(|(_, name)| name)
            .collect();
        let outcome = create_instance(Ok(names(&layers)), Ok(names(&extensions)));
        if mask == 15 {
            assert!(outcome.is_ok());
            continue;
        }
        let text = match outcome {
            Err(VkAppError::InstanceError(text)) => text,
            _ => panic!("expected an instance error"),
        };
        let listed: Vec<&str> = text
            .strip_prefix("Did not find requested layer(s) or extension(s) ")
            .unwrap()
            .split(", ")
            .collect();
        let absent: Vec<&str> = wanted_layers
            .iter()
            .chain(wanted_extensions.iter())
            .copied()
            .filter(|name| !layers.contains(name) && !extensions.contains(name))
            .collect();
        assert_eq!(listed, absent);
    }
}

#[test]
fn a_failed_enumeration_hands_on_its_error() {
    match create_instance(Err(VkAppError::VkError(-3)), Ok(Vec::new())) {
        Err(VkAppError::VkError(code)) => assert_eq!(code, -3),
        _ => panic!("expected the driver error"),
    }
    match create_instance(Err(VkAppError::VkError(-3)), Err(VkAppError::VkError(-1))) {
        Err(VkAppError::VkError(code)) => assert_eq!(code, -3),
        _ => panic!("expected the driver error"),
    }
    match create_instance(Ok(names(&["VK_LAYER_KHRONOS_validation"])), Err(VkAppError::VkError(-1))) {
        Err(VkAppError::VkError(code)) => assert_eq!(code, -1),
        _ => panic!("expected the driver error"),
    }
    match create_instance(Ok(Vec::new()), Err(VkAppError::VkError(-1))) {
        Err(VkAppError::VkError(code)) => assert_eq!(code, -1),
        _ => panic!("expected the driver error"),
    }
}

#[test]
fn debug_messenger_hears_errors_warnings_and_information() {
    let request = create_debug_messenger();
    assert_eq!(request.message_severity, 0x1110);
    assert_eq!(request.message_type, 0x7);
}

#[test]
fn scan_of_no_families_finds_nothing() {
    let scan = find_queue_families(Vec::new()).unwrap();
    assert!(!scan.graphics_support);
    assert!(!scan.present_support);
}

#[test]
fn scan_stops_at_the_family_that_completes_the_pair() {
    let scan = find_queue_families(vec![
        family(1, false),
        family(0, false),
        family(1, true),
        family(1, true),
    ])
    .unwrap();
    assert!(scan.graphics_support && scan.present_support);
    assert_eq!(scan.graphics_family_index, 2);
    assert_eq!(scan.present_family_index, 2);
}

#[test]
fn scan_keeps_the_last_suitable_family_up_to_the_stop() {
    let scan = find_queue_families(vec![
        family(0, true),
        family(0, true),
        family(3, false),
        family(1, true),
    ])
    .unwrap();
    assert_eq!(scan.present_family_index, 1);
    assert_eq!(scan.graphics_family_index, 2);
}

#[test]
fn scan_fails_on_a_failed_query_it_reaches() {
    let families = vec![
        family(0, false),
        QueueFamilyReport { queue_flags: 1, present_support: Err(VkAppError::VkError(-4)) },
        family(1, true),
    ];
    match find_queue_families(families) {
        Err(VkAppError::VkError(code)) => assert_eq!(code, -4),
        _ => panic!("expected the driver error"),
    }
}

#[test]
fn scan_ignores_a_failed_query_after_the_stop() {
    let families = vec![
        family(1, true),
        QueueFamilyReport { queue_flags: 1, present_support: Err(VkAppError::VkError(-4)) },
    ];
    let scan = find_queue_families(families).unwrap();
    assert_eq!(scan.graphics_family_index, 0);
    assert_eq!(scan.present_family_index, 0);
}

#[test]
fn graphics_bit_is_what_counts() {
    let scan = find_queue_families(vec![family(0xfffffffe, true)]).unwrap();
    assert!(!scan.graphics_support);
    assert!(scan.present_support);
    let scan = find_queue_families(vec![family(0x0000000f, false)]).unwrap();
    assert!(scan.graphics_support);
    assert_eq!(ash::vk::QueueFlags::GRAPHICS.as_raw(), 1);
}

#[test]
fn a_capable_device_is_supported() {
    let (device, details) = supported(assess_device(report(7, vec![family(1, true)])));
    assert_eq!(device.vk_physical_device, 7);
    assert_eq!(device.device_name, "GPU 7");
    assert_eq!(device.graphics_family_index, 0);
    assert_eq!(device.present_family_index, 0);
    assert_eq!(details.capabilities, capabilities());
    assert_eq!(details.formats, vec![SurfaceFormat { format: 50, color_space: 0 }]);
    assert_eq!(details.present_modes, vec![2]);
}

#[test]
fn an_unreadable_name_becomes_unknown_device() {
    let mut unnamed = report(1, vec![family(1, true)]);
    unnamed.device_name = None;
    let (device, _) = supported(assess_device(unnamed));
    assert_eq!(device.device_name, "Unknown Device");
}

#[test]
fn a_device_without_graphics_is_rejected() {
    match rejection(assess_device(report(1, vec![family(2, true), family(4, true)]))) {
        Rejection::NoGraphicsQueue => {}
        _ => panic!("wrong reason"),
    }
}

#[test]
fn a_device_without_presentation_is_rejected() {
    match rejection(assess_device(report(1, vec![family(1, false)]))) {
        Rejection::NoPresentQueue => {}
        _ => panic!("wrong reason"),
    }
}

#[test]
fn a_device_without_families_is_rejected_for_graphics() {
    match rejection(assess_device(report(1, Vec::new()))) {
        Rejection::NoGraphicsQueue => {}
        _ => panic!("wrong reason"),
    }
}

#[test]
fn a_device_without_the_swapchain_extension_is_rejected() {
    let mut bare = report(1, vec![family(1, true)]);
    bare.extensions = Ok(names(&["VK_KHR_maintenance1"]));
    match rejection(assess_device(bare)) {
        Rejection::MissingExtensions(list) => assert_eq!(list, "VK_KHR_swapchain"),
        _ => panic!("wrong reason"),
    }
}

#[test]
fn a_device_whose_extensions_cannot_be_listed_is_rejected() {
    let mut broken = report(1, vec![family(1, true)]);
    broken.extensions = Err(VkAppError::VkError(-1));
    match rejection(assess_device(broken)) {
        Rejection::ExtensionQueryFailed(VkAppError::VkError(code)) => assert_eq!(code, -1),
        _ => panic!("wrong reason"),
    }
}

#[test]
fn a_device_without_formats_is_rejected() {
    let mut blind = report(1, vec![family(1, true)]);
    blind.surface_formats = Ok(Vec::new());
    match rejection(assess_device(blind)) {
        Rejection::SurfaceUnacceptable(VkAppError::DeviceError(text)) => {
            assert_eq!(text, "Device does not have any supported surface formats")
        }
        _ => panic!("wrong reason"),
    }
}

#[test]
fn a_device_without_present_modes_is_rejected() {
    let mut mute = report(1, vec![family(1, true)]);
    mute.surface_present_modes = Ok(Vec::new());
    match rejection(assess_device(mute)) {
        Rejection::SurfaceUnacceptable(VkAppError::DeviceError(text)) => {
            assert_eq!(text, "Device does not have any supported surface present modes")
        }
        _ => panic!("wrong reason"),
    }
}

#[test]
fn a_failed_surface_query_only_rejects_the_device() {
    let mut shy = report(1, vec![family(1, true)]);
    shy.surface_capabilities = Err(VkAppError::VkError(-2));
    match rejection(assess_device(shy)) {
        Rejection::SurfaceUnacceptable(VkAppError::VkError(code)) => assert_eq!(code, -2),
        _ => panic!("wrong reason"),
    }
}

#[test]
fn a_failed_presentation_query_ends_the_search() {
    let mut faulty = report(1, Vec::new());
    faulty.queue_families =
        vec![QueueFamilyReport { queue_flags: 1, present_support: Err(VkAppError::VkError(-4)) }];
    match assess_device(faulty) {
        DeviceVerdict::Failed(VkAppError::VkError(code)) => assert_eq!(code, -4),
        _ => panic!("expected a failure"),
    }
}

#[test]
fn a_failed_presentation_query_on_a_device_without_the_extension_is_never_made() {
    let mut faulty = report(1, Vec::new());
    faulty.extensions = Ok(Vec::new());
    faulty.queue_families =
        vec![QueueFamilyReport { queue_flags: 1, present_support: Err(VkAppError::VkError(-4)) }];
    match rejection(assess_device(faulty)) {
        Rejection::MissingExtensions(list) => assert_eq!(list, "VK_KHR_swapchain"),
        _ => panic!("wrong reason"),
    }
}

#[test]
fn missing_anisotropy_does_not_reject() {
    let mut plain = report(3, vec![family(1, true)]);
    plain.sampler_anisotropy = false;
    let (device, _) = supported(assess_device(plain));
    assert_eq!(device.vk_physical_device, 3);
    assert!(!device.sampler_anisotropy);
    assert!(!create_logical_device(&device).sampler_anisotropy);
    let (able, _) = supported(assess_device(report(3, vec![family(1, true)])));
    assert!(able.sampler_anisotropy);
}

#[test]
fn only_supported_devices_are_kept_in_order() {
    let mut no_formats = report(4, vec![family(1, true)]);
    no_formats.surface_formats = Ok(Vec::new());
    let devices = get_physical_devices(vec![
        report(1, vec![family(2, true)]),
        report(2, vec![family(1, false), family(0, true)]),
        report(3, vec![family(1, false)]),
        no_formats,
        report(5, vec![family(1, true)]),
    ])
    .unwrap();
    assert_eq!(devices.len(), 2);
    assert_eq!(devices[0].0.vk_physical_device, 2);
    assert_eq!(devices[0].0.graphics_family_index, 0);
    assert_eq!(devices[0].0.present_family_index, 1);
    assert_eq!(devices[1].0.vk_physical_device, 5);
}

#[test]
fn the_first_supported_device_is_selected() {
    let devices = get_physical_devices(vec![
        report(1, vec![family(0, true)]),
        report(2, vec![family(1, true)]),
        report(3, vec![family(1, true)]),
    ])
    .unwrap();
    let (device, details) = select_physical_device(devices).unwrap();
    assert_eq!(device.vk_physical_device, 2);
    assert_eq!(details.present_modes, vec![2]);
}

#[test]
fn no_supported_device_is_a_device_error() {
    let devices = get_physical_devices(vec![report(1, vec![family(0, true)])]).unwrap();
    assert!(devices.is_empty());
    match select_physical_device(devices) {
        Err(VkAppError::DeviceError(text)) => assert_eq!(text, "No supported devices"),
        _ => panic!("expected a device error"),
    }
    match select_physical_device(Vec::new()) {
        Err(VkAppError::DeviceError(text)) => assert_eq!(text, "No supported devices"),
        _ => panic!("expected a device error"),
    }
}

#[test]
fn a_failure_ends_the_search_even_after_supported_devices() {
    let mut faulty = report(2, Vec::new());
    faulty.queue_families = vec![QueueFamilyReport {
        queue_flags: 1,
        present_support: Err(VkAppError::VkError(ERROR_OUT_OF_DATE_KHR)),
    }];
    match get_physical_devices(vec![report(1, vec![family(1, true)]), faulty, report(3, vec![family(1, true)])]) {
        Err(VkAppError::VkError(code)) => assert_eq!(code, ERROR_OUT_OF_DATE_KHR),
        _ => panic!("expected the driver error"),
    }
}

#[test]
fn each_family_gets_one_queue() {
    assert_eq!(
        get_queue_create_infos(vec![3, 1, 3, 3, 0, 1]),
        vec![
            QueueRequest { queue_family_index: 3, queue_count: 1, queue_priority: 1 },
            QueueRequest { queue_family_index: 1, queue_count: 1, queue_priority: 1 },
            QueueRequest { queue_family_index: 0, queue_count: 1, queue_priority: 1 },
        ]
    );
    assert_eq!(get_queue_create_infos(Vec::new()), Vec::new());
}

fn device(graphics: u32, present: u32) -> SupportedPhysicalDevice {
    SupportedPhysicalDevice {
        vk_physical_device: 9,
        device_name: String::from("GPU"),
        graphics_family_index: graphics,
        present_family_index: present,
        sampler_anisotropy: true,
    }
}

#[test]
fn logical_device_shares_a_queue_when_the_families_coincide() {
    let request = create_logical_device(&device(2, 2));
    assert_eq!(request.queues, vec![QueueRequest { queue_family_index: 2, queue_count: 1, queue_priority: 1 }]);
    assert!(request.sampler_anisotropy);
    assert_eq!(request.enabled_extensions.0, ["VK_KHR_swapchain"]);
}

#[test]
fn logical_device_has_a_queue_per_distinct_family() {
    let request = create_logical_device(&device(0, 1));
    assert_eq!(
        request.queues,
        vec![
            QueueRequest { queue_family_index: 0, queue_count: 1, queue_priority: 1 },
            QueueRequest { queue_family_index: 1, queue_count: 1, queue_priority: 1 },
        ]
    );
}

fn rejected(verdict: &DeviceVerdict) -> &RejectedDevice {
    match verdict {
        DeviceVerdict::Rejected(rejected) => rejected,
        _ => panic!("the device was not rejected"),
    }
}

#[test]
fn the_survey_gives_a_verdict_on_every_device_in_order() {
    let mut no_formats = report(4, vec![family(1, true)]);
    no_formats.surface_formats = Ok(Vec::new());
    let mut unnamed = report(6, vec![family(1, false)]);
    unnamed.device_name = None;
    let verdicts = survey_physical_devices(vec![
        report(1, vec![family(2, true)]),
        report(2, vec![family(1, true)]),
        no_formats,
        report(5, vec![family(1, true)]),
        unnamed,
    ]);
    assert_eq!(verdicts.len(), 5);
    assert_eq!(rejected(&verdicts[0]).vk_physical_device, 1);
    assert_eq!(rejected(&verdicts[0]).device_name, "GPU 1");
    assert!(matches!(rejected(&verdicts[0]).rejection, Rejection::NoGraphicsQueue));
    assert!(matches!(&verdicts[1], DeviceVerdict::Supported(device, _) if device.vk_physical_device == 2));
    assert_eq!(rejected(&verdicts[2]).vk_physical_device, 4);
    assert!(matches!(rejected(&verdicts[2]).rejection, Rejection::SurfaceUnacceptable(_)));
    assert!(matches!(&verdicts[3], DeviceVerdict::Supported(device, _) if device.vk_physical_device == 5));
    assert_eq!(rejected(&verdicts[4]).vk_physical_device, 6);
    assert_eq!(rejected(&verdicts[4]).device_name, "Unknown Device");
    assert!(matches!(rejected(&verdicts[4]).rejection, Rejection::NoPresentQueue));
    let devices = supported_devices(verdicts).unwrap();
    assert_eq!(devices.len(), 2);
    assert_eq!(devices[0].0.vk_physical_device, 2);
    assert_eq!(devices[1].0.vk_physical_device, 5);
}

#[test]
fn the_survey_stops_at_the_verdict_that_ends_the_search() {
    let mut faulty = report(3, Vec::new());
    faulty.queue_families =
        vec![QueueFamilyReport { queue_flags: 1, present_support: Err(VkAppError::VkError(-4)) }];
    let verdicts = survey_physical_devices(vec![
        report(1, vec![family(1, false)]),
        report(2, vec![family(1, true)]),
        faulty,
        report(4, vec![family(1, true)]),
    ]);
    assert_eq!(verdicts.len(), 3);
    assert!(matches!(verdicts[2], DeviceVerdict::Failed(VkAppError::VkError(-4))));
    let warnings: Vec<Option<String>> = verdicts.iter().map(|verdict| verdict.warning()).collect();
    assert_eq!(
        warnings,
        vec![Some(String::from("Device GPU 1 does not support present queue, skipping")), None, None]
    );
    match supported_devices(verdicts) {
        Err(VkAppError::VkError(code)) => assert_eq!(code, -4),
        _ => panic!("expected the driver error"),
    }
}

#[test]
fn verdicts_without_a_failure_give_their_supported_devices() {
    assert_eq!(supported_devices(Vec::new()).unwrap().len(), 0);
    let verdicts = vec![
        assess_device(report(1, vec![family(1, true)])),
        assess_device(report(2, vec![family(0, true)])),
        assess_device(report(3, vec![family(1, true)])),
    ];
    let devices = supported_devices(verdicts).unwrap();
    assert_eq!(devices.len(), 2);
    assert_eq!(devices[0].0.vk_physical_device, 1);
    assert_eq!(devices[1].0.vk_physical_device, 3);
}

#[test]
fn the_first_failure_among_verdicts_counts() {
    let verdicts = vec![
        assess_device(report(1, vec![family(1, true)])),
        DeviceVerdict::Failed(VkAppError::VkError(-1)),
        assess_device(report(3, vec![family(1, true)])),
        DeviceVerdict::Failed(VkAppError::VkError(-2)),
    ];
    match supported_devices(verdicts) {
        Err(VkAppError::VkError(code)) => assert_eq!(code, -1),
        _ => panic!("expected the driver error"),
    }
}

#[test]
fn warnings_about_devices_come_in_the_order_of_the_devices() {
    let mut no_extensions = report(1, vec![family(1, true)]);
    no_extensions.extensions = Ok(Vec::new());
    let mut broken = report(2, vec![family(1, true)]);
    broken.extensions = Err(VkAppError::VkError(-1));
    let mut no_modes = report(5, vec![family(1, true)]);
    no_modes.surface_present_modes = Ok(Vec::new());
    let mut shy = report(6, vec![family(1, true)]);
    shy.surface_formats = Err(VkAppError::VkError(-2));
    let mut plain = report(7, vec![family(1, true)]);
    plain.sampler_anisotropy = false;
    let verdicts = survey_physical_devices(vec![
        no_extensions,
        broken,
        report(3, vec![family(0, true)]),
        plain,
        report(4, vec![family(1, false)]),
        report(8, vec![family(1, true)]),
        no_modes,
        shy,
    ]);
    let warnings: Vec<String> = verdicts.iter().filter_map(|verdict| verdict.warning()).collect();
    assert_eq!(
        warnings,
        vec![
            "Device GPU 1 does not have required device extension(s): VK_KHR_swapchain, skipping",
            "Error getting device GPU 2 extension properties: A host memory allocation has failed, skipping",
            "Device GPU 3 does not support graphics queue, skipping",
            "Device GPU 7 does not support sampler anisotropy",
            "Device GPU 4 does not support present queue, skipping",
            "Device GPU 5 failed to get acceptable surface capabilities, Device does not have any supported surface present modes, skipping",
            "Device GPU 6 failed to get acceptable surface capabilities, Code -2: A device memory allocation has failed, skipping",
        ]
    );
}

#[test]
fn a_device_is_warned_about_only_where_it_cannot_filter_anisotropically() {
    let mut plain = device(0, 0);
    assert_eq!(plain.warning(), None);
    plain.sampler_anisotropy = false;
    assert_eq!(plain.warning(), Some(String::from("Device GPU does not support sampler anisotropy")));
    let mut unable_and_unfit = report(9, vec![family(0, true)]);
    unable_and_unfit.sampler_anisotropy = false;
    assert_eq!(
        assess_device(unable_and_unfit).warning(),
        Some(String::from("Device GPU 9 does not support graphics queue, skipping"))
    );
}
