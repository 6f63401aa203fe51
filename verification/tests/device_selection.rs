use rail::device::{
    contains_all_names, contains_name, GraphicDevice, PhysicalDeviceInfo, QueueFamily,
    QueueFamilyIndices,
};
use rail::error::{ErrorKind, RenderError};
use rail::renderer::{checked_size_of_array, size_of_array, Renderer};
use rail::validation::{
    check_validation_layer_support, create_instance, populate_debug_messenger_create_info,
    severity_label, type_label, validation, InstanceInfo, API_VERSION_1_0,
};

fn family(queue_count: u32, queue_flags: u32, present_support: bool) -> QueueFamily {
    QueueFamily { queue_count, queue_flags, present_support }
}

fn device(families: Vec<QueueFamily>, extensions: &[&str], formats: usize, modes: usize, anisotropy: bool) -> PhysicalDeviceInfo {
    PhysicalDeviceInfo {
        queue_families: families,
        extension_names: extensions.iter().map(|name| name.to_string()).collect(),
        surface_format_count: formats,
        present_mode_count: modes,
        sampler_anisotropy: anisotropy,
    }
}

#[test]
fn new_indices_are_incomplete() {
    let indices = QueueFamilyIndices::new();
    assert_eq!(indices.graphics_family, None);
    assert_eq!(indices.present_family, None);
    assert!(!indices.is_complete());
    let half = QueueFamilyIndices { graphics_family: Some(0), present_family: None };
    assert!(!half.is_complete());
    let full = QueueFamilyIndices { graphics_family: Some(0), present_family: Some(2) };
    assert!(full.is_complete());
}

#[test]
fn queue_family_search_stops_when_complete() {
    let families = vec![
        family(1, 0x2, false),
        family(4, 0x1 | 0x2, false),
        family(2, 0x1, true),
        family(1, 0x1, true),
    ];
    let indices = GraphicDevice::find_queue_family(&families);
    assert_eq!(indices.graphics_family, Some(2));
    assert_eq!(indices.present_family, Some(2));
}

#[test]
fn queue_family_search_ignores_empty_families() {
    let families = vec![family(0, 0x1, true), family(1, 0x4, true), family(1, 0x1, false)];
    let indices = GraphicDevice::find_queue_family(&families);
    assert_eq!(indices.graphics_family, Some(2));
    assert_eq!(indices.present_family, Some(1));
    let none = GraphicDevice::find_queue_family(&vec![family(1, 0x2, false)]);
    assert_eq!(none.graphics_family, None);
    assert_eq!(none.present_family, None);
}

#[test]
fn first_suitable_device_is_picked() {
    let good = vec![family(1, 0x1, true)];
    let devices = vec![
        device(good.clone(), &["VK_KHR_other"], 2, 2, true),
        device(good.clone(), &["VK_KHR_swapchain"], 0, 2, true),
        device(good.clone(), &["VK_KHR_swapchain"], 2, 2, false),
        device(vec![family(1, 0x1, false)], &["VK_KHR_swapchain"], 2, 2, true),
        device(good.clone(), &["VK_EXT_a", "VK_KHR_swapchain"], 1, 1, true),
        device(good.clone(), &["VK_KHR_swapchain"], 1, 1, true),
    ];
    assert_eq!(GraphicDevice::pick_physical_device(&devices), Some(4));
    let chosen = GraphicDevice::new(&devices).unwrap();
    assert_eq!(chosen.physical, 4);
    assert_eq!(chosen.family_indices, QueueFamilyIndices { graphics_family: Some(0), present_family: Some(0) });
    assert!(!GraphicDevice::is_physical_device_suitable(&devices[0]));
    assert!(GraphicDevice::is_physical_device_suitable(&devices[5]));
}

#[test]
fn no_suitable_device_is_fatal() {
    let devices = vec![device(vec![], &["VK_KHR_swapchain"], 1, 1, true)];
    let error = GraphicDevice::new(&devices).err().unwrap();
    assert_eq!(error, RenderError::NoSuitableDevice);
    assert_eq!(error.kind(), ErrorKind::Fatal);
    assert_eq!(RenderError::ImageIndexOutOfRange.kind(), ErrorKind::InvariantViolation);
    assert_eq!(RenderError::ResourceCountMismatch.kind(), ErrorKind::InvariantViolation);
    assert_eq!(RenderError::UnexpectedEvent.kind(), ErrorKind::InvariantViolation);
    assert_eq!(RenderError::NoSurfaceFormat.kind(), ErrorKind::Fatal);
    assert_eq!(RenderError::AcquireFailed.kind(), ErrorKind::Fatal);
    assert_eq!(RenderError::PresentFailed.kind(), ErrorKind::Fatal);
    assert_eq!(RenderError::MissingValidationLayer.kind(), ErrorKind::Fatal);
}

#[test]
fn extension_support_needs_the_swapchain_extension() {
    let with: Vec<String> = vec!["VK_KHR_maintenance1".into(), "VK_KHR_swapchain".into()];
    let without: Vec<String> = vec!["VK_KHR_maintenance1".into(), "VK_KHR_swapchain2".into()];
    assert!(GraphicDevice::check_device_extension_support(&with));
    assert!(!GraphicDevice::check_device_extension_support(&without));
    assert!(!GraphicDevice::check_device_extension_support(&vec![]));
    assert!(contains_name(&with, &"VK_KHR_maintenance1".to_string()));
    assert!(contains_all_names(&with, &vec!["VK_KHR_swapchain".to_string(), "VK_KHR_maintenance1".to_string()]));
    assert!(!contains_all_names(&with, &vec!["VK_KHR_swapchain".to_string(), "x".to_string()]));
    assert!(contains_all_names(&without, &vec![]));
}

#[test]
fn unique_queue_families_have_no_duplicate() {
    let same = QueueFamilyIndices { graphics_family: Some(3), present_family: Some(3) };
    let different = QueueFamilyIndices { graphics_family: Some(0), present_family: Some(2) };
    let missing = QueueFamilyIndices { graphics_family: Some(0), present_family: None };
    assert_eq!(GraphicDevice::unique_queue_families(&same), Ok(vec![3]));
    assert_eq!(GraphicDevice::unique_queue_families(&different), Ok(vec![0, 2]));
    assert_eq!(GraphicDevice::unique_queue_families(&missing), Err(RenderError::MissingQueueFamily));
}

#[test]
fn validation_layer_is_looked_up_by_name() {
    let info = validation();
    assert!(info.is_enable);
    assert_eq!(info.required_validation_layers, ["VK_LAYER_KHRONOS_validation"]);
    assert!(!check_validation_layer_support(&vec![]));
    assert!(!check_validation_layer_support(&vec!["VK_LAYER_other".to_string()]));
    assert!(check_validation_layer_support(&vec!["VK_LAYER_other".to_string(), "VK_LAYER_KHRONOS_validation".to_string()]));
    assert_eq!(populate_debug_messenger_create_info(), (0x1100, 0x7));
}

#[test]
fn instance_needs_the_validation_layer() {
    assert_eq!(API_VERSION_1_0, ash::vk::API_VERSION_1_0);
    assert_eq!(create_instance(&vec![]), Err(RenderError::MissingValidationLayer));
    assert_eq!(create_instance(&vec!["VK_LAYER_other".to_string()]), Err(RenderError::MissingValidationLayer));
    assert_eq!(
        create_instance(&vec!["VK_LAYER_KHRONOS_validation".to_string()]),
        Ok(InstanceInfo {
            application_version: 0x2000_0000,
            engine_version: 0x2000_0000,
            api_version: 0x0040_0000,
            enable_validation: true,
        })
    );
}

#[test]
fn debug_messages_are_tagged() {
    assert_eq!(severity_label(0x1), "[Verbose]");
    assert_eq!(severity_label(0x10), "[Info]");
    assert_eq!(severity_label(0x100), "[Warning]");
    assert_eq!(severity_label(0x1000), "[Error]");
    assert_eq!(severity_label(0x1100), "[Unknown]");
    assert_eq!(type_label(0x1), "[General]");
    assert_eq!(type_label(0x2), "[Validation]");
    assert_eq!(type_label(0x4), "[Performance]");
    assert_eq!(type_label(0x3), "[Unknown]");
}

#[test]
fn sample_count_is_the_highest_bit_of_the_smaller_mask() {
    assert_eq!(Renderer::get_max_usable_sample_count(0x7f, 0x7f), 0x40);
    assert_eq!(Renderer::get_max_usable_sample_count(0x0f, 0x7f), 0x08);
    assert_eq!(Renderer::get_max_usable_sample_count(0x7f, 0x07), 0x04);
    assert_eq!(Renderer::get_max_usable_sample_count(0x03, 0x03), 0x02);
    assert_eq!(Renderer::get_max_usable_sample_count(0x01, 0x7f), 0x01);
    assert_eq!(Renderer::get_max_usable_sample_count(0x00, 0x7f), 0x01);
    assert_eq!(Renderer::get_max_usable_sample_count(0x10, 0x0f), 0x08);
    assert_eq!(Renderer::get_max_usable_sample_count(5, 3), 0x02);
    assert_eq!(Renderer::get_max_usable_sample_count(3, 5), 0x02);
    assert_eq!(Renderer::get_max_usable_sample_count(0x06, 0x7f), 0x04);
}

#[test]
fn array_size_is_element_size_times_length() {
    let matrices = [[0u32; 16]; 2];
    assert_eq!(size_of_array(&matrices), 128);
    assert_eq!(size_of_array::<u64>(&[]), 0);
    assert_eq!(size_of_array(&[1u8, 2, 3]), 3);
    assert_eq!(checked_size_of_array(&[1u16, 2, 3]), Some(6));
    assert_eq!(checked_size_of_array::<()>(&[(), ()]), Some(0));
}
