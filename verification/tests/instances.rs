use bethlehem::backend::vulkan::instance::{
    VulkanInstance, API_VERSION_1_3, MESH_SHADER_EXTENSION, VALIDATION_LAYER,
};
use bethlehem::text::nul_position;
use bethlehem::{BackendType, Error, Instance, InstanceDesc, WindowHandle};

fn desc(engine: &str, application: &str, debug: bool, extensions: Option<&[&str]>) -> InstanceDesc {
    InstanceDesc {
        backend_type: BackendType::Vulkan,
        debug,
        engine_name: engine.to_string(),
        application_name: application.to_string(),
        window_handle: extensions
            .map(|list| WindowHandle::Sdl(list.iter().map(|e| e.to_string()).collect())),
    }
}

#[test]
fn api_version_is_one_point_three() {
    assert_eq!(API_VERSION_1_3, (1 << 22) | (3 << 12));
    assert_eq!(VALIDATION_LAYER, "VK_LAYER_KHRONOS_validation");
    assert_eq!(MESH_SHADER_EXTENSION, "VK_EXT_mesh_shader");
}

#[test]
fn instance_takes_its_names_and_extensions_from_the_description() {
    let instance = VulkanInstance::new(&desc(
        "Test Engine",
        "Test App",
        false,
        Some(&["VK_KHR_surface", "VK_KHR_xcb_surface"]),
    ))
    .unwrap();
    assert_eq!(instance.api_version, 4206592);
    assert_eq!(instance.engine_name, "Test Engine");
    assert_eq!(instance.application_name, "Test App");
    assert!(instance.enabled_layer_names.is_empty());
    assert_eq!(instance.enabled_extension_names, vec!["VK_KHR_surface", "VK_KHR_xcb_surface"]);
}

#[test]
fn debug_instance_enables_the_validation_layer() {
    let instance = VulkanInstance::new(&desc("e", "a", true, None)).unwrap();
    assert_eq!(instance.enabled_layer_names, vec!["VK_LAYER_KHRONOS_validation"]);
    assert!(instance.enabled_extension_names.is_empty());
}

#[test]
fn nul_in_the_engine_name_is_refused() {
    let result = VulkanInstance::new(&desc("Te\0st", "\0", true, Some(&["\0"])));
    assert!(matches!(result, Err(Error::NulError(2))));
}

#[test]
fn nul_in_the_application_name_is_refused() {
    let result = VulkanInstance::new(&desc("Test", "App\0", false, Some(&["\0"])));
    assert!(matches!(result, Err(Error::NulError(3))));
}

#[test]
fn nul_in_an_extension_name_is_refused() {
    let result =
        VulkanInstance::new(&desc("Test", "App", false, Some(&["VK_KHR_surface", "VK\0", "\0"])));
    assert!(matches!(result, Err(Error::NulError(2))));
}

#[test]
fn metal_instance_takes_any_description() {
    let description = InstanceDesc {
        backend_type: BackendType::Metal,
        debug: true,
        engine_name: "a\0b".to_string(),
        application_name: "\0".to_string(),
        window_handle: None,
    };
    let instance = Instance::new(&description).unwrap();
    assert!(matches!(instance, Instance::Metal(_)));
    assert_eq!(instance.backend(), BackendType::Metal);
}

#[test]
fn vulkan_instance_is_made_through_the_dispatch() {
    let instance = Instance::new(&desc("Engine", "App", true, Some(&["VK_KHR_surface"]))).unwrap();
    assert_eq!(instance.backend(), BackendType::Vulkan);
    match instance {
        Instance::Vulkan(vulkan) => {
            assert_eq!(vulkan.engine_name, "Engine");
            assert_eq!(vulkan.enabled_layer_names, vec!["VK_LAYER_KHRONOS_validation"]);
            assert_eq!(vulkan.enabled_extension_names, vec!["VK_KHR_surface"]);
        }
        Instance::Metal(_) => panic!("a Vulkan instance was asked for"),
    }
    let refused = Instance::new(&desc("Engine\0", "App", true, None));
    assert!(matches!(refused, Err(Error::NulError(6))));
}

#[test]
fn first_nul_character_is_found() {
    assert_eq!(nul_position(""), None);
    assert_eq!(nul_position("ms_main"), None);
    assert_eq!(nul_position("\0"), Some(0));
    assert_eq!(nul_position("ab\0cd\0"), Some(2));
    assert_eq!(nul_position("name\0"), Some(4));
}

#[test]
fn position_of_a_nul_counts_characters() {
    assert_eq!(nul_position("\u{e9}\u{4e16}\0"), Some(2));
}
