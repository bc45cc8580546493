use bethlehem::backend::metal::device::MetalDevice;
use bethlehem::backend::metal::physical_device::{MetalAdapter, MetalPhysicalDevice};
use bethlehem::backend::vulkan::device::VulkanDevice;
use bethlehem::backend::vulkan::instance::VulkanInstance;
use bethlehem::backend::vulkan::physical_device::{
    VulkanPhysicalDevice, VulkanPhysicalDeviceProperties,
};
use bethlehem::backend::vulkan::shader_module::VulkanShaderModule;
use bethlehem::util::{compile_hlsl, compile_outcome, compile_request, get_target};
use bethlehem::{
    BackendType, Device, Error, InstanceDesc, ShaderCreation, ShaderDesc, ShaderKind, ShaderSource,
};
use hassle_rs::HassleError;
use std::sync::Arc;

const BROKEN_SHADER: &str = "this is not HLSL {";

fn desc(
    name: &str,
    entry_point: &str,
    kind: ShaderKind,
    defines: &[(&str, Option<&str>)],
) -> ShaderDesc {
    ShaderDesc {
        name: name.to_string(),
        source: ShaderSource::Hlsl {
            source: BROKEN_SHADER.to_string(),
            defines: defines
                .iter()
                .map(|(key, value)| (key.to_string(), value.map(|v| v.to_string())))
                .collect(),
        },
        kind,
        entry_point: entry_point.to_string(),
    }
}

fn vulkan_device() -> Arc<VulkanDevice> {
    let instance = Arc::new(
        VulkanInstance::new(&InstanceDesc {
            backend_type: BackendType::Vulkan,
            debug: false,
            engine_name: "e".to_string(),
            application_name: "a".to_string(),
            window_handle: None,
        })
        .unwrap(),
    );
    let properties = VulkanPhysicalDeviceProperties {
        api_version: 0,
        driver_version: 0,
        vendor_id: 0,
        device_id: 0,
        device_type: 0,
        device_name: "gpu".to_string(),
    };
    let physical_device = Arc::new(VulkanPhysicalDevice::new(instance, 1, properties).unwrap());
    Arc::new(VulkanDevice::new(physical_device, 0, 0, 0).unwrap())
}

fn metal_device() -> Arc<MetalDevice> {
    let physical_device = Arc::new(
        MetalPhysicalDevice::new(MetalAdapter {
            registry_id: 9,
            name: "gpu".to_string(),
            supports_mesh_shading: true,
        })
        .unwrap(),
    );
    Arc::new(MetalDevice::new(physical_device).unwrap())
}

#[test]
fn every_stage_has_its_target_profile() {
    assert_eq!(get_target(ShaderKind::Vertex), "vs_6_7");
    assert_eq!(get_target(ShaderKind::Task), "as_6_7");
    assert_eq!(get_target(ShaderKind::Mesh), "ms_6_7");
    assert_eq!(get_target(ShaderKind::Fragment), "ps_6_7");
    assert_eq!(get_target(ShaderKind::Compute), "cs_6_7");
}

#[test]
fn request_for_spirv_names_format_and_environment() {
    let defines = [("A", None), ("B", Some("2"))];
    let description = desc("Mesh shader", "ms_main", ShaderKind::Mesh, &defines);
    let request = compile_request(&description, true).unwrap();
    assert_eq!(request.source_name, "Mesh shader");
    assert_eq!(request.shader_text, BROKEN_SHADER);
    assert_eq!(request.entry_point, "ms_main");
    assert_eq!(request.target_profile, "ms_6_7");
    assert_eq!(request.args, vec!["-HV 2021", "-spirv", "-fspv-target-env=vulkan1.3"]);
    assert_eq!(request.defines, vec![("A", None), ("B", Some("2"))]);
}

#[test]
fn request_for_dxil_has_the_base_arguments_alone() {
    let description = desc("Fragment shader", "fs_main", ShaderKind::Fragment, &[]);
    let request = compile_request(&description, false).unwrap();
    assert_eq!(request.target_profile, "ps_6_7");
    assert_eq!(request.args, vec!["-HV 2021"]);
    assert!(request.defines.is_empty());
}

#[test]
fn nul_in_the_shader_name_is_refused() {
    let description = desc("Mesh\0shader", "ms\0main", ShaderKind::Mesh, &[("\0", None)]);
    assert!(matches!(compile_request(&description, true), Err(Error::NulError(4))));
    assert!(matches!(compile_hlsl(&description, true), Err(Error::NulError(4))));
    assert!(matches!(compile_hlsl(&description, false), Err(Error::NulError(4))));
}

#[test]
fn nul_in_the_entry_point_is_refused() {
    let description = desc("Mesh shader", "ms\0main", ShaderKind::Mesh, &[("\0", None)]);
    assert!(matches!(compile_request(&description, true), Err(Error::NulError(2))));
    assert!(matches!(compile_hlsl(&description, true), Err(Error::NulError(2))));
}

#[test]
fn nul_in_a_define_is_refused() {
    let defines = [("OK", Some("1")), ("BAD\0", Some("\0"))];
    let in_name = desc("s", "main", ShaderKind::Compute, &defines);
    assert!(matches!(compile_hlsl(&in_name, false), Err(Error::NulError(3))));
    let defines = [("OK", None), ("N", Some("1\0")), ("\0", None)];
    let in_value = desc("s", "main", ShaderKind::Compute, &defines);
    assert!(matches!(compile_hlsl(&in_value, false), Err(Error::NulError(1))));
}

#[test]
fn nul_in_the_source_text_is_no_reason_to_refuse() {
    let mut description = desc("s", "main", ShaderKind::Compute, &[]);
    description.source = ShaderSource::Hlsl { source: "a\0b".to_string(), defines: Vec::new() };
    let request = compile_request(&description, false).unwrap();
    assert_eq!(request.shader_text, "a\0b");
}

#[test]
fn bytecode_of_the_compiler_is_passed_on() {
    let result = compile_outcome(Ok(vec![3, 2, 35, 7]));
    assert_eq!(result.unwrap(), vec![3, 2, 35, 7]);
}

#[test]
fn diagnostic_of_the_compiler_is_passed_on() {
    let diagnostic = "shader.hlsl:1:1: error: unknown type name 'this'";
    let result = compile_outcome(Err(HassleError::CompileError(diagnostic.to_string())));
    match result {
        Err(Error::HassleRs(HassleError::CompileError(text))) => assert_eq!(text, diagnostic),
        _ => panic!("the compiler's error was not passed on"),
    }
}

#[test]
fn malformed_source_gives_the_compiler_error_and_no_module() {
    let description = desc("Broken", "main", ShaderKind::Mesh, &[]);
    assert!(matches!(compile_hlsl(&description, true), Err(Error::HassleRs(_))));
    let vulkan = vulkan_device();
    assert!(matches!(vulkan.create_shader_module(&description), Err(Error::HassleRs(_))));
    let metal = metal_device();
    assert!(matches!(metal.create_shader_module(&description), Err(Error::HassleRs(_))));
    assert!(matches!(
        Device::Vulkan(vulkan).create_shader_module(&description),
        Err(Error::HassleRs(_))
    ));
    assert!(matches!(
        Device::Metal(metal).create_shader_module(&description),
        Err(Error::HassleRs(_))
    ));
}

#[test]
fn device_refuses_a_description_with_a_nul() {
    let description = desc("Broken", "ma\0in", ShaderKind::Mesh, &[]);
    assert!(matches!(
        vulkan_device().create_shader_module(&description),
        Err(Error::NulError(2))
    ));
    assert!(matches!(metal_device().create_shader_module(&description), Err(Error::NulError(2))));
    let creation = Device::Metal(metal_device()).create_shader_module(&description);
    assert!(matches!(creation, Err(Error::NulError(2))));
    assert!(!matches!(creation, Ok(ShaderCreation::Created(_))));
}

#[test]
fn module_holds_the_bytecode_as_words() {
    let bytes: Vec<u8> = vec![0x03, 0x02, 0x23, 0x07, 0x00, 0x06, 0x01, 0x00];
    let module = VulkanShaderModule::new(vulkan_device(), &bytes).unwrap();
    assert_eq!(
        module.code,
        vec![
            u32::from_ne_bytes([0x03, 0x02, 0x23, 0x07]),
            u32::from_ne_bytes([0x00, 0x06, 0x01, 0x00])
        ]
    );
}

#[test]
fn last_word_is_filled_up_with_zero_bytes() {
    let bytes: Vec<u8> = vec![1, 2, 3, 4, 5];
    let module = VulkanShaderModule::new(vulkan_device(), &bytes).unwrap();
    assert_eq!(
        module.code,
        vec![u32::from_ne_bytes([1, 2, 3, 4]), u32::from_ne_bytes([5, 0, 0, 0])]
    );
    let empty = VulkanShaderModule::new(vulkan_device(), &Vec::new()).unwrap();
    assert!(empty.code.is_empty());
}

#[test]
fn module_keeps_its_device_alive() {
    let device = vulkan_device();
    let module = VulkanShaderModule::new(device.clone(), &vec![0, 0, 0, 0]).unwrap();
    assert_eq!(Arc::strong_count(&device), 2);
    let physical_device = device.physical_device.physical_device;
    drop(device);
    assert_eq!(Arc::strong_count(&module.device), 1);
    assert_eq!(module.device.physical_device.physical_device, physical_device);
}
