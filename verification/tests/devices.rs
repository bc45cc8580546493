use bethlehem::backend::metal::device::{ir_shader_stage, IrShaderStage, MetalDevice};
use bethlehem::backend::metal::instance::MetalInstance;
use bethlehem::backend::metal::physical_device::{MetalAdapter, MetalPhysicalDevice};
use bethlehem::backend::metal::queue::MetalQueue;
use bethlehem::backend::vulkan::device::{VulkanDevice, SWAPCHAIN_EXTENSION};
use bethlehem::backend::vulkan::instance::VulkanInstance;
use bethlehem::backend::vulkan::physical_device::{
    VulkanPhysicalDevice, VulkanPhysicalDeviceProperties,
};
use bethlehem::backend::vulkan::queue::VulkanQueue;
use bethlehem::backend::vulkan::queue_family::QueueFamily;
use bethlehem::{
    BackendType, Device, DeviceDesc, Error, Instance, InstanceDesc, PhysicalDevice, Queue,
    QueueType, ShaderKind,
};
use std::sync::Arc;

fn instance_desc(backend_type: BackendType) -> InstanceDesc {
    InstanceDesc {
        backend_type,
        debug: false,
        engine_name: "Engine".to_string(),
        application_name: "App".to_string(),
        window_handle: None,
    }
}

fn vulkan_physical_device(instance: &Arc<VulkanInstance>) -> PhysicalDevice {
    let properties = VulkanPhysicalDeviceProperties {
        api_version: 4206592,
        driver_version: 3,
        vendor_id: 1,
        device_id: 2,
        device_type: 1,
        device_name: "Adapter".to_string(),
    };
    PhysicalDevice::Vulkan(Arc::new(
        VulkanPhysicalDevice::new(instance.clone(), 77, properties).unwrap(),
    ))
}

fn metal_physical_device() -> PhysicalDevice {
    PhysicalDevice::Metal(Arc::new(
        MetalPhysicalDevice::new(MetalAdapter {
            registry_id: 42,
            name: "Apple GPU".to_string(),
            supports_mesh_shading: true,
        })
        .unwrap(),
    ))
}

fn family(queue_flags: u32, queue_count: u32) -> QueueFamily {
    QueueFamily { queue_flags, queue_count }
}

fn vulkan_queue(queue: Queue) -> VulkanQueue {
    match queue {
        Queue::Vulkan(queue) => *queue,
        Queue::Metal(_) => panic!("a Vulkan device gave a Metal queue"),
    }
}

fn metal_queue(queue: Queue) -> MetalQueue {
    match queue {
        Queue::Metal(queue) => *queue,
        Queue::Vulkan(_) => panic!("a Metal device gave a Vulkan queue"),
    }
}

#[test]
fn device_is_laid_out_over_dedicated_families() {
    let instance = Arc::new(VulkanInstance::new(&instance_desc(BackendType::Vulkan)).unwrap());
    let physical_device = vulkan_physical_device(&instance);
    let families = vec![family(7, 2), family(2, 1), family(4, 1)];
    let device = instance
        .create_device(&DeviceDesc { physical_device: &physical_device }, &families)
        .unwrap();
    let vulkan = device.as_vulkan_device();
    assert_eq!(vulkan.direct_queue_family_index, 0);
    assert_eq!(vulkan.compute_queue_family_index, 1);
    assert_eq!(vulkan.transfer_queue_family_index, 2);
    assert_eq!(vulkan.queue_family_indices, vec![0, 1, 2]);
    assert_eq!(vulkan.enabled_extension_names, vec!["VK_KHR_swapchain", "VK_EXT_mesh_shader"]);
    assert_eq!(vulkan.physical_device.physical_device, 77);
    assert_eq!(
        vulkan_queue(device.get_direct_queue()),
        VulkanQueue { family_index: 0, queue_index: 0 }
    );
    assert_eq!(
        vulkan_queue(device.get_compute_queue()),
        VulkanQueue { family_index: 1, queue_index: 0 }
    );
    assert_eq!(
        vulkan_queue(device.get_transfer_queue()),
        VulkanQueue { family_index: 2, queue_index: 0 }
    );
}

#[test]
fn roles_of_one_family_share_its_queue() {
    let instance = Arc::new(VulkanInstance::new(&instance_desc(BackendType::Vulkan)).unwrap());
    let physical_device = vulkan_physical_device(&instance);
    let families = vec![family(7, 1)];
    let device = instance
        .create_device(&DeviceDesc { physical_device: &physical_device }, &families)
        .unwrap();
    let vulkan = device.as_vulkan_device();
    assert_eq!(vulkan.queue_family_indices, vec![0]);
    let direct = vulkan_queue(device.get_direct_queue());
    assert_eq!(direct, vulkan_queue(device.get_compute_queue()));
    assert_eq!(direct, vulkan_queue(device.get_transfer_queue()));
}

#[test]
fn queues_are_created_once_in_each_family() {
    let physical_device = {
        let instance = Arc::new(VulkanInstance::new(&instance_desc(BackendType::Vulkan)).unwrap());
        match vulkan_physical_device(&instance) {
            PhysicalDevice::Vulkan(device) => device,
            PhysicalDevice::Metal(_) => panic!("a Vulkan adapter was made"),
        }
    };
    let shared = VulkanDevice::new(physical_device.clone(), 0, 3, 3).unwrap();
    assert_eq!(shared.queue_family_indices, vec![0, 3]);
    assert_eq!(*shared.compute_queue, *shared.transfer_queue);
    assert_ne!(*shared.direct_queue, *shared.compute_queue);
    let direct_transfer = VulkanDevice::new(physical_device.clone(), 2, 1, 2).unwrap();
    assert_eq!(direct_transfer.queue_family_indices, vec![2, 1]);
    let direct_compute = VulkanDevice::new(physical_device.clone(), 2, 2, 5).unwrap();
    assert_eq!(direct_compute.queue_family_indices, vec![2, 5]);
    let apart = VulkanDevice::new(physical_device, 4, 0, 9).unwrap();
    assert_eq!(apart.queue_family_indices, vec![4, 0, 9]);
    assert_eq!(SWAPCHAIN_EXTENSION, "VK_KHR_swapchain");
}

#[test]
fn device_without_a_direct_family_is_refused() {
    let instance = Arc::new(VulkanInstance::new(&instance_desc(BackendType::Vulkan)).unwrap());
    let physical_device = vulkan_physical_device(&instance);
    let families = vec![family(3, 4), family(4, 2)];
    let desc = DeviceDesc { physical_device: &physical_device };
    let result = instance.create_device(&desc, &families);
    assert!(matches!(result, Err(Error::VulkanQueueFamilyNotFound)));
    let none: Vec<QueueFamily> = Vec::new();
    let result = instance.create_device(&DeviceDesc { physical_device: &physical_device }, &none);
    assert!(matches!(result, Err(Error::VulkanQueueFamilyNotFound)));
}

#[test]
fn metal_device_serves_every_role_with_its_one_queue() {
    let instance = MetalInstance::new(&instance_desc(BackendType::Metal)).unwrap();
    let physical_device = metal_physical_device();
    let device = instance.create_device(&DeviceDesc { physical_device: &physical_device }).unwrap();
    assert_eq!(device.as_metal_device().physical_device.registry_id, 42);
    let queue = MetalQueue { registry_id: 42 };
    assert_eq!(metal_queue(device.get_direct_queue()), queue);
    assert_eq!(metal_queue(device.get_compute_queue()), queue);
    assert_eq!(metal_queue(device.get_transfer_queue()), queue);
    assert_eq!(MetalQueue::new(42).unwrap(), queue);
}

#[test]
fn instance_creates_the_device_of_its_backend() {
    let vulkan = Instance::new(&instance_desc(BackendType::Vulkan)).unwrap();
    let adapter = match &vulkan {
        Instance::Vulkan(instance) => vulkan_physical_device(instance),
        Instance::Metal(_) => panic!("a Vulkan instance was asked for"),
    };
    let families = vec![family(7, 1), family(2, 1)];
    let desc = DeviceDesc { physical_device: &adapter };
    let device = vulkan.create_device(&desc, &families).unwrap();
    assert!(matches!(device, Device::Vulkan(_)));
    assert_eq!(device.as_vulkan_device().compute_queue_family_index, 1);
    let refused = vulkan.create_device(&DeviceDesc { physical_device: &adapter }, &Vec::new());
    assert!(matches!(refused, Err(Error::VulkanQueueFamilyNotFound)));

    let metal = Instance::new(&instance_desc(BackendType::Metal)).unwrap();
    let adapter = metal_physical_device();
    let desc = DeviceDesc { physical_device: &adapter };
    let device = metal.create_device(&desc, &Vec::new()).unwrap();
    assert!(matches!(device, Device::Metal(_)));
}

#[test]
fn device_outlives_the_handle_it_was_made_through() {
    let physical_device = Arc::new(
        MetalPhysicalDevice::new(MetalAdapter {
            registry_id: 1,
            name: "gpu".to_string(),
            supports_mesh_shading: true,
        })
        .unwrap(),
    );
    let device = MetalDevice::new(physical_device.clone()).unwrap();
    assert_eq!(Arc::strong_count(&physical_device), 2);
    let name = physical_device.name.clone();
    drop(physical_device);
    assert_eq!(device.physical_device.name, name);
    assert_eq!(Arc::strong_count(&device.physical_device), 1);
}

#[test]
fn task_shaders_are_amplification_shaders_for_the_translator() {
    assert_eq!(ir_shader_stage(ShaderKind::Vertex), IrShaderStage::Vertex);
    assert_eq!(ir_shader_stage(ShaderKind::Fragment), IrShaderStage::Fragment);
    assert_eq!(ir_shader_stage(ShaderKind::Task), IrShaderStage::Amplification);
    assert_eq!(ir_shader_stage(ShaderKind::Mesh), IrShaderStage::Mesh);
    assert_eq!(ir_shader_stage(ShaderKind::Compute), IrShaderStage::Compute);
}

#[test]
fn queue_roles_are_three() {
    let roles = [QueueType::Direct, QueueType::Compute, QueueType::Transfer];
    assert_ne!(roles[0], roles[1]);
    assert_ne!(roles[1], roles[2]);
    assert_ne!(roles[0], roles[2]);
}
