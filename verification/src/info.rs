//! What a device reports of itself, as plain data.
//!
//! A description is filled in once from the handle of a device and can then be
//! read, compared and printed without going back to the driver.

use crate::limits::LimitsInfo;
use vstd::prelude::*;
use vulkano::instance::DeviceExtensions;
use vulkano::instance::Features;
use vulkano::instance::PhysicalDeviceType;
use vulkano::instance::Version;

verus! {

/// An instance layer that the implementation offers.
pub struct LayerInfo {
    pub name: String,
    pub description: String,
    /// Version of the layer itself; what the number means is up to the layer.
    pub implementation_version: u32,
    /// Version of the API that the layer was written for.
    pub vulkan_version: Version,
}

/// A queue family of a device.
#[derive(Clone, Copy, Debug, PartialEq, Eq)]
pub struct QueueFamilyInfo {
    /// Identifier of the family within its device.
    pub id: u32,
    /// Number of queues in the family.
    pub queues_count: usize,
    pub supports_graphics: bool,
    pub supports_compute: bool,
    pub supports_transfers: bool,
    pub supports_sparse_binding: bool,
}

/// A memory type of a device.
#[derive(Clone, Copy, Debug, PartialEq, Eq)]
pub struct MemoryTypeInfo {
    /// Identifier of the type within its device.
    pub id: u32,
    /// Identifier of the heap that memory of this type comes from.
    pub heap_id: u32,
    pub device_local: bool,
    pub host_visible: bool,
    pub host_coherent: bool,
    pub host_cached: bool,
    pub lazily_allocated: bool,
}

/// A memory heap of a device.
#[derive(Clone, Copy, Debug, PartialEq, Eq)]
pub struct MemoryHeapInfo {
    /// Identifier of the heap within its device.
    pub id: u32,
    /// Size of the heap in bytes.
    pub size: usize,
    pub device_local: bool,
}

/// A physical device.
pub struct DeviceInfo {
    /// Position of the device in the list that the instance enumerates.
    pub index: usize,
    pub name: String,
    pub ty: PhysicalDeviceType,
    pub driver_version: u32,
    pub pci_vendor_id: u32,
    pub pci_device_id: u32,
    pub uuid: [u8; 16],
    pub api_version: Version,
    /// The device extensions that the device supports.
    pub extensions: DeviceExtensions,
    /// The features that the device supports.
    pub features: Features,
    pub queue_families: Vec<QueueFamilyInfo>,
    pub memory_types: Vec<MemoryTypeInfo>,
    pub memory_heaps: Vec<MemoryHeapInfo>,
    pub limits: LimitsInfo,
}

} // verus!
