//! The types and calls of the graphics bindings that this library builds on,
//! as far as its logic reads them, with what is taken on trust about each.
//!
//! `Version`, `Features`, `MessageTypes` and the device type are plain data
//! with public fields, so the verifier sees inside them. `DeviceExtensions` has
//! a field that cannot be named from outside its crate; it is handled as a set
//! of extension names. Devices, queue families and instances are handles: they
//! are carried, never inspected. What an instance keeps of its devices from
//! the moment it is created has a name here; what the driver is asked at each
//! call has none.

use crate::text::numeral;
use log::Level;
use log::LevelFilter;
use std::sync::Arc;
use vstd::prelude::*;
use vulkano::instance::debug::DebugCallback;
use vulkano::instance::debug::MessageTypes;
use vulkano::instance::DeviceExtensions;
use vulkano::instance::Features;
use vulkano::instance::Instance;
use vulkano::instance::InstanceExtensions;
use vulkano::instance::PhysicalDevice;
use vulkano::instance::PhysicalDeviceType;
use vulkano::instance::QueueFamily;
use vulkano::instance::Version;

verus! {

/// An API version, with its three numbers in view.
#[verifier::external_type_specification]
pub struct ExVersion(Version);

/// A list of device features, with each flag in view.
#[verifier::external_type_specification]
pub struct ExFeatures(Features);

/// The types of a debug message, with each flag in view.
#[verifier::external_type_specification]
pub struct ExMessageTypes(MessageTypes);

/// The type of a physical device, with its variants in view.
#[verifier::external_type_specification]
pub struct ExPhysicalDeviceType(PhysicalDeviceType);

/// A list of device extensions. What it holds is told by [`enabled`].
#[verifier::external_type_specification]
#[verifier::external_body]
pub struct ExDeviceExtensions(DeviceExtensions);

/// A list of instance extensions, carried as it is.
#[verifier::external_type_specification]
#[verifier::external_body]
pub struct ExInstanceExtensions(InstanceExtensions);

/// An instance, carried as it is.
#[verifier::external_type_specification]
#[verifier::external_body]
pub struct ExInstance(Instance);

/// The registration of a debug callback, carried as it is.
#[verifier::external_type_specification]
#[verifier::external_body]
pub struct ExDebugCallback(DebugCallback);

/// The handle of a physical device, carried as it is.
#[verifier::external_type_specification]
#[verifier::external_body]
pub struct ExPhysicalDevice<'a>(PhysicalDevice<'a>);

/// The handle of a queue family, carried as it is.
#[verifier::external_type_specification]
#[verifier::external_body]
pub struct ExQueueFamily<'a>(QueueFamily<'a>);

/// A log level, with its variants in view.
#[verifier::external_type_specification]
pub struct ExLevel(Level);

/// A maximum log level, with its variants in view.
#[verifier::external_type_specification]
pub struct ExLevelFilter(LevelFilter);

/// `earlier` comes before `later` when versions are ordered by major, then
/// minor, then patch number.
pub open spec fn version_before(earlier: Version, later: Version) -> bool {
    ||| earlier.major < later.major
    ||| earlier.major == later.major && earlier.minor < later.minor
    ||| earlier.major == later.major && earlier.minor == later.minor && earlier.patch
        < later.patch
}

/// Compares two versions with the `<` that `Version` implements. Trusted: the
/// ordering is by major, then minor, then patch number.
#[verifier::external_body]
pub(crate) fn version_precedes(earlier: &Version, later: &Version) -> (before: bool)
    ensures
        before == version_before(*earlier, *later),
{
    earlier < later
}

/// Every feature that `wanted` asks for is one that `offered` has.
pub open spec fn features_cover(offered: Features, wanted: Features) -> bool {
    &&& (wanted.robust_buffer_access ==> offered.robust_buffer_access)
    &&& (wanted.full_draw_index_uint32 ==> offered.full_draw_index_uint32)
    &&& (wanted.image_cube_array ==> offered.image_cube_array)
    &&& (wanted.independent_blend ==> offered.independent_blend)
    &&& (wanted.geometry_shader ==> offered.geometry_shader)
    &&& (wanted.tessellation_shader ==> offered.tessellation_shader)
    &&& (wanted.sample_rate_shading ==> offered.sample_rate_shading)
    &&& (wanted.dual_src_blend ==> offered.dual_src_blend)
    &&& (wanted.logic_op ==> offered.logic_op)
    &&& (wanted.multi_draw_indirect ==> offered.multi_draw_indirect)
    &&& (wanted.draw_indirect_first_instance ==> offered.draw_indirect_first_instance)
    &&& (wanted.depth_clamp ==> offered.depth_clamp)
    &&& (wanted.depth_bias_clamp ==> offered.depth_bias_clamp)
    &&& (wanted.fill_mode_non_solid ==> offered.fill_mode_non_solid)
    &&& (wanted.depth_bounds ==> offered.depth_bounds)
    &&& (wanted.wide_lines ==> offered.wide_lines)
    &&& (wanted.large_points ==> offered.large_points)
    &&& (wanted.alpha_to_one ==> offered.alpha_to_one)
    &&& (wanted.multi_viewport ==> offered.multi_viewport)
    &&& (wanted.sampler_anisotropy ==> offered.sampler_anisotropy)
    &&& (wanted.texture_compression_etc2 ==> offered.texture_compression_etc2)
    &&& (wanted.texture_compression_astc_ldr ==> offered.texture_compression_astc_ldr)
    &&& (wanted.texture_compression_bc ==> offered.texture_compression_bc)
    &&& (wanted.occlusion_query_precise ==> offered.occlusion_query_precise)
    &&& (wanted.pipeline_statistics_query ==> offered.pipeline_statistics_query)
    &&& (wanted.vertex_pipeline_stores_and_atomics ==> offered.vertex_pipeline_stores_and_atomics)
    &&& (wanted.fragment_stores_and_atomics ==> offered.fragment_stores_and_atomics)
    &&& (wanted.shader_tessellation_and_geometry_point_size
        ==> offered.shader_tessellation_and_geometry_point_size)
    &&& (wanted.shader_image_gather_extended ==> offered.shader_image_gather_extended)
    &&& (wanted.shader_storage_image_extended_formats
        ==> offered.shader_storage_image_extended_formats)
    &&& (wanted.shader_storage_image_multisample ==> offered.shader_storage_image_multisample)
    &&& (wanted.shader_storage_image_read_without_format
        ==> offered.shader_storage_image_read_without_format)
    &&& (wanted.shader_storage_image_write_without_format
        ==> offered.shader_storage_image_write_without_format)
    &&& (wanted.shader_uniform_buffer_array_dynamic_indexing
        ==> offered.shader_uniform_buffer_array_dynamic_indexing)
    &&& (wanted.shader_sampled_image_array_dynamic_indexing
        ==> offered.shader_sampled_image_array_dynamic_indexing)
    &&& (wanted.shader_storage_buffer_array_dynamic_indexing
        ==> offered.shader_storage_buffer_array_dynamic_indexing)
    &&& (wanted.shader_storage_image_array_dynamic_indexing
        ==> offered.shader_storage_image_array_dynamic_indexing)
    &&& (wanted.shader_clip_distance ==> offered.shader_clip_distance)
    &&& (wanted.shader_cull_distance ==> offered.shader_cull_distance)
    &&& (wanted.shader_f3264 ==> offered.shader_f3264)
    &&& (wanted.shader_int64 ==> offered.shader_int64)
    &&& (wanted.shader_int16 ==> offered.shader_int16)
    &&& (wanted.shader_resource_residency ==> offered.shader_resource_residency)
    &&& (wanted.shader_resource_min_lod ==> offered.shader_resource_min_lod)
    &&& (wanted.sparse_binding ==> offered.sparse_binding)
    &&& (wanted.sparse_residency_buffer ==> offered.sparse_residency_buffer)
    &&& (wanted.sparse_residency_image2d ==> offered.sparse_residency_image2d)
    &&& (wanted.sparse_residency_image3d ==> offered.sparse_residency_image3d)
    &&& (wanted.sparse_residency2_samples ==> offered.sparse_residency2_samples)
    &&& (wanted.sparse_residency4_samples ==> offered.sparse_residency4_samples)
    &&& (wanted.sparse_residency8_samples ==> offered.sparse_residency8_samples)
    &&& (wanted.sparse_residency16_samples ==> offered.sparse_residency16_samples)
    &&& (wanted.sparse_residency_aliased ==> offered.sparse_residency_aliased)
    &&& (wanted.variable_multisample_rate ==> offered.variable_multisample_rate)
    &&& (wanted.inherited_queries ==> offered.inherited_queries)
}

/// `Features::superset_of`. Trusted: it answers whether each feature that is
/// set in the argument is set in the receiver too.
pub assume_specification[ Features::superset_of ](
    offered: &Features,
    wanted: &Features,
) -> (covers: bool)
    ensures
        covers == features_cover(*offered, *wanted),
;

/// The names of the extensions that are switched on in `extensions`.
pub uninterp spec fn enabled(extensions: DeviceExtensions) -> Set<Seq<char>>;

/// `DeviceExtensions::none`. Trusted: no extension is switched on in the
/// result.
pub assume_specification[ DeviceExtensions::none ]() -> (nothing: DeviceExtensions)
    ensures
        enabled(nothing) == Set::<Seq<char>>::empty(),
;

/// `DeviceExtensions::difference`. Trusted: the result has exactly the
/// extensions that are switched on in the receiver and not in the argument.
pub assume_specification[ DeviceExtensions::difference ](
    left: &DeviceExtensions,
    right: &DeviceExtensions,
) -> (rest: DeviceExtensions)
    ensures
        enabled(rest) == enabled(*left).difference(enabled(*right)),
;

/// Compares two extension lists with the `==` that `DeviceExtensions`
/// implements. Trusted: two lists are equal exactly when the same extensions
/// are switched on in both.
#[verifier::external_body]
pub(crate) fn same_extensions(left: &DeviceExtensions, right: &DeviceExtensions) -> (same: bool)
    ensures
        same == (enabled(*left) == enabled(*right)),
{
    left == right
}

/// The API version that a device reports. The instance reads it once, when it
/// is created, and keeps it.
pub uninterp spec fn reported_version(device: PhysicalDevice<'static>) -> Version;

/// `PhysicalDevice::api_version`. Trusted: the version is the one that the
/// instance keeps for this device, the same at every call.
pub assume_specification<'a>[ PhysicalDevice::<'a>::api_version ](
    device: &PhysicalDevice<'a>,
) -> (version: Version)
    ensures
        version == reported_version(*device),
;

/// The features that a device reports. The instance reads them once, when it
/// is created, and keeps them.
pub uninterp spec fn reported_features(device: PhysicalDevice<'static>) -> Features;

/// `PhysicalDevice::supported_features`. Trusted: the features are those that
/// the instance keeps for this device, the same at every call.
pub assume_specification<'a>[ PhysicalDevice::<'a>::supported_features ](
    device: &PhysicalDevice<'a>,
) -> (features: &'a Features)
    ensures
        *features == reported_features(*device),
;

/// `DeviceExtensions::supported_by_device`, which asks the driver at every
/// call. Nothing is claimed about the extensions. The call gives up with a
/// panic where the driver runs out of memory.
pub assume_specification[ DeviceExtensions::supported_by_device ](
    physical_device: PhysicalDevice,
) -> DeviceExtensions
;

/// The queue families of a device, in the order in which it lists them. The
/// instance reads them once, when it is created, and keeps them.
pub uninterp spec fn listed_families(device: PhysicalDevice<'static>) -> Seq<QueueFamily<'static>>;

/// Walks `PhysicalDevice::queue_families` and hands the families out in the
/// order of the walk. Trusted: they are the families that the instance keeps
/// for this device, the same at every call.
#[verifier::external_body]
pub(crate) fn queue_families<'a>(device: PhysicalDevice<'a>) -> (families: Vec<QueueFamily<'a>>)
    ensures
        families@ == listed_families(device),
{
    device.queue_families().collect()
}

/// The physical devices of an instance, in the order in which it lists them.
/// The instance finds them once, when it is created.
pub uninterp spec fn listed_devices(instance: Instance) -> Seq<PhysicalDevice<'static>>;

/// Walks `PhysicalDevice::enumerate` and hands the devices out in the order of
/// the walk. Trusted: they are the devices that the instance keeps, the same
/// at every call.
#[verifier::external_body]
pub(crate) fn physical_devices<'a>(instance: &'a Arc<Instance>) -> (devices: Vec<
    PhysicalDevice<'a>,
>)
    ensures
        devices@ == listed_devices(**instance),
{
    PhysicalDevice::enumerate(instance).collect()
}

/// The name of a device type, as its variant is written.
pub open spec fn device_type_name(ty: PhysicalDeviceType) -> Seq<char> {
    match ty {
        PhysicalDeviceType::IntegratedGpu => "IntegratedGpu"@,
        PhysicalDeviceType::DiscreteGpu => "DiscreteGpu"@,
        PhysicalDeviceType::VirtualGpu => "VirtualGpu"@,
        PhysicalDeviceType::Cpu => "Cpu"@,
        PhysicalDeviceType::Other => "Other"@,
    }
}

/// Formats a device type with `{:?}`. Trusted: the text is the name of the
/// variant.
#[verifier::external_body]
pub(crate) fn device_type_text(ty: PhysicalDeviceType) -> (text: String)
    ensures
        text@ == device_type_name(ty),
{
    format!("{:?}", ty)
}

/// A version as it is written: its three numbers with dots between them.
pub open spec fn version_name(version: Version) -> Seq<char> {
    numeral(version.major as nat, 10) + "."@ + numeral(version.minor as nat, 10) + "."@ + numeral(
        version.patch as nat,
        10,
    )
}

/// Formats a version with `{}`. Trusted: the text is major, minor and patch
/// number in decimal, with dots between them.
#[verifier::external_body]
pub(crate) fn version_text(version: &Version) -> (text: String)
    ensures
        text@ == version_name(*version),
{
    format!("{}", version)
}

/// An extension list as `{:?}` writes it.
pub uninterp spec fn extensions_listing(extensions: DeviceExtensions) -> Seq<char>;

/// Formats an extension list with `{:?}`. Trusted: the text depends on the
/// list alone.
#[verifier::external_body]
pub(crate) fn extensions_text(extensions: &DeviceExtensions) -> (text: String)
    ensures
        text@ == extensions_listing(*extensions),
{
    format!("{:?}", extensions)
}

/// A list of instance extensions as `{:?}` writes it.
pub uninterp spec fn instance_extensions_listing(extensions: InstanceExtensions) -> Seq<char>;

/// Formats a list of instance extensions with `{:?}`. Trusted: the text
/// depends on the list alone.
#[verifier::external_body]
pub(crate) fn instance_extensions_text(extensions: &InstanceExtensions) -> (text: String)
    ensures
        text@ == instance_extensions_listing(*extensions),
{
    format!("{:?}", extensions)
}

/// A feature list as `{:#?}` writes it, over several lines.
pub uninterp spec fn features_listing(features: Features) -> Seq<char>;

/// Formats a feature list with `{:#?}`. Trusted: the text depends on the list
/// alone.
#[verifier::external_body]
pub(crate) fn features_text(features: &Features) -> (text: String)
    ensures
        text@ == features_listing(*features),
{
    format!("{:#?}", features)
}

/// How much a maximum level lets through: nothing for `Off`, everything for
/// `Trace`.
pub open spec fn level_rank(level: LevelFilter) -> int {
    match level {
        LevelFilter::Off => 0,
        LevelFilter::Error => 1,
        LevelFilter::Warn => 2,
        LevelFilter::Info => 3,
        LevelFilter::Debug => 4,
        LevelFilter::Trace => 5,
    }
}

/// Compares two maximum levels with the `>=` that `LevelFilter` implements.
/// Trusted: the levels are ordered from `Off` up to `Trace`.
#[verifier::external_body]
pub(crate) fn reaches(level: LevelFilter, threshold: LevelFilter) -> (enough: bool)
    ensures
        enough == (level_rank(level) >= level_rank(threshold)),
{
    level >= threshold
}

/// `log::max_level`. Nothing is claimed about the level: it is whatever the
/// program set last.
pub assume_specification[ log::max_level ]() -> LevelFilter
;

} // verus!
