//! The limits of a device and the part of the report that lists them.

use crate::text::{
    decimal, lemma_concat_twice, measured, numeral, put, put_bits, put_flag, put_labelled,
    put_measure, put_number, put_plain, signed_decimal, signed_numeral, texts, truth,
};
use vstd::prelude::*;

verus! {

/// The limits of a device, each under the name that the bindings give it.
///
/// Whole numbers are held as they are. A limit that is a fraction, or a range
/// of fractions, is held as the text that stands for it in the report.
pub struct LimitsInfo {
    pub max_image_dimension_1d: u32,
    pub max_image_dimension_2d: u32,
    pub max_image_dimension_3d: u32,
    pub max_image_dimension_cube: u32,
    pub max_image_array_layers: u32,
    pub max_texel_buffer_elements: u32,
    pub max_uniform_buffer_range: u32,
    pub max_storage_buffer_range: u32,
    pub max_push_constants_size: u32,
    pub max_memory_allocation_count: u32,
    pub max_sampler_allocation_count: u32,
    pub buffer_image_granularity: u64,
    pub sparse_address_space_size: u64,
    pub max_bound_descriptor_sets: u32,
    pub max_per_stage_descriptor_samplers: u32,
    pub max_per_stage_descriptor_uniform_buffers: u32,
    pub max_per_stage_descriptor_storage_buffers: u32,
    pub max_per_stage_descriptor_sampled_images: u32,
    pub max_per_stage_descriptor_storage_images: u32,
    pub max_per_stage_descriptor_input_attachments: u32,
    pub max_per_stage_resources: u32,
    pub max_descriptor_set_samplers: u32,
    pub max_descriptor_set_uniform_buffers: u32,
    pub max_descriptor_set_uniform_buffers_dynamic: u32,
    pub max_descriptor_set_storage_buffers: u32,
    pub max_descriptor_set_storage_buffers_dynamic: u32,
    pub max_descriptor_set_sampled_images: u32,
    pub max_descriptor_set_storage_images: u32,
    pub max_descriptor_set_input_attachments: u32,
    pub max_vertex_input_attributes: u32,
    pub max_vertex_input_bindings: u32,
    pub max_vertex_input_attribute_offset: u32,
    pub max_vertex_input_binding_stride: u32,
    pub max_vertex_output_components: u32,
    pub max_tessellation_generation_level: u32,
    pub max_tessellation_patch_size: u32,
    pub max_tessellation_control_per_vertex_input_components: u32,
    pub max_tessellation_control_per_vertex_output_components: u32,
    pub max_tessellation_control_per_patch_output_components: u32,
    pub max_tessellation_control_total_output_components: u32,
    pub max_tessellation_evaluation_input_components: u32,
    pub max_tessellation_evaluation_output_components: u32,
    pub max_geometry_shader_invocations: u32,
    pub max_geometry_input_components: u32,
    pub max_geometry_output_components: u32,
    pub max_geometry_output_vertices: u32,
    pub max_geometry_total_output_components: u32,
    pub max_fragment_input_components: u32,
    pub max_fragment_output_attachments: u32,
    pub max_fragment_dual_src_attachments: u32,
    pub max_fragment_combined_output_resources: u32,
    pub max_compute_shared_memory_size: u32,
    pub max_compute_work_group_count: [u32; 3],
    pub max_compute_work_group_invocations: u32,
    pub max_compute_work_group_size: [u32; 3],
    pub sub_pixel_precision_bits: u32,
    pub sub_texel_precision_bits: u32,
    pub mipmap_precision_bits: u32,
    pub max_draw_indexed_index_value: u32,
    pub max_draw_indirect_count: u32,
    pub max_sampler_lod_bias: String,
    pub max_sampler_anisotropy: String,
    pub max_viewports: u32,
    pub max_viewport_dimensions: [u32; 2],
    pub viewport_bounds_range: String,
    pub viewport_sub_pixel_bits: u32,
    pub min_memory_map_alignment: usize,
    pub min_texel_buffer_offset_alignment: u64,
    pub min_uniform_buffer_offset_alignment: u64,
    pub min_storage_buffer_offset_alignment: u64,
    pub min_texel_offset: i32,
    pub max_texel_offset: u32,
    pub min_texel_gather_offset: i32,
    pub max_texel_gather_offset: u32,
    pub min_interpolation_offset: String,
    pub max_interpolation_offset: String,
    pub sub_pixel_interpolation_offset_bits: u32,
    pub max_framebuffer_width: u32,
    pub max_framebuffer_height: u32,
    pub max_framebuffer_layers: u32,
    pub framebuffer_color_sample_counts: u32,
    pub framebuffer_depth_sample_counts: u32,
    pub framebuffer_stencil_sample_counts: u32,
    pub framebuffer_no_attachments_sample_counts: u32,
    pub max_color_attachments: u32,
    pub sampled_image_color_sample_counts: u32,
    pub sampled_image_integer_sample_counts: u32,
    pub sampled_image_depth_sample_counts: u32,
    pub sampled_image_stencil_sample_counts: u32,
    pub storage_image_sample_counts: u32,
    pub max_sample_mask_words: u32,
    pub timestamp_compute_and_graphics: u32,
    pub timestamp_period: String,
    pub max_clip_distances: u32,
    pub max_cull_distances: u32,
    pub max_combined_clip_and_cull_distances: u32,
    pub discrete_queue_priorities: u32,
    pub point_size_range: String,
    pub line_width_range: String,
    pub point_size_granularity: String,
    pub line_width_granularity: String,
    pub strict_lines: u32,
    pub standard_sample_locations: u32,
    pub optimal_buffer_copy_offset_alignment: u64,
    pub optimal_buffer_copy_row_pitch_alignment: u64,
    pub non_coherent_atom_size: u64,
}

/// Two values between square brackets.
pub open spec fn pair(first: Seq<char>, second: Seq<char>) -> Seq<char> {
    "["@ + first + ", "@ + second + "]"@
}

/// Three numbers between square brackets.
pub open spec fn triple(values: Seq<u32>) -> Seq<char> {
    "["@ + numeral(values[0] as nat, 10) + ", "@ + numeral(values[1] as nat, 10) + ", "@ + numeral(
        values[2] as nat,
        10,
    ) + "]"@
}

/// Writes two values between square brackets.
pub fn pair_text(first: &str, second: &str) -> (text: String)
    ensures
        text@ == pair(first@, second@),
{
    let mut text = String::from_str("[");
    text.append(first);
    text.append(", ");
    text.append(second);
    text.append("]");
    text
}

/// Writes three numbers between square brackets.
pub fn triple_text(values: &[u32; 3]) -> (text: String)
    ensures
        text@ == triple(values@),
{
    let mut text = String::from_str("[");
    text.append(decimal(values[0] as u64).as_str());
    text.append(", ");
    text.append(decimal(values[1] as u64).as_str());
    text.append(", ");
    text.append(decimal(values[2] as u64).as_str());
    text.append("]");
    text
}

/// The heading and the limits on image sizes.
pub open spec fn image_lines(limits: LimitsInfo) -> Seq<Seq<char>> {
    seq![
        "Device limits:"@,
        "    - Max image dimension:"@,
        "        * 1D: "@ + numeral(limits.max_image_dimension_1d as nat, 10),
        "        * 2D: "@ + numeral(limits.max_image_dimension_2d as nat, 10),
        "        * 3D: "@ + numeral(limits.max_image_dimension_3d as nat, 10),
        "        * Cube: "@ + numeral(limits.max_image_dimension_cube as nat, 10),
        "    - Max image array layers: "@ + numeral(limits.max_image_array_layers as nat, 10),
    ]
}

fn write_image_lines(lines: &mut Vec<String>, limits: &LimitsInfo)
    ensures
        texts(final(lines)@) == texts(old(lines)@) + image_lines(*limits),
{
    put_plain(lines, "Device limits:");
    put_plain(lines, "    - Max image dimension:");
    put_number(lines, "        * 1D: ", limits.max_image_dimension_1d as u64);
    put_number(lines, "        * 2D: ", limits.max_image_dimension_2d as u64);
    put_number(lines, "        * 3D: ", limits.max_image_dimension_3d as u64);
    put_number(lines, "        * Cube: ", limits.max_image_dimension_cube as u64);
    put_number(lines, "    - Max image array layers: ", limits.max_image_array_layers as u64);
    assert(texts(lines@) =~= texts(old(lines)@) + image_lines(*limits));
}

/// The limits on buffers, allocations and bound descriptor sets.
pub open spec fn buffer_lines(limits: LimitsInfo) -> Seq<Seq<char>> {
    seq![
        "    - Max texel buffer elements: "@
            + numeral(limits.max_texel_buffer_elements as nat, 10),
        "    - Max uniform buffer range: "@ + numeral(limits.max_uniform_buffer_range as nat, 10),
        "    - Max storage buffer range: "@ + numeral(limits.max_storage_buffer_range as nat, 10),
        "    - Max push constants size: "@
            + numeral(limits.max_push_constants_size as nat, 10) + " bytes"@,
        "    - Max memory allocation count: "@
            + numeral(limits.max_memory_allocation_count as nat, 10),
        "    - Max sampler allocation count: "@
            + numeral(limits.max_sampler_allocation_count as nat, 10),
        "    - Buffer image granularity: "@
            + numeral(limits.buffer_image_granularity as nat, 10) + " bytes"@,
        "    - Sparse address space size: "@
            + numeral(limits.sparse_address_space_size as nat, 10) + " bytes"@,
        "    - Max bound descriptor sets: "@
            + numeral(limits.max_bound_descriptor_sets as nat, 10),
    ]
}

fn write_buffer_lines(lines: &mut Vec<String>, limits: &LimitsInfo)
    ensures
        texts(final(lines)@) == texts(old(lines)@) + buffer_lines(*limits),
{
    put_number(
        lines,
        "    - Max texel buffer elements: ",
        limits.max_texel_buffer_elements as u64,
    );
    put_number(lines, "    - Max uniform buffer range: ", limits.max_uniform_buffer_range as u64);
    put_number(lines, "    - Max storage buffer range: ", limits.max_storage_buffer_range as u64);
    put_measure(
        lines,
        "    - Max push constants size: ",
        limits.max_push_constants_size as u64,
        " bytes",
    );
    put_number(
        lines,
        "    - Max memory allocation count: ",
        limits.max_memory_allocation_count as u64,
    );
    put_number(
        lines,
        "    - Max sampler allocation count: ",
        limits.max_sampler_allocation_count as u64,
    );
    put_measure(
        lines,
        "    - Buffer image granularity: ",
        limits.buffer_image_granularity as u64,
        " bytes",
    );
    put_measure(
        lines,
        "    - Sparse address space size: ",
        limits.sparse_address_space_size as u64,
        " bytes",
    );
    put_number(
        lines,
        "    - Max bound descriptor sets: ",
        limits.max_bound_descriptor_sets as u64,
    );
    assert(texts(lines@) =~= texts(old(lines)@) + buffer_lines(*limits));
}

/// The limits on descriptors and resources per shader stage.
pub open spec fn stage_descriptor_lines(limits: LimitsInfo) -> Seq<Seq<char>> {
    seq![
        "    - Max per-stage descriptors:"@,
        "        * Samplers: "@ + numeral(limits.max_per_stage_descriptor_samplers as nat, 10),
        "        * Uniform buffers: "@
            + numeral(limits.max_per_stage_descriptor_uniform_buffers as nat, 10),
        "        * Storage buffers: "@
            + numeral(limits.max_per_stage_descriptor_storage_buffers as nat, 10),
        "        * Sampled images: "@
            + numeral(limits.max_per_stage_descriptor_sampled_images as nat, 10),
        "        * Storage images: "@
            + numeral(limits.max_per_stage_descriptor_storage_images as nat, 10),
        "        * Input attachments: "@
            + numeral(limits.max_per_stage_descriptor_input_attachments as nat, 10),
        "    - Max per-stage resources: "@ + numeral(limits.max_per_stage_resources as nat, 10),
    ]
}

fn write_stage_descriptor_lines(lines: &mut Vec<String>, limits: &LimitsInfo)
    ensures
        texts(final(lines)@) == texts(old(lines)@) + stage_descriptor_lines(*limits),
{
    put_plain(lines, "    - Max per-stage descriptors:");
    put_number(lines, "        * Samplers: ", limits.max_per_stage_descriptor_samplers as u64);
    put_number(
        lines,
        "        * Uniform buffers: ",
        limits.max_per_stage_descriptor_uniform_buffers as u64,
    );
    put_number(
        lines,
        "        * Storage buffers: ",
        limits.max_per_stage_descriptor_storage_buffers as u64,
    );
    put_number(
        lines,
        "        * Sampled images: ",
        limits.max_per_stage_descriptor_sampled_images as u64,
    );
    put_number(
        lines,
        "        * Storage images: ",
        limits.max_per_stage_descriptor_storage_images as u64,
    );
    put_number(
        lines,
        "        * Input attachments: ",
        limits.max_per_stage_descriptor_input_attachments as u64,
    );
    put_number(lines, "    - Max per-stage resources: ", limits.max_per_stage_resources as u64);
    assert(texts(lines@) =~= texts(old(lines)@) + stage_descriptor_lines(*limits));
}

/// The limits on descriptors per descriptor set.
pub open spec fn set_descriptor_lines(limits: LimitsInfo) -> Seq<Seq<char>> {
    seq![
        "    - Max descriptor set:"@,
        "        * Samplers: "@ + numeral(limits.max_descriptor_set_samplers as nat, 10),
        "        * Uniform buffers: "@
            + numeral(limits.max_descriptor_set_uniform_buffers as nat, 10),
        "        * Dynamic uniform buffers: "@
            + numeral(limits.max_descriptor_set_uniform_buffers_dynamic as nat, 10),
        "        * Storage buffers: "@
            + numeral(limits.max_descriptor_set_storage_buffers as nat, 10),
        "        * Dynamic storage buffers: "@
            + numeral(limits.max_descriptor_set_storage_buffers_dynamic as nat, 10),
        "        * Sampled images: "@
            + numeral(limits.max_descriptor_set_sampled_images as nat, 10),
        "        * Storage images: "@
            + numeral(limits.max_descriptor_set_storage_images as nat, 10),
        "        * Input attachments: "@
            + numeral(limits.max_descriptor_set_input_attachments as nat, 10),
    ]
}

fn write_set_descriptor_lines(lines: &mut Vec<String>, limits: &LimitsInfo)
    ensures
        texts(final(lines)@) == texts(old(lines)@) + set_descriptor_lines(*limits),
{
    put_plain(lines, "    - Max descriptor set:");
    put_number(lines, "        * Samplers: ", limits.max_descriptor_set_samplers as u64);
    put_number(
        lines,
        "        * Uniform buffers: ",
        limits.max_descriptor_set_uniform_buffers as u64,
    );
    put_number(
        lines,
        "        * Dynamic uniform buffers: ",
        limits.max_descriptor_set_uniform_buffers_dynamic as u64,
    );
    put_number(
        lines,
        "        * Storage buffers: ",
        limits.max_descriptor_set_storage_buffers as u64,
    );
    put_number(
        lines,
        "        * Dynamic storage buffers: ",
        limits.max_descriptor_set_storage_buffers_dynamic as u64,
    );
    put_number(
        lines,
        "        * Sampled images: ",
        limits.max_descriptor_set_sampled_images as u64,
    );
    put_number(
        lines,
        "        * Storage images: ",
        limits.max_descriptor_set_storage_images as u64,
    );
    put_number(
        lines,
        "        * Input attachments: ",
        limits.max_descriptor_set_input_attachments as u64,
    );
    assert(texts(lines@) =~= texts(old(lines)@) + set_descriptor_lines(*limits));
}

/// The limits on vertex input and output and on tessellation patches.
pub open spec fn vertex_lines(limits: LimitsInfo) -> Seq<Seq<char>> {
    seq![
        "    - Vertex input limits:"@,
        "        * Max attributes: "@ + numeral(limits.max_vertex_input_attributes as nat, 10),
        "        * Max bindings: "@ + numeral(limits.max_vertex_input_bindings as nat, 10),
        "        * Max attribute offset: "@
            + numeral(limits.max_vertex_input_attribute_offset as nat, 10),
        "        * Max binding stride: "@
            + numeral(limits.max_vertex_input_binding_stride as nat, 10),
        "    - Max vertex output components: "@
            + numeral(limits.max_vertex_output_components as nat, 10),
        "    - Max tesselation generation level: "@
            + numeral(limits.max_tessellation_generation_level as nat, 10),
        "    - Max tesselation patch size: "@
            + numeral(limits.max_tessellation_patch_size as nat, 10) + " vertices"@,
    ]
}

fn write_vertex_lines(lines: &mut Vec<String>, limits: &LimitsInfo)
    ensures
        texts(final(lines)@) == texts(old(lines)@) + vertex_lines(*limits),
{
    put_plain(lines, "    - Vertex input limits:");
    put_number(lines, "        * Max attributes: ", limits.max_vertex_input_attributes as u64);
    put_number(lines, "        * Max bindings: ", limits.max_vertex_input_bindings as u64);
    put_number(
        lines,
        "        * Max attribute offset: ",
        limits.max_vertex_input_attribute_offset as u64,
    );
    put_number(
        lines,
        "        * Max binding stride: ",
        limits.max_vertex_input_binding_stride as u64,
    );
    put_number(
        lines,
        "    - Max vertex output components: ",
        limits.max_vertex_output_components as u64,
    );
    put_number(
        lines,
        "    - Max tesselation generation level: ",
        limits.max_tessellation_generation_level as u64,
    );
    put_measure(
        lines,
        "    - Max tesselation patch size: ",
        limits.max_tessellation_patch_size as u64,
        " vertices",
    );
    assert(texts(lines@) =~= texts(old(lines)@) + vertex_lines(*limits));
}

/// The limits of the tessellation shaders.
pub open spec fn tessellation_lines(limits: LimitsInfo) -> Seq<Seq<char>> {
    seq![
        "    - Tesselation control shader limits:"@,
        "        * Inputs per vertex: "@
            + numeral(limits.max_tessellation_control_per_vertex_input_components as nat, 10),
        "        * Outputs per vertex: "@
            + numeral(limits.max_tessellation_control_per_vertex_output_components as nat, 10),
        "        * Outputs per patch: "@
            + numeral(limits.max_tessellation_control_per_patch_output_components as nat, 10),
        "        * Total outputs: "@
            + numeral(limits.max_tessellation_control_total_output_components as nat, 10),
        "    - Tesselation evaluation shader limits:"@,
        "        * Inputs: "@
            + numeral(limits.max_tessellation_evaluation_input_components as nat, 10),
        "        * Outputs: "@
            + numeral(limits.max_tessellation_evaluation_output_components as nat, 10),
    ]
}

fn write_tessellation_lines(lines: &mut Vec<String>, limits: &LimitsInfo)
    ensures
        texts(final(lines)@) == texts(old(lines)@) + tessellation_lines(*limits),
{
    put_plain(lines, "    - Tesselation control shader limits:");
    put_number(
        lines,
        "        * Inputs per vertex: ",
        limits.max_tessellation_control_per_vertex_input_components as u64,
    );
    put_number(
        lines,
        "        * Outputs per vertex: ",
        limits.max_tessellation_control_per_vertex_output_components as u64,
    );
    put_number(
        lines,
        "        * Outputs per patch: ",
        limits.max_tessellation_control_per_patch_output_components as u64,
    );
    put_number(
        lines,
        "        * Total outputs: ",
        limits.max_tessellation_control_total_output_components as u64,
    );
    put_plain(lines, "    - Tesselation evaluation shader limits:");
    put_number(
        lines,
        "        * Inputs: ",
        limits.max_tessellation_evaluation_input_components as u64,
    );
    put_number(
        lines,
        "        * Outputs: ",
        limits.max_tessellation_evaluation_output_components as u64,
    );
    assert(texts(lines@) =~= texts(old(lines)@) + tessellation_lines(*limits));
}

/// The limits of the geometry shader.
pub open spec fn geometry_lines(limits: LimitsInfo) -> Seq<Seq<char>> {
    seq![
        "    - Geometry shader limits:"@,
        "        * Invocations: "@ + numeral(limits.max_geometry_shader_invocations as nat, 10),
        "        * Inputs per vertex: "@
            + numeral(limits.max_geometry_input_components as nat, 10),
        "        * Outputs per vertex: "@
            + numeral(limits.max_geometry_output_components as nat, 10),
        "        * Emitted vertices: "@ + numeral(limits.max_geometry_output_vertices as nat, 10),
        "        * Total outputs: "@
            + numeral(limits.max_geometry_total_output_components as nat, 10),
    ]
}

fn write_geometry_lines(lines: &mut Vec<String>, limits: &LimitsInfo)
    ensures
        texts(final(lines)@) == texts(old(lines)@) + geometry_lines(*limits),
{
    put_plain(lines, "    - Geometry shader limits:");
    put_number(lines, "        * Invocations: ", limits.max_geometry_shader_invocations as u64);
    put_number(
        lines,
        "        * Inputs per vertex: ",
        limits.max_geometry_input_components as u64,
    );
    put_number(
        lines,
        "        * Outputs per vertex: ",
        limits.max_geometry_output_components as u64,
    );
    put_number(lines, "        * Emitted vertices: ", limits.max_geometry_output_vertices as u64);
    put_number(
        lines,
        "        * Total outputs: ",
        limits.max_geometry_total_output_components as u64,
    );
    assert(texts(lines@) =~= texts(old(lines)@) + geometry_lines(*limits));
}

/// The limits of the fragment shader.
pub open spec fn fragment_lines(limits: LimitsInfo) -> Seq<Seq<char>> {
    seq![
        "    - Fragment shader limits:"@,
        "        * Inputs: "@ + numeral(limits.max_fragment_input_components as nat, 10),
        "        * Output attachmnents: "@
            + numeral(limits.max_fragment_output_attachments as nat, 10),
        "        * Dual-source output attachments: "@
            + numeral(limits.max_fragment_dual_src_attachments as nat, 10),
        "        * Combined output resources: "@
            + numeral(limits.max_fragment_combined_output_resources as nat, 10),
    ]
}

fn write_fragment_lines(lines: &mut Vec<String>, limits: &LimitsInfo)
    ensures
        texts(final(lines)@) == texts(old(lines)@) + fragment_lines(*limits),
{
    put_plain(lines, "    - Fragment shader limits:");
    put_number(lines, "        * Inputs: ", limits.max_fragment_input_components as u64);
    put_number(
        lines,
        "        * Output attachmnents: ",
        limits.max_fragment_output_attachments as u64,
    );
    put_number(
        lines,
        "        * Dual-source output attachments: ",
        limits.max_fragment_dual_src_attachments as u64,
    );
    put_number(
        lines,
        "        * Combined output resources: ",
        limits.max_fragment_combined_output_resources as u64,
    );
    assert(texts(lines@) =~= texts(old(lines)@) + fragment_lines(*limits));
}

/// The limits of the compute shader.
pub open spec fn compute_lines(limits: LimitsInfo) -> Seq<Seq<char>> {
    seq![
        "    - Compute shader limits:"@,
        "        * Shared memory: "@
            + numeral(limits.max_compute_shared_memory_size as nat, 10) + " bytes"@,
        "        * Work group count: "@ + triple(limits.max_compute_work_group_count@),
        "        * Work group invocations: "@
            + numeral(limits.max_compute_work_group_invocations as nat, 10),
        "        * Work group size: "@ + triple(limits.max_compute_work_group_size@),
    ]
}

fn write_compute_lines(lines: &mut Vec<String>, limits: &LimitsInfo)
    ensures
        texts(final(lines)@) == texts(old(lines)@) + compute_lines(*limits),
{
    put_plain(lines, "    - Compute shader limits:");
    put_measure(
        lines,
        "        * Shared memory: ",
        limits.max_compute_shared_memory_size as u64,
        " bytes",
    );
    put_labelled(
        lines,
        "        * Work group count: ",
        triple_text(&limits.max_compute_work_group_count).as_str(),
    );
    put_number(
        lines,
        "        * Work group invocations: ",
        limits.max_compute_work_group_invocations as u64,
    );
    put_labelled(
        lines,
        "        * Work group size: ",
        triple_text(&limits.max_compute_work_group_size).as_str(),
    );
    assert(texts(lines@) =~= texts(old(lines)@) + compute_lines(*limits));
}

/// The precisions and the limits on draw calls.
pub open spec fn precision_lines(limits: LimitsInfo) -> Seq<Seq<char>> {
    seq![
        "    - Sub-pixel precision: "@
            + numeral(limits.sub_pixel_precision_bits as nat, 10) + " bits"@,
        "    - Sub-texel precision: "@
            + numeral(limits.sub_texel_precision_bits as nat, 10) + " bits"@,
        "    - Mipmap precision: "@ + numeral(limits.mipmap_precision_bits as nat, 10) + " bits"@,
        "    - Max draw index: "@ + numeral(limits.max_draw_indexed_index_value as nat, 10),
        "    - Max draws per indirect call: "@
            + numeral(limits.max_draw_indirect_count as nat, 10),
    ]
}

fn write_precision_lines(lines: &mut Vec<String>, limits: &LimitsInfo)
    ensures
        texts(final(lines)@) == texts(old(lines)@) + precision_lines(*limits),
{
    put_measure(
        lines,
        "    - Sub-pixel precision: ",
        limits.sub_pixel_precision_bits as u64,
        " bits",
    );
    put_measure(
        lines,
        "    - Sub-texel precision: ",
        limits.sub_texel_precision_bits as u64,
        " bits",
    );
    put_measure(lines, "    - Mipmap precision: ", limits.mipmap_precision_bits as u64, " bits");
    put_number(lines, "    - Max draw index: ", limits.max_draw_indexed_index_value as u64);
    put_number(
        lines,
        "    - Max draws per indirect call: ",
        limits.max_draw_indirect_count as u64,
    );
    assert(texts(lines@) =~= texts(old(lines)@) + precision_lines(*limits));
}

/// The limits on samplers and viewports.
pub open spec fn viewport_lines(limits: LimitsInfo) -> Seq<Seq<char>> {
    seq![
        "    - Max sampler LOD bias: "@ + limits.max_sampler_lod_bias@,
        "    - Max anisotropy: "@ + limits.max_sampler_anisotropy@,
        "    - Max viewports: "@ + numeral(limits.max_viewports as nat, 10),
        "    - Max viewport dimensions: "@ + pair(
            numeral(limits.max_viewport_dimensions@[0] as nat, 10),
            numeral(limits.max_viewport_dimensions@[1] as nat, 10),
        ),
        "    - Viewport bounds range: "@ + limits.viewport_bounds_range@,
        "    - Viewport subpixel precision: "@
            + numeral(limits.viewport_sub_pixel_bits as nat, 10) + " bits"@,
    ]
}

fn write_viewport_lines(lines: &mut Vec<String>, limits: &LimitsInfo)
    ensures
        texts(final(lines)@) == texts(old(lines)@) + viewport_lines(*limits),
{
    put_labelled(lines, "    - Max sampler LOD bias: ", limits.max_sampler_lod_bias.as_str());
    put_labelled(lines, "    - Max anisotropy: ", limits.max_sampler_anisotropy.as_str());
    put_number(lines, "    - Max viewports: ", limits.max_viewports as u64);
    put_labelled(
        lines,
        "    - Max viewport dimensions: ",
        pair_text(
            decimal(limits.max_viewport_dimensions[0] as u64).as_str(),
            decimal(limits.max_viewport_dimensions[1] as u64).as_str(),
        ).as_str(),
    );
    put_labelled(lines, "    - Viewport bounds range: ", limits.viewport_bounds_range.as_str());
    put_measure(
        lines,
        "    - Viewport subpixel precision: ",
        limits.viewport_sub_pixel_bits as u64,
        " bits",
    );
    assert(texts(lines@) =~= texts(old(lines)@) + viewport_lines(*limits));
}

/// The minimal alignments and the offset ranges.
pub open spec fn alignment_lines(limits: LimitsInfo) -> Seq<Seq<char>> {
    seq![
        "    - Minimal alignments:"@,
        "        * Host allocations: "@
            + numeral(limits.min_memory_map_alignment as nat, 10) + " bytes"@,
        "        * Texel buffer offset: "@
            + numeral(limits.min_texel_buffer_offset_alignment as nat, 10) + " bytes"@,
        "        * Uniform buffer offset: "@
            + numeral(limits.min_uniform_buffer_offset_alignment as nat, 10) + " bytes"@,
        "        * Storage buffer offset: "@
            + numeral(limits.min_storage_buffer_offset_alignment as nat, 10) + " bytes"@,
        "    - Offset ranges:"@,
        "        * Texel fetch: "@ + pair(
            signed_numeral(limits.min_texel_offset as int),
            numeral(limits.max_texel_offset as nat, 10),
        ),
        "        * Texel gather: "@ + pair(
            signed_numeral(limits.min_texel_gather_offset as int),
            numeral(limits.max_texel_gather_offset as nat, 10),
        ),
        "        * Interpolation: "@
            + pair(limits.min_interpolation_offset@, limits.max_interpolation_offset@),
        "    - Sub-pixel interpolation rounding: "@
            + numeral(limits.sub_pixel_interpolation_offset_bits as nat, 10) + " bits"@,
    ]
}

fn write_alignment_lines(lines: &mut Vec<String>, limits: &LimitsInfo)
    ensures
        texts(final(lines)@) == texts(old(lines)@) + alignment_lines(*limits),
{
    put_plain(lines, "    - Minimal alignments:");
    put_measure(
        lines,
        "        * Host allocations: ",
        limits.min_memory_map_alignment as u64,
        " bytes",
    );
    put_measure(
        lines,
        "        * Texel buffer offset: ",
        limits.min_texel_buffer_offset_alignment as u64,
        " bytes",
    );
    put_measure(
        lines,
        "        * Uniform buffer offset: ",
        limits.min_uniform_buffer_offset_alignment as u64,
        " bytes",
    );
    put_measure(
        lines,
        "        * Storage buffer offset: ",
        limits.min_storage_buffer_offset_alignment as u64,
        " bytes",
    );
    put_plain(lines, "    - Offset ranges:");
    put_labelled(
        lines,
        "        * Texel fetch: ",
        pair_text(
            signed_decimal(limits.min_texel_offset).as_str(),
            decimal(limits.max_texel_offset as u64).as_str(),
        ).as_str(),
    );
    put_labelled(
        lines,
        "        * Texel gather: ",
        pair_text(
            signed_decimal(limits.min_texel_gather_offset).as_str(),
            decimal(limits.max_texel_gather_offset as u64).as_str(),
        ).as_str(),
    );
    put_labelled(
        lines,
        "        * Interpolation: ",
        pair_text(
            limits.min_interpolation_offset.as_str(),
            limits.max_interpolation_offset.as_str(),
        ).as_str(),
    );
    put_measure(
        lines,
        "    - Sub-pixel interpolation rounding: ",
        limits.sub_pixel_interpolation_offset_bits as u64,
        " bits",
    );
    assert(texts(lines@) =~= texts(old(lines)@) + alignment_lines(*limits));
}

/// The limits on framebuffers.
pub open spec fn framebuffer_lines(limits: LimitsInfo) -> Seq<Seq<char>> {
    seq![
        "    - Framebuffer limits:"@,
        "        * Max size: "@ + pair(
            numeral(limits.max_framebuffer_width as nat, 10),
            numeral(limits.max_framebuffer_height as nat, 10),
        ),
        "        * Max layers: "@ + numeral(limits.max_framebuffer_layers as nat, 10),
        "        * Supported color sample counts: 0b"@
            + numeral(limits.framebuffer_color_sample_counts as nat, 2),
        "        * Supported depth sample counts: 0b"@
            + numeral(limits.framebuffer_depth_sample_counts as nat, 2),
        "        * Supported stencil sample counts: 0b"@
            + numeral(limits.framebuffer_stencil_sample_counts as nat, 2),
        "        * Supported detached sample counts: 0b"@
            + numeral(limits.framebuffer_no_attachments_sample_counts as nat, 2),
        "    - Max subpass color attachments: "@
            + numeral(limits.max_color_attachments as nat, 10),
    ]
}

fn write_framebuffer_lines(lines: &mut Vec<String>, limits: &LimitsInfo)
    ensures
        texts(final(lines)@) == texts(old(lines)@) + framebuffer_lines(*limits),
{
    put_plain(lines, "    - Framebuffer limits:");
    put_labelled(
        lines,
        "        * Max size: ",
        pair_text(
            decimal(limits.max_framebuffer_width as u64).as_str(),
            decimal(limits.max_framebuffer_height as u64).as_str(),
        ).as_str(),
    );
    put_number(lines, "        * Max layers: ", limits.max_framebuffer_layers as u64);
    put_bits(
        lines,
        "        * Supported color sample counts: 0b",
        limits.framebuffer_color_sample_counts,
    );
    put_bits(
        lines,
        "        * Supported depth sample counts: 0b",
        limits.framebuffer_depth_sample_counts,
    );
    put_bits(
        lines,
        "        * Supported stencil sample counts: 0b",
        limits.framebuffer_stencil_sample_counts,
    );
    put_bits(
        lines,
        "        * Supported detached sample counts: 0b",
        limits.framebuffer_no_attachments_sample_counts,
    );
    put_number(
        lines,
        "    - Max subpass color attachments: ",
        limits.max_color_attachments as u64,
    );
    assert(texts(lines@) =~= texts(old(lines)@) + framebuffer_lines(*limits));
}

/// The sample counts for sampled and storage images.
pub open spec fn sample_count_lines(limits: LimitsInfo) -> Seq<Seq<char>> {
    seq![
        "    - Supported sample counts for sampled images:"@,
        "        * Non-integer color: 0b"@
            + numeral(limits.sampled_image_color_sample_counts as nat, 2),
        "        * Integer color: 0b"@
            + numeral(limits.sampled_image_integer_sample_counts as nat, 2),
        "        * Depth: 0b"@ + numeral(limits.sampled_image_depth_sample_counts as nat, 2),
        "        * Stencil: 0b"@ + numeral(limits.sampled_image_stencil_sample_counts as nat, 2),
        "    - Supported storage image sample counts: 0b"@
            + numeral(limits.storage_image_sample_counts as nat, 2),
        "    - Max SampleMask words: "@ + numeral(limits.max_sample_mask_words as nat, 10),
    ]
}

fn write_sample_count_lines(lines: &mut Vec<String>, limits: &LimitsInfo)
    ensures
        texts(final(lines)@) == texts(old(lines)@) + sample_count_lines(*limits),
{
    put_plain(lines, "    - Supported sample counts for sampled images:");
    put_bits(lines, "        * Non-integer color: 0b", limits.sampled_image_color_sample_counts);
    put_bits(lines, "        * Integer color: 0b", limits.sampled_image_integer_sample_counts);
    put_bits(lines, "        * Depth: 0b", limits.sampled_image_depth_sample_counts);
    put_bits(lines, "        * Stencil: 0b", limits.sampled_image_stencil_sample_counts);
    put_bits(
        lines,
        "    - Supported storage image sample counts: 0b",
        limits.storage_image_sample_counts,
    );
    put_number(lines, "    - Max SampleMask words: ", limits.max_sample_mask_words as u64);
    assert(texts(lines@) =~= texts(old(lines)@) + sample_count_lines(*limits));
}

/// Timestamps, clip and cull distances, queue priorities.
pub open spec fn distance_lines(limits: LimitsInfo) -> Seq<Seq<char>> {
    seq![
        "    - Timestamp support on compute and graphics queues: "@
            + truth(limits.timestamp_compute_and_graphics != 0),
        "    - Timestamp period: "@ + limits.timestamp_period@ + " ns"@,
        "    - Max clip distances: "@ + numeral(limits.max_clip_distances as nat, 10),
        "    - Max cull distances: "@ + numeral(limits.max_cull_distances as nat, 10),
        "    - Max clip and cull distances: "@
            + numeral(limits.max_combined_clip_and_cull_distances as nat, 10),
        "    - Discrete queue priorities: "@
            + numeral(limits.discrete_queue_priorities as nat, 10),
    ]
}

fn write_distance_lines(lines: &mut Vec<String>, limits: &LimitsInfo)
    ensures
        texts(final(lines)@) == texts(old(lines)@) + distance_lines(*limits),
{
    put_flag(
        lines,
        "    - Timestamp support on compute and graphics queues: ",
        limits.timestamp_compute_and_graphics != 0,
    );
    put(lines, measured("    - Timestamp period: ", limits.timestamp_period.as_str(), " ns"));
    put_number(lines, "    - Max clip distances: ", limits.max_clip_distances as u64);
    put_number(lines, "    - Max cull distances: ", limits.max_cull_distances as u64);
    put_number(
        lines,
        "    - Max clip and cull distances: ",
        limits.max_combined_clip_and_cull_distances as u64,
    );
    put_number(
        lines,
        "    - Discrete queue priorities: ",
        limits.discrete_queue_priorities as u64,
    );
    assert(texts(lines@) =~= texts(old(lines)@) + distance_lines(*limits));
}

/// The limits on points and lines.
pub open spec fn raster_lines(limits: LimitsInfo) -> Seq<Seq<char>> {
    seq![
        "    - Point size range: "@ + limits.point_size_range@,
        "    - Line width range: "@ + limits.line_width_range@,
        "    - Point size granularity: "@ + limits.point_size_granularity@,
        "    - Line width granularity: "@ + limits.line_width_granularity@,
        "    - Strict line rasterization: "@ + truth(limits.strict_lines != 0),
        "    - Standard sample locations: "@ + truth(limits.standard_sample_locations != 0),
    ]
}

fn write_raster_lines(lines: &mut Vec<String>, limits: &LimitsInfo)
    ensures
        texts(final(lines)@) == texts(old(lines)@) + raster_lines(*limits),
{
    put_labelled(lines, "    - Point size range: ", limits.point_size_range.as_str());
    put_labelled(lines, "    - Line width range: ", limits.line_width_range.as_str());
    put_labelled(lines, "    - Point size granularity: ", limits.point_size_granularity.as_str());
    put_labelled(lines, "    - Line width granularity: ", limits.line_width_granularity.as_str());
    put_flag(lines, "    - Strict line rasterization: ", limits.strict_lines != 0);
    put_flag(lines, "    - Standard sample locations: ", limits.standard_sample_locations != 0);
    assert(texts(lines@) =~= texts(old(lines)@) + raster_lines(*limits));
}

/// The alignments for buffer copies.
pub open spec fn copy_lines(limits: LimitsInfo) -> Seq<Seq<char>> {
    seq![
        "    - Optimal buffer copy offset alignment: "@
            + numeral(limits.optimal_buffer_copy_offset_alignment as nat, 10) + " bytes"@,
        "    - Optimal buffer copy row pitch alignment: "@
            + numeral(limits.optimal_buffer_copy_row_pitch_alignment as nat, 10) + " bytes"@,
        "    - Non-coherent atom size: "@
            + numeral(limits.non_coherent_atom_size as nat, 10) + " bytes"@,
    ]
}

fn write_copy_lines(lines: &mut Vec<String>, limits: &LimitsInfo)
    ensures
        texts(final(lines)@) == texts(old(lines)@) + copy_lines(*limits),
{
    put_measure(
        lines,
        "    - Optimal buffer copy offset alignment: ",
        limits.optimal_buffer_copy_offset_alignment as u64,
        " bytes",
    );
    put_measure(
        lines,
        "    - Optimal buffer copy row pitch alignment: ",
        limits.optimal_buffer_copy_row_pitch_alignment as u64,
        " bytes",
    );
    put_measure(
        lines,
        "    - Non-coherent atom size: ",
        limits.non_coherent_atom_size as u64,
        " bytes",
    );
    assert(texts(lines@) =~= texts(old(lines)@) + copy_lines(*limits));
}

/// The part of the report that lists the limits of a device.
pub open spec fn limit_lines(limits: LimitsInfo) -> Seq<Seq<char>> {
    image_lines(limits)
        + buffer_lines(limits)
        + stage_descriptor_lines(limits)
        + set_descriptor_lines(limits)
        + vertex_lines(limits)
        + tessellation_lines(limits)
        + geometry_lines(limits)
        + fragment_lines(limits)
        + compute_lines(limits)
        + precision_lines(limits)
        + viewport_lines(limits)
        + alignment_lines(limits)
        + framebuffer_lines(limits)
        + sample_count_lines(limits)
        + distance_lines(limits)
        + raster_lines(limits)
        + copy_lines(limits)
}

/// Adds the limits of a device to a report, one line for each.
pub fn write_limit_lines(lines: &mut Vec<String>, limits: &LimitsInfo)
    ensures
        texts(final(lines)@) == texts(old(lines)@) + limit_lines(*limits),
{
    let ghost start = texts(lines@);
    write_image_lines(lines, limits);
    let ghost done = image_lines(*limits);
    write_buffer_lines(lines, limits);
    assert(texts(lines@) == start + (done + buffer_lines(*limits))) by {
        lemma_concat_twice(start, done, buffer_lines(*limits));
    }
    let ghost done = done + buffer_lines(*limits);
    write_stage_descriptor_lines(lines, limits);
    assert(texts(lines@) == start + (done + stage_descriptor_lines(*limits))) by {
        lemma_concat_twice(start, done, stage_descriptor_lines(*limits));
    }
    let ghost done = done + stage_descriptor_lines(*limits);
    write_set_descriptor_lines(lines, limits);
    assert(texts(lines@) == start + (done + set_descriptor_lines(*limits))) by {
        lemma_concat_twice(start, done, set_descriptor_lines(*limits));
    }
    let ghost done = done + set_descriptor_lines(*limits);
    write_vertex_lines(lines, limits);
    assert(texts(lines@) == start + (done + vertex_lines(*limits))) by {
        lemma_concat_twice(start, done, vertex_lines(*limits));
    }
    let ghost done = done + vertex_lines(*limits);
    write_tessellation_lines(lines, limits);
    assert(texts(lines@) == start + (done + tessellation_lines(*limits))) by {
        lemma_concat_twice(start, done, tessellation_lines(*limits));
    }
    let ghost done = done + tessellation_lines(*limits);
    write_geometry_lines(lines, limits);
    assert(texts(lines@) == start + (done + geometry_lines(*limits))) by {
        lemma_concat_twice(start, done, geometry_lines(*limits));
    }
    let ghost done = done + geometry_lines(*limits);
    write_fragment_lines(lines, limits);
    assert(texts(lines@) == start + (done + fragment_lines(*limits))) by {
        lemma_concat_twice(start, done, fragment_lines(*limits));
    }
    let ghost done = done + fragment_lines(*limits);
    write_compute_lines(lines, limits);
    assert(texts(lines@) == start + (done + compute_lines(*limits))) by {
        lemma_concat_twice(start, done, compute_lines(*limits));
    }
    let ghost done = done + compute_lines(*limits);
    write_precision_lines(lines, limits);
    assert(texts(lines@) == start + (done + precision_lines(*limits))) by {
        lemma_concat_twice(start, done, precision_lines(*limits));
    }
    let ghost done = done + precision_lines(*limits);
    write_viewport_lines(lines, limits);
    assert(texts(lines@) == start + (done + viewport_lines(*limits))) by {
        lemma_concat_twice(start, done, viewport_lines(*limits));
    }
    let ghost done = done + viewport_lines(*limits);
    write_alignment_lines(lines, limits);
    assert(texts(lines@) == start + (done + alignment_lines(*limits))) by {
        lemma_concat_twice(start, done, alignment_lines(*limits));
    }
    let ghost done = done + alignment_lines(*limits);
    write_framebuffer_lines(lines, limits);
    assert(texts(lines@) == start + (done + framebuffer_lines(*limits))) by {
        lemma_concat_twice(start, done, framebuffer_lines(*limits));
    }
    let ghost done = done + framebuffer_lines(*limits);
    write_sample_count_lines(lines, limits);
    assert(texts(lines@) == start + (done + sample_count_lines(*limits))) by {
        lemma_concat_twice(start, done, sample_count_lines(*limits));
    }
    let ghost done = done + sample_count_lines(*limits);
    write_distance_lines(lines, limits);
    assert(texts(lines@) == start + (done + distance_lines(*limits))) by {
        lemma_concat_twice(start, done, distance_lines(*limits));
    }
    let ghost done = done + distance_lines(*limits);
    write_raster_lines(lines, limits);
    assert(texts(lines@) == start + (done + raster_lines(*limits))) by {
        lemma_concat_twice(start, done, raster_lines(*limits));
    }
    let ghost done = done + raster_lines(*limits);
    write_copy_lines(lines, limits);
    assert(texts(lines@) == start + (done + copy_lines(*limits))) by {
        lemma_concat_twice(start, done, copy_lines(*limits));
    }
    let ghost done = done + copy_lines(*limits);
}

} // verus!
