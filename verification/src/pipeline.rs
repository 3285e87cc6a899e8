//! The fixed-function and binding configuration a graphics pipeline is built
//! with.
//!
//! The pipeline is rebuilt once per swapchain generation; everything except
//! the viewport extent and the multisample count is a fixed choice, and the
//! binding layout is derived purely from the shader interface.

use vstd::prelude::*;

use crate::swapchain::Extent;

verus! {

/// What the two shader programs consume and produce, as reflected from the
/// compiled programs.
pub struct ShaderInterface {
    /// The vertex-input locations the vertex program reads, in location
    /// order.
    pub vertex_input_locations: Vec<u32>,
    /// The `(set, binding)` pairs the programs read uniforms from.
    pub uniform_bindings: Vec<(u32, u32)>,
    /// How many color outputs the fragment program writes.
    pub color_output_count: u32,
}

/// The sample counts the graphics API can name.
pub open spec fn valid_sample_count(samples: u32) -> bool {
    samples == 1 || samples == 2 || samples == 4 || samples == 8 || samples == 16 || samples == 32
        || samples == 64
}

/// Everything a swapchain generation's graphics pipeline is created with.
pub struct PipelineConfig {
    /// The viewport covers the full render target, so its offset is zero.
    pub viewport_offset_x: u32,
    pub viewport_offset_y: u32,
    pub viewport_extent: Extent,
    pub sample_count: u32,
    /// No culling: every triangle is rasterized.
    pub culling_enabled: bool,
    /// No depth test: later draws overwrite earlier ones.
    pub depth_test_enabled: bool,
    /// Non-indexed triangle-list input assembly.
    pub uses_index_buffer: bool,
    /// One entry per color output; blending is disabled on each, so writes
    /// are opaque overwrites.
    pub blend_enabled: Vec<bool>,
    /// The binding layout, derived from the shader interface alone.
    pub descriptor_bindings: Vec<(u32, u32)>,
    /// The vertex input layout, from the shader interface alone.
    pub vertex_input_locations: Vec<u32>,
}

impl PipelineConfig {
    /// The fixed choices of the pipeline builder, for a given target extent,
    /// sample count, and shader interface.
    pub open spec fn wf_for(
        self,
        extent: Extent,
        samples: u32,
        shader: ShaderInterface,
    ) -> bool {
        &&& self.viewport_offset_x == 0
        &&& self.viewport_offset_y == 0
        &&& self.viewport_extent == extent
        &&& self.sample_count == samples
        &&& !self.culling_enabled
        &&& !self.depth_test_enabled
        &&& !self.uses_index_buffer
        &&& self.blend_enabled@.len() == shader.color_output_count
        &&& forall|i: int| 0 <= i < self.blend_enabled@.len() ==> !(#[trigger] self.blend_enabled@[i])
        &&& self.descriptor_bindings@ == shader.uniform_bindings@
        &&& self.vertex_input_locations@ == shader.vertex_input_locations@
    }
}

/// A copy of a vector of plain values.
pub fn copy_vec<T: Copy>(v: &Vec<T>) -> (out: Vec<T>)
    ensures
        out@ == v@,
{
    let mut out: Vec<T> = Vec::new();
    let mut i: usize = 0;
    while i < v.len()
        invariant
            i <= v@.len(),
            out@ == v@.take(i as int),
        decreases v@.len() - i,
    {
        out.push(v[i]);
        proof {
            assert(out@ =~= v@.take(i as int + 1));
        }
        i = i + 1;
    }
    proof {
        assert(out@ =~= v@);
    }
    out
}

/// Builds the pipeline configuration for one swapchain generation: one full
/// viewport at offset zero, triangle-list input without an index buffer,
/// standard rasterization with no culling and no depth test, the configured
/// multisample count, blending disabled on every color output, and the
/// binding layout taken from the shader interface.
pub fn build_pipeline_config(
    extent: Extent,
    sample_count: u32,
    shader: &ShaderInterface,
) -> (config: PipelineConfig)
    requires
        valid_sample_count(sample_count),
    ensures
        config.wf_for(extent, sample_count, *shader),
{
    let mut blend_enabled: Vec<bool> = Vec::new();
    let mut i: u32 = 0;
    while i < shader.color_output_count
        invariant
            i <= shader.color_output_count,
            blend_enabled@.len() == i,
            forall|k: int| 0 <= k < blend_enabled@.len() ==> !(#[trigger] blend_enabled@[k]),
        decreases shader.color_output_count - i,
    {
        blend_enabled.push(false);
        i = i + 1;
    }
    PipelineConfig {
        viewport_offset_x: 0,
        viewport_offset_y: 0,
        viewport_extent: extent,
        sample_count,
        culling_enabled: false,
        depth_test_enabled: false,
        uses_index_buffer: false,
        blend_enabled,
        descriptor_bindings: copy_vec(&shader.uniform_bindings),
        vertex_input_locations: copy_vec(&shader.vertex_input_locations),
    }
}

} // verus!
