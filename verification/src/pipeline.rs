//! The pipeline that draws the shared texture to a frame: what its shaders are given,
//! how it draws, and the pass that it draws in.
use vstd::prelude::*;

use crate::command::Color;

verus! {

/// The shader's binding of the texture it samples.
pub const TEXTURE_BINDING: u32 = 0;

/// The shader's binding of the sampler.
pub const SAMPLER_BINDING: u32 = 1;

/// The `wgpu::ShaderStages` bit of the fragment shader.
pub const STAGE_FRAGMENT: u32 = 0x2;

/// All of the `wgpu::ColorWrites` bits.
pub const WRITE_ALL: u32 = 0xF;

/// The entry point of the vertex shader.
pub const VERTEX_ENTRY: &'static str = "vs";

/// The entry point of the fragment shader.
pub const FRAGMENT_ENTRY: &'static str = "fs";

/// The dimension of a texture view.
#[derive(Clone, Copy, Debug, PartialEq, Eq, Structural)]
pub enum ViewDimension {
    D2,
}

/// What a shader makes of the texels of a texture.
#[derive(Clone, Copy, Debug, PartialEq, Eq, Structural)]
pub enum SampleType {
    Float { filterable: bool },
}

/// How a sampler reads between texels.
#[derive(Clone, Copy, Debug, PartialEq, Eq, Structural)]
pub enum SamplerKind {
    Filtering,
    NonFiltering,
}

/// What is bound for a shader.
#[derive(Clone, Copy, Debug, PartialEq, Eq, Structural)]
pub enum BindingKind {
    Texture { multisampled: bool, dimension: ViewDimension, sample_type: SampleType },
    Sampler(SamplerKind),
}

/// One binding of a bind group layout.
#[derive(Clone, Copy, Debug, PartialEq, Eq, Structural)]
pub struct LayoutEntry {
    pub binding: u32,
    /// The `wgpu::ShaderStages` bits of the shaders that see the binding.
    pub visibility: u32,
    pub kind: BindingKind,
    /// The length of the array that is bound, if it is one.
    pub count: Option<u32>,
}

/// A bind group layout of exactly two entries, in this order.
#[derive(Clone, Copy, Debug, PartialEq, Eq, Structural)]
pub struct GroupLayout {
    pub texture: LayoutEntry,
    pub sampler: LayoutEntry,
}

/// A texture of filterable floating point numbers and a filtering sampler, both for the
/// fragment shader.
pub open spec fn spec_group_layout() -> GroupLayout {
    GroupLayout {
        texture: LayoutEntry {
            binding: TEXTURE_BINDING,
            visibility: STAGE_FRAGMENT,
            kind: BindingKind::Texture {
                multisampled: false,
                dimension: ViewDimension::D2,
                sample_type: SampleType::Float { filterable: true },
            },
            count: None,
        },
        sampler: LayoutEntry {
            binding: SAMPLER_BINDING,
            visibility: STAGE_FRAGMENT,
            kind: BindingKind::Sampler(SamplerKind::Filtering),
            count: None,
        },
    }
}

/// A texture of filterable floating point numbers and a filtering sampler, both for the
/// fragment shader.
pub fn group_layout() -> (layout: GroupLayout)
    ensures
        layout == spec_group_layout(),
{
    GroupLayout {
        texture: LayoutEntry {
            binding: TEXTURE_BINDING,
            visibility: STAGE_FRAGMENT,
            kind: BindingKind::Texture {
                multisampled: false,
                dimension: ViewDimension::D2,
                sample_type: SampleType::Float { filterable: true },
            },
            count: None,
        },
        sampler: LayoutEntry {
            binding: SAMPLER_BINDING,
            visibility: STAGE_FRAGMENT,
            kind: BindingKind::Sampler(SamplerKind::Filtering),
            count: None,
        },
    }
}

/// What a pipeline is given: so many bind groups, each laid out by the one bind group
/// layout that there is, and so many bytes of immediate data.
#[derive(Clone, Copy, Debug, PartialEq, Eq, Structural)]
pub struct PipelineLayout {
    pub bind_groups: u32,
    pub immediate_size: u32,
}

/// One bind group, at index 0, and no immediate data.
pub open spec fn spec_pipeline_layout() -> PipelineLayout {
    PipelineLayout { bind_groups: 1, immediate_size: 0 }
}

/// One bind group, at index 0, and no immediate data.
pub fn pipeline_layout() -> (layout: PipelineLayout)
    ensures
        layout == spec_pipeline_layout(),
{
    PipelineLayout { bind_groups: 1, immediate_size: 0 }
}

/// How vertices make up primitives.
#[derive(Clone, Copy, Debug, PartialEq, Eq, Structural)]
pub enum Topology {
    /// Each three vertices are a triangle.
    TriangleList,
}

/// How what is drawn is put over what is there.
#[derive(Clone, Copy, Debug, PartialEq, Eq, Structural)]
pub enum Blend {
    Replace,
}

/// A pipeline of the one shader module and the one pipeline layout that there are. What
/// is not named here has wgpu's default.
#[derive(Clone, Copy, Debug, PartialEq, Eq)]
pub struct PipelineDescriptor {
    pub vertex_entry: &'static str,
    pub vertex_buffers: u32,
    pub fragment_entry: &'static str,
    /// The format of the one color target.
    pub target_format: wgpu::TextureFormat,
    pub blend: Blend,
    /// `wgpu::ColorWrites` bits.
    pub write_mask: u32,
    pub topology: Topology,
    pub sample_count: u32,
    /// The format of the depth and stencil attachment, if there is one.
    pub depth_stencil: Option<wgpu::TextureFormat>,
    pub multiview_mask: Option<u32>,
}

/// The pipeline that draws triangles to targets of the given format, without vertex
/// buffers, depth or stencil, and over whatever is there.
pub open spec fn spec_render_pipeline(format: wgpu::TextureFormat) -> PipelineDescriptor {
    PipelineDescriptor {
        vertex_entry: VERTEX_ENTRY,
        vertex_buffers: 0,
        fragment_entry: FRAGMENT_ENTRY,
        target_format: format,
        blend: Blend::Replace,
        write_mask: WRITE_ALL,
        topology: Topology::TriangleList,
        sample_count: 1,
        depth_stencil: None,
        multiview_mask: None,
    }
}

/// The pipeline that draws triangles to targets of the given format, without vertex
/// buffers, depth or stencil, and over whatever is there.
pub fn render_pipeline(format: wgpu::TextureFormat) -> (described: PipelineDescriptor)
    ensures
        described == spec_render_pipeline(format),
{
    PipelineDescriptor {
        vertex_entry: VERTEX_ENTRY,
        vertex_buffers: 0,
        fragment_entry: FRAGMENT_ENTRY,
        target_format: format,
        blend: Blend::Replace,
        write_mask: WRITE_ALL,
        topology: Topology::TriangleList,
        sample_count: 1,
        depth_stencil: None,
        multiview_mask: None,
    }
}

/// A texture view that a pass can have attached.
#[derive(Clone, Copy, Debug, PartialEq, Eq, Structural)]
pub enum Attachment {
    /// The view of the surface's frame.
    Frame,
}

/// What becomes of a color attachment when the pass ends.
#[derive(Clone, Copy, Debug, PartialEq, Eq, Structural)]
pub enum StoreOperation {
    Store,
    Discard,
}

/// A pass with one color attachment, which is cleared, and one draw with the pipeline
/// and the bind group that there are.
#[derive(Clone, Copy, Debug, PartialEq, Eq, Structural)]
pub struct PassDescriptor {
    pub color_attachment: Attachment,
    pub clear: Color,
    pub store: StoreOperation,
    pub resolve_target: Option<Attachment>,
    pub depth_slice: Option<u32>,
    pub depth_stencil: Option<Attachment>,
    /// Where the bind group is set, with the offset into its buffers, if there is one.
    pub bind_group_index: u32,
    pub dynamic_offset: Option<u32>,
    /// The vertices and instances that are drawn, from the first to before the end.
    pub first_vertex: u32,
    pub end_vertex: u32,
    pub first_instance: u32,
    pub end_instance: u32,
}

/// The color behind the shared texture.
pub open spec fn spec_frame_background() -> Color {
    Color { red: 1, green: 2, blue: 3, alpha: 10 }
}

/// The color behind the shared texture.
pub fn frame_background() -> (color: Color)
    ensures
        color == spec_frame_background(),
{
    Color { red: 1, green: 2, blue: 3, alpha: 10 }
}

/// The pass that clears the frame and draws a quad of two triangles to it, and keeps
/// what was drawn.
pub open spec fn spec_frame_pass() -> PassDescriptor {
    PassDescriptor {
        color_attachment: Attachment::Frame,
        clear: spec_frame_background(),
        store: StoreOperation::Store,
        resolve_target: None,
        depth_slice: None,
        depth_stencil: None,
        bind_group_index: 0,
        dynamic_offset: None,
        first_vertex: 0,
        end_vertex: 6,
        first_instance: 0,
        end_instance: 1,
    }
}

/// The pass that clears the frame and draws a quad of two triangles to it, and keeps
/// what was drawn.
pub fn frame_pass() -> (pass: PassDescriptor)
    ensures
        pass == spec_frame_pass(),
{
    PassDescriptor {
        color_attachment: Attachment::Frame,
        clear: frame_background(),
        store: StoreOperation::Store,
        resolve_target: None,
        depth_slice: None,
        depth_stencil: None,
        bind_group_index: 0,
        dynamic_offset: None,
        first_vertex: 0,
        end_vertex: 6,
        first_instance: 0,
        end_instance: 1,
    }
}

/// The shaders see a texture at binding 0 and a sampler at binding 1, both in the fragment
/// shader and neither an array; the texture is flat, has one sample and can be filtered, as
/// the sampler does. The pipeline has one bind group, so that it is set at index 0.
pub proof fn fragment_shader_samples_a_texture()
    ensures
        ({
            let layout = spec_group_layout();
            &&& layout.texture.binding == 0 && layout.sampler.binding == 1
            &&& layout.texture.visibility == 0x2 && layout.sampler.visibility == 0x2
            &&& layout.texture.count is None && layout.sampler.count is None
            &&& layout.texture.kind matches BindingKind::Texture {
                multisampled,
                dimension,
                sample_type,
            }
            &&& !multisampled && dimension is D2 && sample_type == SampleType::Float {
                filterable: true,
            }
            &&& layout.sampler.kind == BindingKind::Sampler(SamplerKind::Filtering)
            &&& spec_pipeline_layout().bind_groups == 1
            &&& spec_pipeline_layout().immediate_size == 0
        }),
{
}

/// Whatever the format, the pipeline draws triangles to targets of that format, all of the
/// color over whatever is there, with the two entry points of the shader and with neither
/// vertex buffers nor depth, stencil, multiple samples or views.
pub proof fn pipeline_draws_to_the_format(format: wgpu::TextureFormat)
    ensures
        ({
            let pipeline = spec_render_pipeline(format);
            &&& pipeline.target_format == format
            &&& pipeline.vertex_entry@ == "vs"@ && pipeline.fragment_entry@ == "fs"@
            &&& pipeline.vertex_buffers == 0
            &&& pipeline.blend is Replace && pipeline.write_mask == 0xF
            &&& pipeline.topology is TriangleList && pipeline.sample_count == 1
            &&& pipeline.depth_stencil is None && pipeline.multiview_mask is None
        }),
{
}

/// The pass clears the frame to a dark blue, draws two triangles once with the bind group
/// where the pipeline has it, and keeps what was drawn, in the frame alone.
pub proof fn pass_draws_a_quad_to_the_frame()
    ensures
        ({
            let pass = spec_frame_pass();
            &&& pass.color_attachment is Frame && pass.store is Store
            &&& pass.clear == Color { red: 1, green: 2, blue: 3, alpha: 10 }
            &&& pass.resolve_target is None && pass.depth_slice is None
            &&& pass.depth_stencil is None && pass.dynamic_offset is None
            &&& pass.bind_group_index < spec_pipeline_layout().bind_groups
            &&& pass.first_vertex == 0 && pass.end_vertex == 6
            &&& pass.first_instance == 0 && pass.end_instance == 1
        }),
{
}

} // verus!
