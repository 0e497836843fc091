//! What the setup asks of the GPU: every choice that goes into the surface, the
//! buffers, the uniform binding and the render pipeline, as plain values.
//!
//! Only the choices that the viewer makes are written down. Whatever a
//! descriptor of the graphics API holds beyond them is left at its default by
//! the caller.

use vstd::prelude::*;
use crate::frame::{IndexFormat, Size};
use crate::geometry::{
    quad_indices, quad_vertices, Vertex, VertexBufferLayout, VertexStepMode, VERTEX_SIZE,
};
use crate::layout::GLOBALS_SIZE;

verus! {

/// Which adapter is preferred where there are several.
#[derive(Clone, Copy, Debug, PartialEq, Eq, Structural)]
pub enum PowerPreference {
    LowPower,
    HighPerformance,
}

/// How finished frames reach the display.
#[derive(Clone, Copy, Debug, PartialEq, Eq, Structural)]
pub enum PresentMode {
    AutoVsync,
    AutoNoVsync,
    /// Frames wait in a queue for the display's refresh: no tearing, and the
    /// frame rate is capped by the display.
    Fifo,
    FifoRelaxed,
    Immediate,
    Mailbox,
}

/// What is asked of the adapter.
#[derive(Clone, Copy, Debug, PartialEq, Eq, Structural)]
pub struct AdapterRequest {
    pub power_preference: PowerPreference,
    pub force_fallback_adapter: bool,
    /// The adapter must be able to present to the window's surface.
    pub compatible_with_surface: bool,
}

/// How the surface is configured.
#[derive(Clone, Copy, Debug, PartialEq, Eq, Structural)]
pub struct SurfaceConfig {
    /// The surface's textures are used as render attachments and nothing else.
    pub render_attachment_only: bool,
    /// Position of the chosen format in the list that the surface supports.
    pub format_index: usize,
    pub size: Size,
    pub present_mode: PresentMode,
}

/// The uses that a buffer is created for.
#[derive(Clone, Copy, Debug, PartialEq, Eq, Structural)]
pub struct BufferUsages {
    pub vertex: bool,
    pub index: bool,
    pub uniform: bool,
    pub copy_dst: bool,
}

/// A buffer to create.
#[derive(Clone, Copy, Debug, PartialEq, Eq, Structural)]
pub struct BufferPlan {
    /// Number of bytes of the buffer.
    pub size: u64,
    pub usage: BufferUsages,
    pub mapped_at_creation: bool,
}

/// The shader stages that can see a binding.
#[derive(Clone, Copy, Debug, PartialEq, Eq, Structural)]
pub struct ShaderStages {
    pub vertex: bool,
    pub fragment: bool,
    pub compute: bool,
}

/// How a shader sees a bound buffer.
#[derive(Clone, Copy, Debug, PartialEq, Eq, Structural)]
pub enum BufferBindingType {
    Uniform,
    Storage,
    ReadOnlyStorage,
}

/// The one binding of the viewer: the uniform buffer, whole.
#[derive(Clone, Copy, Debug, PartialEq, Eq, Structural)]
pub struct BindingPlan {
    /// Bind group that the binding belongs to.
    pub group: u32,
    /// Binding slot in the group.
    pub binding: u32,
    pub visibility: ShaderStages,
    pub ty: BufferBindingType,
    pub has_dynamic_offset: bool,
    pub min_binding_size: Option<u64>,
    /// Number of array elements; `None` for a binding that is no array.
    pub count: Option<u32>,
}

/// How vertices are assembled into primitives.
#[derive(Clone, Copy, Debug, PartialEq, Eq, Structural)]
pub enum PrimitiveTopology {
    PointList,
    LineList,
    LineStrip,
    TriangleList,
    TriangleStrip,
}

/// The winding of a triangle's front face.
#[derive(Clone, Copy, Debug, PartialEq, Eq, Structural)]
pub enum FrontFace {
    Ccw,
    Cw,
}

/// A face of a triangle.
#[derive(Clone, Copy, Debug, PartialEq, Eq, Structural)]
pub enum Face {
    Front,
    Back,
}

/// How polygons are rasterized.
#[derive(Clone, Copy, Debug, PartialEq, Eq, Structural)]
pub enum PolygonMode {
    Fill,
    Line,
    Point,
}

/// The primitive state of the pipeline.
#[derive(Clone, Copy, Debug, PartialEq, Eq, Structural)]
pub struct PrimitiveState {
    pub topology: PrimitiveTopology,
    pub strip_index_format: Option<IndexFormat>,
    pub front_face: FrontFace,
    /// The face that is not drawn; `None` draws both.
    pub cull_mode: Option<Face>,
    pub unclipped_depth: bool,
    pub polygon_mode: PolygonMode,
    pub conservative: bool,
}

/// How the fragment stage's output is combined with what the target holds.
#[derive(Clone, Copy, Debug, PartialEq, Eq, Structural)]
pub enum BlendState {
    /// The output replaces what the target holds.
    Replace,
    AlphaBlending,
    PremultipliedAlphaBlending,
}

/// The channels of the target that are written.
#[derive(Clone, Copy, Debug, PartialEq, Eq, Structural)]
pub struct ColorWrites {
    pub red: bool,
    pub green: bool,
    pub blue: bool,
    pub alpha: bool,
}

/// The colour target of the pipeline. Its format is the surface's.
#[derive(Clone, Copy, Debug, PartialEq, Eq, Structural)]
pub struct ColorTarget {
    pub blend: Option<BlendState>,
    pub write_mask: ColorWrites,
}

/// The render pipeline to build.
#[derive(Clone, Debug, PartialEq, Eq)]
pub struct PipelinePlan {
    /// Bind groups of the pipeline's layout, in order; each entry is a group
    /// number of a [`BindingPlan`].
    pub bind_groups: Vec<u32>,
    /// Number of push constant ranges of the pipeline's layout.
    pub push_constant_ranges: usize,
    pub vertex_entry_point: &'static str,
    pub vertex_buffer: VertexBufferLayout,
    pub fragment_entry_point: &'static str,
    pub target: ColorTarget,
    pub primitive: PrimitiveState,
    pub depth_stencil: bool,
    /// Samples per pixel; 1 is no multisampling.
    pub sample_count: u32,
    /// Number of views rendered at once; `None` is no multiview.
    pub multiview: Option<u32>,
}

/// Everything the setup asks of the GPU.
#[derive(Clone, Debug, PartialEq, Eq)]
pub struct SetupPlan {
    pub adapter: AdapterRequest,
    pub surface: SurfaceConfig,
    pub vertex_buffer: BufferPlan,
    pub index_buffer: BufferPlan,
    pub uniform_buffer: BufferPlan,
    pub binding: BindingPlan,
    pub pipeline: PipelinePlan,
}

/// The adapter request of the viewer: the default power profile, no fallback
/// adapter, compatible with the window's surface.
pub open spec fn adapter_request() -> AdapterRequest {
    AdapterRequest {
        power_preference: PowerPreference::LowPower,
        force_fallback_adapter: false,
        compatible_with_surface: true,
    }
}

/// The surface configuration for a window of the given size: the first
/// supported format, the window's size, presentation in step with the display.
pub open spec fn surface_config(size: Size) -> SurfaceConfig {
    SurfaceConfig {
        render_attachment_only: true,
        format_index: 0,
        size,
        present_mode: PresentMode::Fifo,
    }
}

/// The buffer of the quad's four vertices.
pub open spec fn vertex_buffer() -> BufferPlan {
    BufferPlan {
        size: 32,
        usage: BufferUsages { vertex: true, index: false, uniform: false, copy_dst: false },
        mapped_at_creation: false,
    }
}

/// The buffer of the quad's six 16-bit indices.
pub open spec fn index_buffer() -> BufferPlan {
    BufferPlan {
        size: 12,
        usage: BufferUsages { vertex: false, index: true, uniform: false, copy_dst: false },
        mapped_at_creation: false,
    }
}

/// The uniform buffer: exactly as large as the uniform record, written by the
/// host by copying into it.
pub open spec fn uniform_buffer() -> BufferPlan {
    BufferPlan {
        size: GLOBALS_SIZE,
        usage: BufferUsages { vertex: false, index: false, uniform: true, copy_dst: true },
        mapped_at_creation: false,
    }
}

/// The uniform binding: group 0, slot 0, seen by the fragment stage alone.
pub open spec fn uniform_binding() -> BindingPlan {
    BindingPlan {
        group: 0,
        binding: 0,
        visibility: ShaderStages { vertex: false, fragment: true, compute: false },
        ty: BufferBindingType::Uniform,
        has_dynamic_offset: false,
        min_binding_size: None,
        count: None,
    }
}

/// The primitive state: a list of triangles, counter-clockwise front faces,
/// no face culled, filled.
pub open spec fn primitive_state() -> PrimitiveState {
    PrimitiveState {
        topology: PrimitiveTopology::TriangleList,
        strip_index_format: None,
        front_face: FrontFace::Ccw,
        cull_mode: None,
        unclipped_depth: false,
        polygon_mode: PolygonMode::Fill,
        conservative: false,
    }
}

/// The colour target: the fragment's colour replaces what is there, in all four
/// channels.
pub open spec fn color_target() -> ColorTarget {
    ColorTarget {
        blend: Some(BlendState::Replace),
        write_mask: ColorWrites { red: true, green: true, blue: true, alpha: true },
    }
}

impl PipelinePlan {
    /// The viewer's pipeline: the quad's vertex layout into `vs_main`, `fs_main`
    /// of the user's shader into the colour target, the uniform bind group, no
    /// push constants, no depth or stencil, one sample per pixel, one view.
    pub open spec fn is_viewer_pipeline(self) -> bool {
        &&& self.bind_groups@ == seq![0u32]
        &&& self.push_constant_ranges == 0
        &&& self.vertex_entry_point@ == "vs_main"@
        &&& self.vertex_buffer.array_stride == VERTEX_SIZE
        &&& self.vertex_buffer.step_mode == VertexStepMode::Vertex
        &&& self.vertex_buffer.attributes@ == Vertex::attributes()
        &&& self.vertex_buffer.packed()
        &&& self.fragment_entry_point@ == "fs_main"@
        &&& self.target == color_target()
        &&& self.primitive == primitive_state()
        &&& !self.depth_stencil
        &&& self.sample_count == 1
        &&& self.multiview.is_none()
    }

    /// The viewer's pipeline.
    pub fn new() -> (pipeline: PipelinePlan)
        ensures
            pipeline.is_viewer_pipeline(),
    {
        let mut bind_groups: Vec<u32> = Vec::new();
        bind_groups.push(0);
        assert(bind_groups@ =~= seq![0u32]);
        PipelinePlan {
            bind_groups,
            push_constant_ranges: 0,
            vertex_entry_point: "vs_main",
            vertex_buffer: Vertex::desc(),
            fragment_entry_point: "fs_main",
            target: ColorTarget {
                blend: Some(BlendState::Replace),
                write_mask: ColorWrites { red: true, green: true, blue: true, alpha: true },
            },
            primitive: PrimitiveState {
                topology: PrimitiveTopology::TriangleList,
                strip_index_format: None,
                front_face: FrontFace::Ccw,
                cull_mode: None,
                unclipped_depth: false,
                polygon_mode: PolygonMode::Fill,
                conservative: false,
            },
            depth_stencil: false,
            sample_count: 1,
            multiview: None,
        }
    }
}

impl SetupPlan {
    /// The plan is the viewer's plan for a window of the given size.
    pub open spec fn is_plan_for(self, size: Size) -> bool {
        &&& self.adapter == adapter_request()
        &&& self.surface == surface_config(size)
        &&& self.vertex_buffer == vertex_buffer()
        &&& self.index_buffer == index_buffer()
        &&& self.uniform_buffer == uniform_buffer()
        &&& self.binding == uniform_binding()
        &&& self.pipeline.is_viewer_pipeline()
    }

    /// The parts of the plan agree with one another and with the rest of the
    /// library: the buffers hold exactly the quad and the uniform record, and the
    /// pipeline's layout names the group of the uniform binding.
    pub open spec fn consistent(self) -> bool {
        &&& self.vertex_buffer.size == quad_vertices().len()
            * self.pipeline.vertex_buffer.array_stride
        &&& self.index_buffer.size == quad_indices().len() * 2
        &&& self.uniform_buffer.size == GLOBALS_SIZE
        &&& self.uniform_buffer.usage.uniform && self.uniform_buffer.usage.copy_dst
        &&& self.pipeline.bind_groups@.contains(self.binding.group)
        &&& self.binding.visibility.fragment && !self.binding.visibility.vertex
    }

    /// The viewer's plan for a window of the given size.
    pub fn new(width: u32, height: u32) -> (plan: SetupPlan)
        ensures
            plan.is_plan_for(Size { width, height }),
            plan.consistent(),
    {
        let plan = SetupPlan {
            adapter: AdapterRequest {
                power_preference: PowerPreference::LowPower,
                force_fallback_adapter: false,
                compatible_with_surface: true,
            },
            surface: SurfaceConfig {
                render_attachment_only: true,
                format_index: 0,
                size: Size { width, height },
                present_mode: PresentMode::Fifo,
            },
            vertex_buffer: BufferPlan {
                size: 4 * VERTEX_SIZE,
                usage: BufferUsages { vertex: true, index: false, uniform: false, copy_dst: false },
                mapped_at_creation: false,
            },
            index_buffer: BufferPlan {
                size: 12,
                usage: BufferUsages { vertex: false, index: true, uniform: false, copy_dst: false },
                mapped_at_creation: false,
            },
            uniform_buffer: BufferPlan {
                size: GLOBALS_SIZE,
                usage: BufferUsages { vertex: false, index: false, uniform: true, copy_dst: true },
                mapped_at_creation: false,
            },
            binding: BindingPlan {
                group: 0,
                binding: 0,
                visibility: ShaderStages { vertex: false, fragment: true, compute: false },
                ty: BufferBindingType::Uniform,
                has_dynamic_offset: false,
                min_binding_size: None,
                count: None,
            },
            pipeline: PipelinePlan::new(),
        };
        assert(plan.pipeline.bind_groups@[0] == 0);
        plan
    }
}

/// Chooses the surface's format among those it supports: the first.
pub fn select_format<F: Copy>(formats: &[F]) -> (format: F)
    requires
        formats@.len() > 0,
    ensures
        format == formats@[0],
{
    formats[0]
}

} // verus!
