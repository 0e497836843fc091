//! What one frame hands to the GPU: the uniform values and the draw commands.

use vstd::prelude::*;
use crate::geometry::{quad_indices, quad_vertices};

verus! {

/// A size in physical pixels.
#[derive(Clone, Copy, Debug, PartialEq, Eq, Structural)]
pub struct Size {
    pub width: u32,
    pub height: u32,
}

/// The uniform record that the fragment shader reads at group 0, binding 0.
///
/// The shader sees `resolution` as two 32-bit floats and `time` as one 32-bit
/// float holding seconds. Here the resolution is kept in whole pixels and the
/// time in whole nanoseconds, so that both are exact until they are converted
/// when the record is written out.
#[derive(Clone, Copy, Debug, PartialEq, Eq, Structural)]
pub struct Globals {
    /// Width and height of the window.
    pub resolution: Size,
    /// Time since the viewer started, in nanoseconds.
    pub time: u128,
    /// Trailing padding word; always zero.
    pub padding: u32,
}

/// An opaque or translucent colour with 8 bits per channel; 255 is full intensity.
#[derive(Clone, Copy, Debug, PartialEq, Eq, Structural)]
pub struct Color {
    pub r: u8,
    pub g: u8,
    pub b: u8,
    pub a: u8,
}

/// Width of the entries of an index buffer.
#[derive(Clone, Copy, Debug, PartialEq, Eq, Structural)]
pub enum IndexFormat {
    Uint16,
    Uint32,
}

/// One indexed draw call.
#[derive(Clone, Copy, Debug, PartialEq, Eq, Structural)]
pub struct DrawIndexed {
    pub first_index: u32,
    pub index_count: u32,
    pub base_vertex: i32,
    pub first_instance: u32,
    pub instance_count: u32,
}

/// Everything the GPU is told for one frame: one uniform write, then one render
/// pass with one draw call.
#[derive(Clone, Copy, Debug, PartialEq, Eq, Structural)]
pub struct Frame {
    /// Written to the uniform buffer before the pass.
    pub globals: Globals,
    /// Byte offset in the uniform buffer at which `globals` is written.
    pub uniform_offset: u64,
    /// The colour target is cleared to this colour when the pass begins.
    pub clear_color: Color,
    /// Whether the pass keeps what it drew.
    pub store: bool,
    /// Bind group slot that the uniform binding group is bound to.
    pub bind_group_index: u32,
    /// Vertex buffer slot that the quad's vertices are bound to.
    pub vertex_slot: u32,
    /// Format of the quad's index buffer.
    pub index_format: IndexFormat,
    /// The draw call.
    pub draw: DrawIndexed,
}

/// Background colour of every frame.
pub open spec fn clear_color() -> Color {
    Color { r: 255, g: 255, b: 255, a: 255 }
}

/// The draw call of every frame: all six indices of the quad, one instance.
pub open spec fn quad_draw() -> DrawIndexed {
    DrawIndexed {
        first_index: 0,
        index_count: 6,
        base_vertex: 0,
        first_instance: 0,
        instance_count: 1,
    }
}

/// The frame drawn for a window of size `size` at time `time`.
pub open spec fn frame_at(size: Size, time: u128) -> Frame {
    Frame {
        globals: Globals { resolution: size, time, padding: 0 },
        uniform_offset: 0,
        clear_color: clear_color(),
        store: true,
        bind_group_index: 0,
        vertex_slot: 0,
        index_format: IndexFormat::Uint16,
        draw: quad_draw(),
    }
}

impl Frame {
    /// Builds the command list for a window of size `size` at time `time`.
    pub fn new(size: Size, time: u128) -> (frame: Frame)
        ensures
            frame == frame_at(size, time),
    {
        Frame {
            globals: Globals { resolution: size, time, padding: 0 },
            uniform_offset: 0,
            clear_color: Color { r: 255, g: 255, b: 255, a: 255 },
            store: true,
            bind_group_index: 0,
            vertex_slot: 0,
            index_format: IndexFormat::Uint16,
            draw: DrawIndexed {
                first_index: 0,
                index_count: 6,
                base_vertex: 0,
                first_instance: 0,
                instance_count: 1,
            },
        }
    }
}

/// The draw call of every frame runs once over all of the quad's indices, from
/// the first, and adds nothing to them, so it draws the quad's two triangles and
/// nothing else.
pub proof fn lemma_draw_uses_every_index(size: Size, time: u128)
    ensures
        frame_at(size, time).draw.first_index == 0,
        frame_at(size, time).draw.index_count == quad_indices().len(),
        frame_at(size, time).draw.base_vertex == 0,
        frame_at(size, time).draw.instance_count == 1,
        forall|i: int|
            0 <= i < quad_indices().len() ==> 0 <= (#[trigger] quad_indices()[i])
                + frame_at(size, time).draw.base_vertex < quad_vertices().len(),
{
}

} // verus!
