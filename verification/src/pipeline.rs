use vstd::prelude::*;

use crate::descriptions::{
    D3D11_BIND_VERTEX_BUFFER, D3D11_CLEAR_DEPTH, D3D11_CULL_NONE, D3D11_FILL_SOLID,
    D3D11_INPUT_PER_VERTEX_DATA, D3D11_USAGE_DEFAULT, D3D_PRIMITIVE_TOPOLOGY_TRIANGLELIST,
    DXGI_FORMAT_R32G32B32A32_FLOAT, DXGI_FORMAT_R32G32B32_FLOAT, TRIANGLE_VERTEX_COUNT, WIN32_FALSE,
    WIN32_TRUE,
};

verus! {

/// The content of a `D3D11_BUFFER_DESC`.
#[derive(PartialEq, Eq, Structural, Clone, Copy, Debug)]
pub struct BufferDescription {
    pub byte_width: u32,
    pub usage: u32,
    pub bind_flags: u32,
    pub cpu_access_flags: u32,
    pub misc_flags: u32,
    pub structure_byte_stride: u32,
}

/// The vertex buffer for `vertex_count` vertices of `vertex_size` bytes:
/// its byte width is their product taken as a `UINT`, it is read and
/// written by the GPU only, and bound as a vertex buffer.
pub open spec fn spec_vertex_buffer_description(vertex_size: usize, vertex_count: usize) -> BufferDescription {
    BufferDescription {
        byte_width: (vertex_size * vertex_count) as u32,
        usage: D3D11_USAGE_DEFAULT,
        bind_flags: D3D11_BIND_VERTEX_BUFFER,
        cpu_access_flags: 0,
        misc_flags: 0,
        structure_byte_stride: 0,
    }
}

/// Describes the vertex buffer that holds `vertex_count` vertices of
/// `vertex_size` bytes each.
pub fn vertex_buffer_description(vertex_size: usize, vertex_count: usize) -> (description: BufferDescription)
    requires
        vertex_size * vertex_count <= usize::MAX,
    ensures
        description == spec_vertex_buffer_description(vertex_size, vertex_count),
        description.byte_width == (vertex_size * vertex_count) as u32,
        description.usage == 0,
        description.bind_flags == 1,
        description.cpu_access_flags == 0,
        description.misc_flags == 0,
        description.structure_byte_stride == 0,
{
    let total: usize = vertex_size * vertex_count;
    BufferDescription {
        byte_width: total as u32,
        usage: D3D11_USAGE_DEFAULT,
        bind_flags: D3D11_BIND_VERTEX_BUFFER,
        cpu_access_flags: 0,
        misc_flags: 0,
        structure_byte_stride: 0,
    }
}

/// The vertex attributes the vertex shader reads.
#[derive(PartialEq, Eq, Structural, Clone, Copy, Debug)]
pub enum VertexSemantic {
    Position,
    Color,
}

/// The HLSL semantic name of an attribute.
pub open spec fn spec_semantic_name(semantic: VertexSemantic) -> Seq<char> {
    match semantic {
        VertexSemantic::Position => "POSITION"@,
        VertexSemantic::Color => "COLOR"@,
    }
}

/// The HLSL semantic name of an attribute, as written in the shader.
pub fn semantic_name(semantic: VertexSemantic) -> (name: &'static str)
    ensures
        name@ == spec_semantic_name(semantic),
{
    match semantic {
        VertexSemantic::Position => "POSITION",
        VertexSemantic::Color => "COLOR",
    }
}

/// The content of a `D3D11_INPUT_ELEMENT_DESC`; the semantic stands for
/// its name.
#[derive(PartialEq, Eq, Structural, Clone, Copy, Debug)]
pub struct InputElementDescription {
    pub semantic: VertexSemantic,
    pub semantic_index: u32,
    pub format: u32,
    pub input_slot: u32,
    pub aligned_byte_offset: u32,
    pub input_slot_class: u32,
    pub instance_data_step_rate: u32,
}

/// The size in bytes of one element of a vertex format.
pub open spec fn format_byte_size(format: u32) -> nat {
    if format == DXGI_FORMAT_R32G32B32_FLOAT {
        12
    } else if format == DXGI_FORMAT_R32G32B32A32_FLOAT {
        16
    } else {
        0
    }
}

/// One per-vertex element in input slot 0.
pub open spec fn per_vertex_element(semantic: VertexSemantic, format: u32, offset: u32) -> InputElementDescription {
    InputElementDescription {
        semantic,
        semantic_index: 0,
        format,
        input_slot: 0,
        aligned_byte_offset: offset,
        input_slot_class: D3D11_INPUT_PER_VERTEX_DATA,
        instance_data_step_rate: 0,
    }
}

/// The vertex input layout: a three-float position at offset 0, then a
/// four-float color right after it, at offset 12.
pub open spec fn spec_vertex_input_layout() -> Seq<InputElementDescription> {
    seq![
        per_vertex_element(VertexSemantic::Position, DXGI_FORMAT_R32G32B32_FLOAT, 0),
        per_vertex_element(VertexSemantic::Color, DXGI_FORMAT_R32G32B32A32_FLOAT, 12),
    ]
}

/// Describes the layout of one vertex as the input assembler reads it.
pub fn vertex_input_layout() -> (layout: Vec<InputElementDescription>)
    ensures
        layout@ == spec_vertex_input_layout(),
        layout@.len() == 2,
        layout@[0] == (InputElementDescription {
            semantic: VertexSemantic::Position,
            semantic_index: 0,
            format: 6,
            input_slot: 0,
            aligned_byte_offset: 0,
            input_slot_class: 0,
            instance_data_step_rate: 0,
        }),
        layout@[1] == (InputElementDescription {
            semantic: VertexSemantic::Color,
            semantic_index: 0,
            format: 2,
            input_slot: 0,
            aligned_byte_offset: 12,
            input_slot_class: 0,
            instance_data_step_rate: 0,
        }),
{
    let mut layout: Vec<InputElementDescription> = Vec::new();
    layout.push(InputElementDescription {
        semantic: VertexSemantic::Position,
        semantic_index: 0,
        format: DXGI_FORMAT_R32G32B32_FLOAT,
        input_slot: 0,
        aligned_byte_offset: 0,
        input_slot_class: D3D11_INPUT_PER_VERTEX_DATA,
        instance_data_step_rate: 0,
    });
    layout.push(InputElementDescription {
        semantic: VertexSemantic::Color,
        semantic_index: 0,
        format: DXGI_FORMAT_R32G32B32A32_FLOAT,
        input_slot: 0,
        aligned_byte_offset: 12,
        input_slot_class: D3D11_INPUT_PER_VERTEX_DATA,
        instance_data_step_rate: 0,
    });
    assert(layout@ =~= spec_vertex_input_layout());
    layout
}

/// The input layout is packed: the first element starts the vertex, each
/// following element starts where the one before it ends, and together
/// they take 28 bytes, the size of three plus four 32-bit floats.
pub proof fn lemma_input_layout_packed()
    ensures
        spec_vertex_input_layout()[0].aligned_byte_offset == 0,
        forall|i: int| 0 < i < spec_vertex_input_layout().len() ==>
            #[trigger] spec_vertex_input_layout()[i].aligned_byte_offset
                == spec_vertex_input_layout()[i - 1].aligned_byte_offset
                + format_byte_size(spec_vertex_input_layout()[i - 1].format),
        spec_vertex_input_layout().last().aligned_byte_offset
            + format_byte_size(spec_vertex_input_layout().last().format) == 28,
{
    let layout = spec_vertex_input_layout();
    assert forall|i: int| 0 < i < layout.len() implies #[trigger] layout[i].aligned_byte_offset
        == layout[i - 1].aligned_byte_offset + format_byte_size(layout[i - 1].format) by {
        assert(i == 1);
    }
}

/// How the vertex buffer is bound to the input assembler
/// (`IASetVertexBuffers` and `IASetPrimitiveTopology`).
#[derive(PartialEq, Eq, Structural, Clone, Copy, Debug)]
pub struct VertexBufferBinding {
    pub start_slot: u32,
    pub buffer_count: u32,
    pub stride: u32,
    pub offset: u32,
    pub topology: u32,
}

/// One vertex buffer in slot 0, read from its start with the vertex size
/// as stride, assembled as a triangle list.
pub open spec fn spec_vertex_buffer_binding(vertex_size: usize) -> VertexBufferBinding {
    VertexBufferBinding {
        start_slot: 0,
        buffer_count: 1,
        stride: vertex_size as u32,
        offset: 0,
        topology: D3D_PRIMITIVE_TOPOLOGY_TRIANGLELIST,
    }
}

/// Describes how the vertex buffer of `vertex_size`-byte vertices is bound.
pub fn vertex_buffer_binding(vertex_size: usize) -> (binding: VertexBufferBinding)
    ensures
        binding == spec_vertex_buffer_binding(vertex_size),
        binding.start_slot == 0,
        binding.buffer_count == 1,
        binding.stride == vertex_size as u32,
        binding.offset == 0,
        binding.topology == 4,
{
    VertexBufferBinding {
        start_slot: 0,
        buffer_count: 1,
        stride: vertex_size as u32,
        offset: 0,
        topology: D3D_PRIMITIVE_TOPOLOGY_TRIANGLELIST,
    }
}

/// The content of a `D3D11_RASTERIZER_DESC` but for its two float fields,
/// the depth bias clamp and the slope-scaled depth bias, which are 0.
#[derive(PartialEq, Eq, Structural, Clone, Copy, Debug)]
pub struct RasterizerDescription {
    pub fill_mode: u32,
    pub cull_mode: u32,
    pub front_counter_clockwise: i32,
    pub depth_bias: i32,
    pub depth_clip_enable: i32,
    pub scissor_enable: i32,
    pub multisample_enable: i32,
    pub antialiased_line_enable: i32,
}

/// Solid fill, no culling, counter-clockwise triangles face front, no
/// depth clipping; everything else off.
pub open spec fn spec_rasterizer_description() -> RasterizerDescription {
    RasterizerDescription {
        fill_mode: D3D11_FILL_SOLID,
        cull_mode: D3D11_CULL_NONE,
        front_counter_clockwise: WIN32_TRUE,
        depth_bias: 0,
        depth_clip_enable: WIN32_FALSE,
        scissor_enable: WIN32_FALSE,
        multisample_enable: WIN32_FALSE,
        antialiased_line_enable: WIN32_FALSE,
    }
}

/// Describes the rasterizer state.
pub fn rasterizer_description() -> (description: RasterizerDescription)
    ensures
        description == spec_rasterizer_description(),
        description.fill_mode == 3,
        description.cull_mode == 1,
        description.front_counter_clockwise == 1,
        description.depth_bias == 0,
        description.depth_clip_enable == 0,
        description.scissor_enable == 0,
        description.multisample_enable == 0,
        description.antialiased_line_enable == 0,
{
    RasterizerDescription {
        fill_mode: D3D11_FILL_SOLID,
        cull_mode: D3D11_CULL_NONE,
        front_counter_clockwise: WIN32_TRUE,
        depth_bias: 0,
        depth_clip_enable: WIN32_FALSE,
        scissor_enable: WIN32_FALSE,
        multisample_enable: WIN32_FALSE,
        antialiased_line_enable: WIN32_FALSE,
    }
}

/// The integer parameters of rendering one frame: which depth/stencil
/// parts are cleared and to what stencil value, which vertices are drawn,
/// and how the frame is presented. (The clear color and clear depth are
/// floats and are not part of it.)
#[derive(PartialEq, Eq, Structural, Clone, Copy, Debug)]
pub struct FrameParameters {
    pub clear_flags: u32,
    pub clear_stencil: u8,
    pub vertex_count: u32,
    pub start_vertex: u32,
    pub sync_interval: u32,
    pub present_flags: u32,
}

/// Clear depth only, stencil to 0; draw the triangle's vertices from the
/// first one; present on the next vertical blank with no flags.
pub open spec fn spec_frame_parameters() -> FrameParameters {
    FrameParameters {
        clear_flags: D3D11_CLEAR_DEPTH,
        clear_stencil: 0,
        vertex_count: TRIANGLE_VERTEX_COUNT,
        start_vertex: 0,
        sync_interval: 1,
        present_flags: 0,
    }
}

/// Describes how each frame is cleared, drawn and presented.
pub fn frame_parameters() -> (parameters: FrameParameters)
    ensures
        parameters == spec_frame_parameters(),
        parameters.clear_flags == 1,
        parameters.clear_stencil == 0,
        parameters.vertex_count == 3,
        parameters.start_vertex == 0,
        parameters.sync_interval == 1,
        parameters.present_flags == 0,
{
    FrameParameters {
        clear_flags: D3D11_CLEAR_DEPTH,
        clear_stencil: 0,
        vertex_count: TRIANGLE_VERTEX_COUNT,
        start_vertex: 0,
        sync_interval: 1,
        present_flags: 0,
    }
}

/// The draw call reads exactly the vertices of a vertex buffer made for
/// the triangle: it starts at the buffer's first vertex and the vertices
/// it reads fill the buffer's byte width.
pub proof fn lemma_draw_covers_vertex_buffer(vertex_size: usize)
    requires
        vertex_size * TRIANGLE_VERTEX_COUNT <= u32::MAX,
    ensures
        spec_frame_parameters().start_vertex == 0,
        spec_frame_parameters().vertex_count * vertex_size
            == spec_vertex_buffer_description(vertex_size, TRIANGLE_VERTEX_COUNT as usize).byte_width,
        spec_vertex_buffer_binding(vertex_size).offset == 0,
        spec_vertex_buffer_binding(vertex_size).stride == vertex_size,
{
}

} // verus!
