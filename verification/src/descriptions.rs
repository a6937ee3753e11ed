use vstd::prelude::*;

verus! {

/// Width, in pixels, of the window, the back buffer and the depth buffer.
pub const RENDER_WIDTH: u32 = 800;

/// Height, in pixels, of the window, the back buffer and the depth buffer.
pub const RENDER_HEIGHT: u32 = 600;

/// The number of vertices of the triangle that is drawn.
pub const TRIANGLE_VERTEX_COUNT: u32 = 3;

/// Win32 `TRUE`.
pub const WIN32_TRUE: i32 = 1;

/// Win32 `FALSE`.
pub const WIN32_FALSE: i32 = 0;

/// `DXGI_FORMAT_R32G32B32A32_FLOAT`: four 32-bit float components.
pub const DXGI_FORMAT_R32G32B32A32_FLOAT: u32 = 2;

/// `DXGI_FORMAT_R32G32B32_FLOAT`: three 32-bit float components.
pub const DXGI_FORMAT_R32G32B32_FLOAT: u32 = 6;

/// `DXGI_FORMAT_R8G8B8A8_UNORM`: four 8-bit unsigned-normalized components.
pub const DXGI_FORMAT_R8G8B8A8_UNORM: u32 = 28;

/// `DXGI_FORMAT_D24_UNORM_S8_UINT`: 24 bits of depth and 8 bits of stencil.
pub const DXGI_FORMAT_D24_UNORM_S8_UINT: u32 = 45;

/// `DXGI_MODE_SCANLINE_ORDER_UNSPECIFIED`.
pub const DXGI_MODE_SCANLINE_ORDER_UNSPECIFIED: u32 = 0;

/// `DXGI_MODE_SCALING_UNSPECIFIED`.
pub const DXGI_MODE_SCALING_UNSPECIFIED: u32 = 0;

/// `DXGI_USAGE_RENDER_TARGET_OUTPUT`: the buffer is a render target.
pub const DXGI_USAGE_RENDER_TARGET_OUTPUT: u32 = 0x20;

/// `DXGI_SWAP_EFFECT_DISCARD`: the driver picks how presented contents are discarded.
pub const DXGI_SWAP_EFFECT_DISCARD: u32 = 0;

/// `D3D11_USAGE_DEFAULT`: read and written by the GPU.
pub const D3D11_USAGE_DEFAULT: u32 = 0;

/// `D3D11_BIND_VERTEX_BUFFER`.
pub const D3D11_BIND_VERTEX_BUFFER: u32 = 0x1;

/// `D3D11_BIND_DEPTH_STENCIL`.
pub const D3D11_BIND_DEPTH_STENCIL: u32 = 0x40;

/// `D3D11_INPUT_PER_VERTEX_DATA`.
pub const D3D11_INPUT_PER_VERTEX_DATA: u32 = 0;

/// `D3D11_FILL_SOLID`.
pub const D3D11_FILL_SOLID: u32 = 3;

/// `D3D11_CULL_NONE`.
pub const D3D11_CULL_NONE: u32 = 1;

/// `D3D_PRIMITIVE_TOPOLOGY_TRIANGLELIST`.
pub const D3D_PRIMITIVE_TOPOLOGY_TRIANGLELIST: u32 = 4;

/// `D3D11_CLEAR_DEPTH`.
pub const D3D11_CLEAR_DEPTH: u32 = 0x1;

/// The integer content of a `DXGI_SWAP_CHAIN_DESC`; the output window is
/// the window handle's address.
#[derive(PartialEq, Eq, Structural, Clone, Copy, Debug)]
pub struct SwapChainDescription {
    pub width: u32,
    pub height: u32,
    pub refresh_rate_numerator: u32,
    pub refresh_rate_denominator: u32,
    pub format: u32,
    pub scanline_ordering: u32,
    pub scaling: u32,
    pub sample_count: u32,
    pub sample_quality: u32,
    pub buffer_usage: u32,
    pub buffer_count: u32,
    pub output_window: usize,
    pub windowed: i32,
    pub swap_effect: u32,
    pub flags: u32,
}

/// The swap chain: one windowed 800x600 RGBA8 buffer at 60 Hz, used as
/// render target output, no multisampling, contents discarded on present.
pub open spec fn spec_swap_chain_description(output_window: usize) -> SwapChainDescription {
    SwapChainDescription {
        width: RENDER_WIDTH,
        height: RENDER_HEIGHT,
        refresh_rate_numerator: 60,
        refresh_rate_denominator: 1,
        format: DXGI_FORMAT_R8G8B8A8_UNORM,
        scanline_ordering: DXGI_MODE_SCANLINE_ORDER_UNSPECIFIED,
        scaling: DXGI_MODE_SCALING_UNSPECIFIED,
        sample_count: 1,
        sample_quality: 0,
        buffer_usage: DXGI_USAGE_RENDER_TARGET_OUTPUT,
        buffer_count: 1,
        output_window,
        windowed: WIN32_TRUE,
        swap_effect: DXGI_SWAP_EFFECT_DISCARD,
        flags: 0,
    }
}

/// Describes the swap chain that presents to `output_window_handle`.
pub fn create_swap_chain_description(output_window_handle: usize) -> (description: SwapChainDescription)
    ensures
        description == spec_swap_chain_description(output_window_handle),
        description.output_window == output_window_handle,
        description.width == 800,
        description.height == 600,
        description.refresh_rate_numerator == 60,
        description.refresh_rate_denominator == 1,
        description.format == 28,
        description.scanline_ordering == 0,
        description.scaling == 0,
        description.sample_count == 1,
        description.sample_quality == 0,
        description.buffer_usage == 0x20,
        description.buffer_count == 1,
        description.windowed == 1,
        description.swap_effect == 0,
        description.flags == 0,
{
    SwapChainDescription {
        width: RENDER_WIDTH,
        height: RENDER_HEIGHT,
        refresh_rate_numerator: 60,
        refresh_rate_denominator: 1,
        format: DXGI_FORMAT_R8G8B8A8_UNORM,
        scanline_ordering: DXGI_MODE_SCANLINE_ORDER_UNSPECIFIED,
        scaling: DXGI_MODE_SCALING_UNSPECIFIED,
        sample_count: 1,
        sample_quality: 0,
        buffer_usage: DXGI_USAGE_RENDER_TARGET_OUTPUT,
        buffer_count: 1,
        output_window: output_window_handle,
        windowed: WIN32_TRUE,
        swap_effect: DXGI_SWAP_EFFECT_DISCARD,
        flags: 0,
    }
}

/// The content of a `D3D11_TEXTURE2D_DESC`.
#[derive(PartialEq, Eq, Structural, Clone, Copy, Debug)]
pub struct Texture2dDescription {
    pub width: u32,
    pub height: u32,
    pub mip_levels: u32,
    pub array_size: u32,
    pub format: u32,
    pub sample_count: u32,
    pub sample_quality: u32,
    pub usage: u32,
    pub bind_flags: u32,
    pub cpu_access_flags: u32,
    pub misc_flags: u32,
}

/// The depth/stencil buffer: one 800x600 texture, one mip level, 24-bit
/// depth and 8-bit stencil, no multisampling, bound as depth/stencil.
pub open spec fn spec_depth_buffer_description() -> Texture2dDescription {
    Texture2dDescription {
        width: RENDER_WIDTH,
        height: RENDER_HEIGHT,
        mip_levels: 1,
        array_size: 1,
        format: DXGI_FORMAT_D24_UNORM_S8_UINT,
        sample_count: 1,
        sample_quality: 0,
        usage: D3D11_USAGE_DEFAULT,
        bind_flags: D3D11_BIND_DEPTH_STENCIL,
        cpu_access_flags: 0,
        misc_flags: 0,
    }
}

/// Describes the depth/stencil buffer texture.
pub fn depth_buffer_description() -> (description: Texture2dDescription)
    ensures
        description == spec_depth_buffer_description(),
        description.width == 800,
        description.height == 600,
        description.mip_levels == 1,
        description.array_size == 1,
        description.format == 45,
        description.sample_count == 1,
        description.sample_quality == 0,
        description.usage == 0,
        description.bind_flags == 0x40,
        description.cpu_access_flags == 0,
        description.misc_flags == 0,
{
    Texture2dDescription {
        width: RENDER_WIDTH,
        height: RENDER_HEIGHT,
        mip_levels: 1,
        array_size: 1,
        format: DXGI_FORMAT_D24_UNORM_S8_UINT,
        sample_count: 1,
        sample_quality: 0,
        usage: D3D11_USAGE_DEFAULT,
        bind_flags: D3D11_BIND_DEPTH_STENCIL,
        cpu_access_flags: 0,
        misc_flags: 0,
    }
}

/// The depth buffer can be bound beside the swap chain's back buffer:
/// both have the same size and the same multisampling.
pub proof fn lemma_depth_buffer_matches_back_buffer(output_window: usize)
    ensures
        spec_depth_buffer_description().width == spec_swap_chain_description(output_window).width,
        spec_depth_buffer_description().height == spec_swap_chain_description(output_window).height,
        spec_depth_buffer_description().sample_count == spec_swap_chain_description(output_window).sample_count,
        spec_depth_buffer_description().sample_quality == spec_swap_chain_description(output_window).sample_quality,
{
}

/// The swap chain presents to exactly the window it is given: the output
/// window of the description is the handle passed in, whatever its value,
/// and two descriptions differ in nothing but their output windows.
pub proof fn lemma_swap_chain_presents_to_given_window(h: usize, g: usize)
    ensures
        spec_swap_chain_description(h).output_window == h,
        spec_swap_chain_description(h) == (SwapChainDescription {
            output_window: h,
            ..spec_swap_chain_description(g)
        }),
        h != g ==> spec_swap_chain_description(h) != spec_swap_chain_description(g),
{
}

} // verus!
