//! The decision logic of a small Direct3D 11 "hello triangle" program:
//! how the window procedure answers messages, how the message loop
//! alternates between dispatching and rendering, the order of the
//! start-up steps and what is reported when one of them fails, the
//! descriptions handed to Direct3D when resources are created, and the
//! UTF-16 text that the Win32 API expects.
//!
//! Everything that talks to Windows lives outside this crate; it hands
//! plain values in and carries out the actions that come back.

pub mod descriptions;
pub mod message_loop;
pub mod pipeline;
pub mod setup;
pub mod wide;
pub mod window;

pub use descriptions::{
    create_swap_chain_description, depth_buffer_description, SwapChainDescription, Texture2dDescription,
    D3D11_BIND_DEPTH_STENCIL, D3D11_BIND_VERTEX_BUFFER, D3D11_CLEAR_DEPTH, D3D11_CULL_NONE,
    D3D11_FILL_SOLID, D3D11_INPUT_PER_VERTEX_DATA, D3D11_USAGE_DEFAULT,
    D3D_PRIMITIVE_TOPOLOGY_TRIANGLELIST, DXGI_FORMAT_D24_UNORM_S8_UINT, DXGI_FORMAT_R32G32B32A32_FLOAT,
    DXGI_FORMAT_R32G32B32_FLOAT, DXGI_FORMAT_R8G8B8A8_UNORM, DXGI_MODE_SCALING_UNSPECIFIED,
    DXGI_MODE_SCANLINE_ORDER_UNSPECIFIED, DXGI_SWAP_EFFECT_DISCARD, DXGI_USAGE_RENDER_TARGET_OUTPUT,
    RENDER_HEIGHT, RENDER_WIDTH, TRIANGLE_VERTEX_COUNT, WIN32_FALSE, WIN32_TRUE,
};
pub use message_loop::{
    initial_loop_state, keeps_running, loop_step, LoopAction, LoopEvent, LoopState,
};
pub use pipeline::{
    frame_parameters, rasterizer_description, semantic_name, vertex_buffer_binding,
    vertex_buffer_description, vertex_input_layout, BufferDescription, FrameParameters,
    InputElementDescription, RasterizerDescription, VertexBufferBinding, VertexSemantic,
};
pub use setup::{
    class_registered, failure_message, feature_level_supported, first_setup_step, hresult_failed,
    setup_transition, SetupStep, SetupTransition, D3D_FEATURE_LEVEL_11_0, SETUP_STEP_COUNT,
};
pub use wide::to_wide_null;
pub use window::{
    window_proc_action, WindowProcAction, WINDOW_CLASS_NAME, WINDOW_CLASS_STYLE, WINDOW_STYLE,
    WINDOW_TITLE, WM_CLOSE, WM_DESTROY, WM_QUIT,
};
