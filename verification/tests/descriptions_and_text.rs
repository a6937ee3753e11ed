use rusty_beagle::{
    create_swap_chain_description, depth_buffer_description, frame_parameters, rasterizer_description,
    semantic_name, to_wide_null, vertex_buffer_binding, vertex_buffer_description, vertex_input_layout,
    BufferDescription, FrameParameters, InputElementDescription, RasterizerDescription,
    SwapChainDescription, Texture2dDescription, VertexBufferBinding, VertexSemantic, WINDOW_CLASS_NAME,
    WINDOW_CLASS_STYLE, WINDOW_STYLE, WINDOW_TITLE,
};

#[test]
fn swap_chain_description_values() {
    assert_eq!(
        create_swap_chain_description(0x1234),
        SwapChainDescription {
            width: 800,
            height: 600,
            refresh_rate_numerator: 60,
            refresh_rate_denominator: 1,
            format: 28,
            scanline_ordering: 0,
            scaling: 0,
            sample_count: 1,
            sample_quality: 0,
            buffer_usage: 0x20,
            buffer_count: 1,
            output_window: 0x1234,
            windowed: 1,
            swap_effect: 0,
            flags: 0,
        }
    );
    assert_eq!(create_swap_chain_description(7).output_window, 7);
}

#[test]
fn depth_buffer_description_values() {
    assert_eq!(
        depth_buffer_description(),
        Texture2dDescription {
            width: 800,
            height: 600,
            mip_levels: 1,
            array_size: 1,
            format: 45,
            sample_count: 1,
            sample_quality: 0,
            usage: 0,
            bind_flags: 0x40,
            cpu_access_flags: 0,
            misc_flags: 0,
        }
    );
}

#[test]
fn depth_buffer_matches_back_buffer() {
    let swap = create_swap_chain_description(99);
    let depth = depth_buffer_description();
    assert_eq!((depth.width, depth.height), (swap.width, swap.height));
    assert_eq!((depth.sample_count, depth.sample_quality), (swap.sample_count, swap.sample_quality));
}

#[test]
fn vertex_buffer_description_for_the_triangle() {
    assert_eq!(
        vertex_buffer_description(28, 3),
        BufferDescription {
            byte_width: 84,
            usage: 0,
            bind_flags: 1,
            cpu_access_flags: 0,
            misc_flags: 0,
            structure_byte_stride: 0,
        }
    );
    assert_eq!(vertex_buffer_description(0, 3).byte_width, 0);
    assert_eq!(vertex_buffer_description(16, 10).byte_width, 160);
}

#[test]
fn vertex_buffer_width_is_taken_as_a_uint() {
    if usize::BITS == 64 {
        let size: usize = 1 << 32;
        assert_eq!(vertex_buffer_description(size + 4, 1).byte_width, 4);
    }
}

#[test]
fn input_layout_is_position_then_color() {
    assert_eq!(
        vertex_input_layout(),
        vec![
            InputElementDescription {
                semantic: VertexSemantic::Position,
                semantic_index: 0,
                format: 6,
                input_slot: 0,
                aligned_byte_offset: 0,
                input_slot_class: 0,
                instance_data_step_rate: 0,
            },
            InputElementDescription {
                semantic: VertexSemantic::Color,
                semantic_index: 0,
                format: 2,
                input_slot: 0,
                aligned_byte_offset: 12,
                input_slot_class: 0,
                instance_data_step_rate: 0,
            },
        ]
    );
    assert_eq!(semantic_name(VertexSemantic::Position), "POSITION");
    assert_eq!(semantic_name(VertexSemantic::Color), "COLOR");
}

#[test]
fn vertex_binding_and_frame() {
    assert_eq!(
        vertex_buffer_binding(28),
        VertexBufferBinding { start_slot: 0, buffer_count: 1, stride: 28, offset: 0, topology: 4 }
    );
    let frame = frame_parameters();
    assert_eq!(
        frame,
        FrameParameters {
            clear_flags: 1,
            clear_stencil: 0,
            vertex_count: 3,
            start_vertex: 0,
            sync_interval: 1,
            present_flags: 0,
        }
    );
    let stride = 28usize;
    assert_eq!(
        frame.vertex_count as usize * stride,
        vertex_buffer_description(stride, 3).byte_width as usize
    );
}

#[test]
fn rasterizer_description_values() {
    assert_eq!(
        rasterizer_description(),
        RasterizerDescription {
            fill_mode: 3,
            cull_mode: 1,
            front_counter_clockwise: 1,
            depth_bias: 0,
            depth_clip_enable: 0,
            scissor_enable: 0,
            multisample_enable: 0,
            antialiased_line_enable: 0,
        }
    );
}

#[test]
fn window_parameters() {
    assert_eq!(WINDOW_CLASS_NAME, "mainwindow");
    assert_eq!(WINDOW_TITLE, "Rusty Beagle!");
    assert_eq!(WINDOW_CLASS_STYLE, 0x0001 | 0x0002);
    assert_eq!(WINDOW_STYLE, 0x0000_0000 | 0x00C0_0000 | 0x0008_0000 | 0x0004_0000 | 0x0002_0000 | 0x0001_0000);
}

#[test]
fn wide_class_name_is_null_terminated_ascii() {
    let wide = to_wide_null(WINDOW_CLASS_NAME);
    let expected: Vec<u16> = "mainwindow".bytes().map(u16::from).chain(std::iter::once(0)).collect();
    assert_eq!(wide, expected);
    assert_eq!(wide.len(), 11);
    assert_eq!(wide.iter().filter(|&&u| u == 0).count(), 1);
}

#[test]
fn wide_title_matches_std_utf16() {
    let wide = to_wide_null(WINDOW_TITLE);
    let expected: Vec<u16> = WINDOW_TITLE.encode_utf16().chain(std::iter::once(0)).collect();
    assert_eq!(wide, expected);
}

#[test]
fn wide_text_of_empty_string_is_only_the_terminator() {
    assert_eq!(to_wide_null(""), vec![0u16]);
}

#[test]
fn wide_text_uses_surrogate_pairs_above_the_basic_plane() {
    assert_eq!(to_wide_null("a\u{1F600}é"), vec![0x61, 0xD83D, 0xDE00, 0xE9, 0]);
    assert_eq!(to_wide_null("\u{10000}\u{10FFFF}\u{FFFF}"), vec![0xD800, 0xDC00, 0xDBFF, 0xDFFF, 0xFFFF, 0]);
    let text = "Grüße, 世界 🦀";
    let expected: Vec<u16> = text.encode_utf16().chain(std::iter::once(0)).collect();
    assert_eq!(to_wide_null(text), expected);
}
