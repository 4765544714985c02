//! The pass-through call surface of the context itself: exact call words,
//! float bit patterns, the frame presentation pair, the validation switch
//! and the fault categories.

use asi_opengl::call::GlCall;
use asi_opengl::error::error_category;
use asi_opengl::loader::FnTable;
use asi_opengl::ApiFault;
use asi_opengl::Buffer;
use asi_opengl::OpenGL;
use asi_opengl::OpenGLBuilder;
use asi_opengl::PixelFormatDescriptor;

fn bootstrap_checked(check_errors: bool) -> OpenGL {
    let mut b = OpenGLBuilder::new(asi_opengl::loader::default_library_names());
    b.report_open(true).unwrap();
    b.connect(7, true).unwrap();
    b.configure(true, 1, 9).unwrap();
    b.create_context(true, 11, true, 42).unwrap();
    let table = FnTable::new(vec![1u64; asi_opengl::loader::SYMBOL_COUNT]).unwrap();
    b.to_opengl(13, true, table, check_errors, true).unwrap()
}

#[test]
fn clear_color_fixes_alpha_at_one() {
    let mut gl = bootstrap_checked(true);
    gl.take_calls();
    gl.color(1.0f32.to_bits(), 0.5f32.to_bits(), 0.25f32.to_bits());
    assert_eq!(
        gl.take_calls(),
        vec![GlCall::ClearColor {
            r: 0x3F800000,
            g: 0x3F000000,
            b: 0x3E800000,
            a: 1.0f32.to_bits(),
        }]
    );
}

#[test]
fn update_swaps_then_clears_color_and_depth() {
    let mut gl = bootstrap_checked(true);
    gl.take_calls();
    gl.update();
    assert_eq!(
        gl.take_calls(),
        vec![GlCall::Swap, GlCall::Clear { mask: 0x00000100 | 0x00004000 }]
    );
}

#[test]
fn enable_disable_and_blend_words() {
    let mut gl = bootstrap_checked(true);
    gl.take_calls();
    gl.enable(0x0B71);
    gl.disable(0x0B71);
    gl.blend();
    assert_eq!(
        gl.take_calls(),
        vec![
            GlCall::Enable { cap: 0x0B71 },
            GlCall::Disable { cap: 0x0B71 },
            GlCall::BlendFuncSeparate {
                src_rgb: 0x0302,
                dst_rgb: 0x0303,
                src_alpha: 0x0302,
                dst_alpha: 0x0304,
            },
        ]
    );
}

#[test]
fn legacy_buffer_and_draw_calls() {
    let mut gl = bootstrap_checked(true);
    let buf = Buffer::new(&mut gl, 5).unwrap();
    gl.take_calls();
    gl.bind_buffer(&buf);
    gl.set_buffer(vec![7, 8]);
    gl.draw_arrays(2, 6);
    assert_eq!(
        gl.take_calls(),
        vec![
            GlCall::BindBuffer { target: 0x8892, buffer: 5 },
            GlCall::BufferData { target: 0x8892, data: vec![7, 8], usage: 0x88E8 },
            GlCall::DrawArrays { mode: 0x0006, first: 2, count: 6 },
        ]
    );
    // Legacy binds go through the same cache.
    gl.bind_buffer(&buf);
    assert!(gl.take_calls().is_empty());
}

#[test]
fn legacy_uniform_setters_carry_bit_patterns() {
    let mut gl = bootstrap_checked(true);
    gl.take_calls();
    let mat: Vec<u32> = (100..116).collect();
    gl.set_mat4(1, mat.clone());
    gl.set_int1(2, -3);
    gl.set_vec1(3, 2.0f32.to_bits());
    gl.set_vec2(4, &[1, 2]);
    gl.set_vec3(5, &[1, 2, 3]);
    gl.set_vec4(6, &[1, 2, 3, 4]);
    assert_eq!(
        gl.take_calls(),
        vec![
            GlCall::UniformMat4 { location: 1, data: mat },
            GlCall::Uniform1i { location: 2, value: -3 },
            GlCall::Uniform1f { location: 3, x: 0x40000000 },
            GlCall::Uniform2f { location: 4, x: 1, y: 2 },
            GlCall::Uniform3f { location: 5, x: 1, y: 2, z: 3 },
            GlCall::Uniform4f { location: 6, x: 1, y: 2, z: 3, w: 4 },
        ]
    );
}

#[test]
fn legacy_texture_calls() {
    let mut gl = bootstrap_checked(true);
    let tex = gl.new_texture(4).unwrap();
    gl.take_calls();
    gl.use_texture(&tex);
    assert!(gl.take_calls().is_empty());
    gl.set_texture(1, 1, vec![9, 9, 9, 9]);
    gl.texture_update(1, 1, vec![8, 8, 8, 8]);
    assert_eq!(
        gl.take_calls(),
        vec![
            GlCall::TexImage2D { width: 1, height: 1, data: vec![9, 9, 9, 9] },
            GlCall::GenerateMipmap { target: 0x0DE1 },
            GlCall::TexSubImage2D { width: 1, height: 1, data: vec![8, 8, 8, 8] },
        ]
    );
    tex.release(&mut gl);
}

#[test]
fn viewport_covers_the_window() {
    let mut gl = bootstrap_checked(true);
    gl.take_calls();
    gl.viewport(640, 480);
    assert_eq!(
        gl.take_calls(),
        vec![GlCall::Viewport { x: 0, y: 0, width: 640, height: 480 }]
    );
}

#[test]
fn take_calls_drains_the_queue() {
    let mut gl = bootstrap_checked(true);
    gl.enable(1);
    assert_eq!(gl.take_calls().len(), 1);
    assert!(gl.take_calls().is_empty());
}

#[test]
fn fault_categories_match_the_error_codes() {
    assert_eq!(error_category(0), None);
    assert_eq!(error_category(0x0500), Some(ApiFault::InvalidEnum));
    assert_eq!(error_category(0x0501), Some(ApiFault::InvalidValue));
    assert_eq!(error_category(0x0502), Some(ApiFault::InvalidOperation));
    assert_eq!(error_category(0x0503), Some(ApiFault::StackOverflow));
    assert_eq!(error_category(0x0504), Some(ApiFault::StackUnderflow));
    assert_eq!(error_category(0x0505), Some(ApiFault::OutOfMemory));
    assert_eq!(error_category(0x0999), Some(ApiFault::Unknown));
}

#[test]
fn validation_switch_decides_whether_faults_are_fatal() {
    let gl = bootstrap_checked(true);
    assert!(gl.validating());
    assert_eq!(gl.error(0), Ok(()));
    assert_eq!(gl.error(0x0505), Err(ApiFault::OutOfMemory));
    let quiet = bootstrap_checked(false);
    assert!(!quiet.validating());
    assert_eq!(quiet.error(0x0505), Ok(()));
}

#[test]
fn standard_pixel_format_descriptor() {
    let d = PixelFormatDescriptor::standard();
    assert_eq!(d.n_size, 40);
    assert_eq!(d.n_version, 1);
    assert_eq!(d.dw_flags, 4 | 32 | 1);
    assert_eq!(d.i_pixel_type, 0);
    assert_eq!(d.c_color_bits, 24);
    assert_eq!(d.c_depth_bits, 24);
    assert_eq!(d.c_stencil_bits, 8);
    assert_eq!(d.dw_layer_mask, 0);
}
