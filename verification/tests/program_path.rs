//! Program assembly and the accessor handles: compile/link call order,
//! probing lookups that represent absence instead of failing, and the
//! shares that accessors hold on their program and buffers.

use asi_opengl::call::GlCall;
use asi_opengl::loader::FnTable;
use asi_opengl::Buffer;
use asi_opengl::Error;
use asi_opengl::OpenGL;
use asi_opengl::OpenGLBuilder;
use asi_opengl::Program;
use asi_opengl::Shader;
use asi_opengl::UniformData;
use asi_opengl::VertexData;

const VERTEX_SRC: &[u8] = b"attribute vec4 pos; void main() { gl_Position = pos; }";
const FRAGMENT_SRC: &[u8] =
    b"uniform lowp vec4 u_color; void main() { gl_FragColor = u_color; }";

fn bootstrap_with(check_compile: bool) -> OpenGL {
    let mut b = OpenGLBuilder::new(asi_opengl::loader::default_library_names());
    b.report_open(true).unwrap();
    b.connect(7, true).unwrap();
    b.configure(true, 1, 9).unwrap();
    b.create_context(true, 11, true, 42).unwrap();
    let table = FnTable::new(vec![1u64; asi_opengl::loader::SYMBOL_COUNT]).unwrap();
    b.to_opengl(13, true, table, true, check_compile).unwrap()
}

fn passthrough_program(gl: &mut OpenGL) -> Program {
    let vs = Shader::new(gl, true, VERTEX_SRC.to_vec(), 100);
    let fs = Shader::new(gl, false, FRAGMENT_SRC.to_vec(), 101);
    Program::new(gl, &vs, &fs, true, vec![], true, vec![], 200).unwrap()
}

#[test]
fn compile_issues_source_and_compile_per_stage() {
    let mut gl = bootstrap_with(true);
    gl.take_calls();
    let vs = Shader::new(&mut gl, true, VERTEX_SRC.to_vec(), 100);
    assert_eq!(vs.id(), 100);
    assert_eq!(
        gl.take_calls(),
        vec![
            GlCall::ShaderSource { shader: 100, source: VERTEX_SRC.to_vec() },
            GlCall::CompileShader { shader: 100 },
        ]
    );
}

#[test]
fn link_attaches_links_and_detaches_in_order() {
    let mut gl = bootstrap_with(true);
    let vs = Shader::new(&mut gl, true, VERTEX_SRC.to_vec(), 100);
    let fs = Shader::new(&mut gl, false, FRAGMENT_SRC.to_vec(), 101);
    gl.take_calls();
    let program = Program::new(&mut gl, &vs, &fs, true, vec![], true, vec![], 200).unwrap();
    assert_eq!(program.id(), 200);
    assert_eq!(
        gl.take_calls(),
        vec![
            GlCall::AttachShader { program: 200, shader: 100 },
            GlCall::AttachShader { program: 200, shader: 101 },
            GlCall::LinkProgram { program: 200 },
            GlCall::DetachShader { program: 200, shader: 100 },
            GlCall::DetachShader { program: 200, shader: 101 },
        ]
    );
}

#[test]
fn compile_and_probe_uniforms() {
    // The end-to-end shape: a trivial passthrough pair compiles, a name the
    // fragment source declares is present, and an unknown name reports
    // absent without any fatal error.
    let mut gl = bootstrap_with(true);
    let program = passthrough_program(&mut gl);
    let missing = program.uniform(&mut gl, b"no_such_uniform\0", -1).unwrap();
    assert!(missing.is_none());
    let color = program.uniform(&mut gl, b"u_color\0", 2).unwrap();
    assert!(!color.is_none());
    assert_eq!(color.location(), 2);
}

#[test]
fn failed_vertex_stage_reports_its_log() {
    let mut gl = bootstrap_with(true);
    let vs = Shader::new(&mut gl, true, b"nonsense".to_vec(), 100);
    let fs = Shader::new(&mut gl, false, FRAGMENT_SRC.to_vec(), 101);
    gl.take_calls();
    let log = b"0:1: syntax error".to_vec();
    let r = Program::new(&mut gl, &vs, &fs, false, log.clone(), true, vec![], 200);
    assert_eq!(r.err().unwrap(), Error::ShaderCompileError(log));
    // A refused link issues nothing.
    assert!(gl.take_calls().is_empty());
}

#[test]
fn failed_fragment_stage_reports_its_log() {
    let mut gl = bootstrap_with(true);
    let vs = Shader::new(&mut gl, true, VERTEX_SRC.to_vec(), 100);
    let fs = Shader::new(&mut gl, false, b"nonsense".to_vec(), 101);
    let log = b"0:1: unknown identifier".to_vec();
    let r = Program::new(&mut gl, &vs, &fs, true, vec![], false, log.clone(), 200);
    assert_eq!(r.err().unwrap(), Error::ShaderCompileError(log));
}

#[test]
fn unchecked_compilation_ignores_statuses() {
    let mut gl = bootstrap_with(false);
    let vs = Shader::new(&mut gl, true, VERTEX_SRC.to_vec(), 100);
    let fs = Shader::new(&mut gl, false, FRAGMENT_SRC.to_vec(), 101);
    let r = Program::new(&mut gl, &vs, &fs, false, vec![], false, vec![], 200);
    assert!(r.is_ok());
}

#[test]
fn setters_rebind_the_program_only_on_transition() {
    let mut gl = bootstrap_with(true);
    let program = passthrough_program(&mut gl);
    let color = program.uniform(&mut gl, b"u_color\0", 2).unwrap();
    gl.take_calls();
    color.set_vec4(&mut gl, &[1, 2, 3, 4]);
    color.set_int1(&mut gl, 5);
    assert_eq!(
        gl.take_calls(),
        vec![
            GlCall::UseProgram { program: 200 },
            GlCall::Uniform4f { location: 2, x: 1, y: 2, z: 3, w: 4 },
            GlCall::Uniform1i { location: 2, value: 5 },
        ]
    );
}

#[test]
fn every_uniform_setter_uploads_to_its_slot() {
    let mut gl = bootstrap_with(true);
    let program = passthrough_program(&mut gl);
    let u = program.uniform(&mut gl, b"u_color\0", 3).unwrap();
    program.bind(&mut gl);
    gl.take_calls();
    let mat: Vec<u32> = (0..16).collect();
    u.set_mat4(&mut gl, mat.clone());
    u.set_vec1(&mut gl, 11);
    u.set_vec2(&mut gl, &[1, 2]);
    u.set_vec3(&mut gl, &[1, 2, 3]);
    u.set_vec4(&mut gl, &[1, 2, 3, 4]);
    assert_eq!(
        gl.take_calls(),
        vec![
            GlCall::UniformMat4 { location: 3, data: mat },
            GlCall::Uniform1f { location: 3, x: 11 },
            GlCall::Uniform2f { location: 3, x: 1, y: 2 },
            GlCall::Uniform3f { location: 3, x: 1, y: 2, z: 3 },
            GlCall::Uniform4f { location: 3, x: 1, y: 2, z: 3, w: 4 },
        ]
    );
}

#[test]
fn uniform_handle_keeps_the_program_alive() {
    let mut gl = bootstrap_with(true);
    let program = passthrough_program(&mut gl);
    let u = program.uniform(&mut gl, b"u_color\0", 2).unwrap();
    gl.take_calls();
    program.release(&mut gl);
    assert!(gl.take_calls().is_empty());
    u.release(&mut gl);
    assert_eq!(gl.take_calls(), vec![GlCall::DeleteProgram { program: 200 }]);
}

#[test]
fn absent_attribute_is_represented_not_fatal() {
    let mut gl = bootstrap_with(true);
    let program = passthrough_program(&mut gl);
    gl.take_calls();
    let missing = program.vertex_data(&mut gl, b"no_such_attribute\0", -1).unwrap();
    assert!(missing.is_none());
    assert!(gl.take_calls().is_empty());
    let pos = program.vertex_data(&mut gl, b"pos\0", 0).unwrap();
    assert!(!pos.is_none());
    assert_eq!(gl.take_calls(), vec![GlCall::EnableVertexAttribArray { index: 0 }]);
    missing.release(&mut gl);
    pos.release(&mut gl);
}

#[test]
fn vertex_data_set_binds_and_describes_the_buffer() {
    let mut gl = bootstrap_with(true);
    let program = passthrough_program(&mut gl);
    let mut pos = program.vertex_data(&mut gl, b"pos\0", 0).unwrap();
    let buf = Buffer::new(&mut gl, 5).unwrap();
    gl.take_calls();
    pos.set(&mut gl, &buf);
    assert_eq!(
        gl.take_calls(),
        vec![
            GlCall::BindBuffer { target: 0x8892, buffer: 5 },
            GlCall::VertexAttribPointer { index: 0 },
        ]
    );
    // The attribute holds a share of the buffer: releasing the caller's
    // handle does not delete the object.
    buf.release(&mut gl);
    assert!(gl.take_calls().is_empty());
    pos.release(&mut gl);
    let calls = gl.take_calls();
    assert!(calls.contains(&GlCall::DeleteBuffer { buffer: 5 }));
}

#[test]
fn vertex_data_set_releases_the_previously_held_buffer() {
    let mut gl = bootstrap_with(true);
    let program = passthrough_program(&mut gl);
    let mut pos = program.vertex_data(&mut gl, b"pos\0", 0).unwrap();
    let first = Buffer::new(&mut gl, 5).unwrap();
    let second = Buffer::new(&mut gl, 6).unwrap();
    pos.set(&mut gl, &first);
    first.release(&mut gl);
    gl.take_calls();
    // Pointing the slot elsewhere lets go of the old buffer, whose last
    // share this was.
    pos.set(&mut gl, &second);
    assert_eq!(
        gl.take_calls(),
        vec![
            GlCall::DeleteBuffer { buffer: 5 },
            GlCall::BindBuffer { target: 0x8892, buffer: 6 },
            GlCall::VertexAttribPointer { index: 0 },
        ]
    );
    second.release(&mut gl);
    pos.release(&mut gl);
}

#[test]
fn program_draw_arrays_binds_first() {
    let mut gl = bootstrap_with(true);
    let program = passthrough_program(&mut gl);
    gl.take_calls();
    program.draw_arrays(&mut gl, 0x0006, 0, 4);
    assert_eq!(
        gl.take_calls(),
        vec![
            GlCall::UseProgram { program: 200 },
            GlCall::DrawArrays { mode: 0x0006, first: 0, count: 4 },
        ]
    );
    // Already current: only the draw is issued.
    program.draw_arrays(&mut gl, 0x0006, 4, 4);
    assert_eq!(
        gl.take_calls(),
        vec![GlCall::DrawArrays { mode: 0x0006, first: 4, count: 4 }]
    );
}

#[test]
fn legacy_uniform_lookup_is_fatal_on_absence() {
    let mut gl = bootstrap_with(true);
    let program = passthrough_program(&mut gl);
    assert_eq!(gl.uniform(&program, b"no_such_uniform\0", -1), Err(Error::LookupError));
    assert_eq!(gl.uniform(&program, b"u_color\0", 2), Ok(2));
}

#[test]
fn rewrapping_a_live_program_identifier_is_refused() {
    let mut gl = bootstrap_with(true);
    let program = passthrough_program(&mut gl);
    let vs = Shader::new(&mut gl, true, VERTEX_SRC.to_vec(), 102);
    let fs = Shader::new(&mut gl, false, FRAGMENT_SRC.to_vec(), 103);
    gl.take_calls();
    let r = Program::new(&mut gl, &vs, &fs, true, vec![], true, vec![], program.id());
    assert_eq!(r.err().unwrap(), Error::AlreadyLive);
    assert!(gl.take_calls().is_empty());
}

#[test]
fn program_duplicate_shares_the_object() {
    let mut gl = bootstrap_with(true);
    let program = passthrough_program(&mut gl);
    let copy = program.duplicate(&mut gl).unwrap();
    gl.take_calls();
    program.release(&mut gl);
    assert!(gl.take_calls().is_empty());
    copy.release(&mut gl);
    assert_eq!(gl.take_calls(), vec![GlCall::DeleteProgram { program: 200 }]);
}

#[test]
fn uniform_data_new_wraps_the_reported_location() {
    let mut gl = bootstrap_with(true);
    let program = passthrough_program(&mut gl);
    let u = UniformData::new(&mut gl, &program, b"u_color\0", 4).unwrap();
    assert_eq!(u.location(), 4);
    assert!(!u.is_none());
    u.release(&mut gl);
}

#[test]
fn vertex_data_new_wraps_the_reported_location() {
    let mut gl = bootstrap_with(true);
    let program = passthrough_program(&mut gl);
    let v = VertexData::new(&mut gl, &program, b"pos\0", 1).unwrap();
    assert_eq!(v.location(), 1);
    assert!(!v.is_none());
    v.release(&mut gl);
}
