//! Handle lifecycle: rebind avoidance, exactly-one-deletion, and clones
//! keeping objects alive.

use asi_opengl::call::GlCall;
use asi_opengl::loader::FnTable;
use asi_opengl::Buffer;
use asi_opengl::Error;
use asi_opengl::OpenGL;
use asi_opengl::OpenGLBuilder;
use asi_opengl::Texture;

fn bootstrap() -> OpenGL {
    let mut b = OpenGLBuilder::new(asi_opengl::loader::default_library_names());
    assert_eq!(b.report_open(true).unwrap(), true);
    b.connect(7, true).unwrap();
    b.configure(true, 1, 9).unwrap();
    assert_eq!(b.create_context(true, 11, true, 42).unwrap(), 42);
    let table = FnTable::new(vec![1u64; asi_opengl::loader::SYMBOL_COUNT]).unwrap();
    b.to_opengl(13, true, table, true, true).unwrap()
}

#[test]
fn bind_same_buffer_twice_issues_one_call() {
    let mut gl = bootstrap();
    let buf = Buffer::new(&mut gl, 5).unwrap();
    gl.take_calls();
    buf.bind(&mut gl);
    buf.bind(&mut gl);
    let calls = gl.take_calls();
    assert_eq!(calls, vec![GlCall::BindBuffer { target: 0x8892, buffer: 5 }]);
}

#[test]
fn bind_issues_once_per_transition() {
    let mut gl = bootstrap();
    let a = Buffer::new(&mut gl, 5).unwrap();
    let b = Buffer::new(&mut gl, 6).unwrap();
    gl.take_calls();
    a.bind(&mut gl);
    a.bind(&mut gl);
    b.bind(&mut gl);
    b.bind(&mut gl);
    a.bind(&mut gl);
    let calls = gl.take_calls();
    assert_eq!(
        calls,
        vec![
            GlCall::BindBuffer { target: 0x8892, buffer: 5 },
            GlCall::BindBuffer { target: 0x8892, buffer: 6 },
            GlCall::BindBuffer { target: 0x8892, buffer: 5 },
        ]
    );
}

#[test]
fn texture_rebind_avoided_after_allocation() {
    let mut gl = bootstrap();
    let tex = Texture::new(&mut gl, 3).unwrap();
    // Allocation already made the texture current and set its filters.
    let calls = gl.take_calls();
    assert_eq!(
        calls,
        vec![
            GlCall::BindTexture { target: 0x0DE1, texture: 3 },
            GlCall::TexParameter { target: 0x0DE1, pname: 0x2800, value: 0x2601 },
            GlCall::TexParameter { target: 0x0DE1, pname: 0x2801, value: 0x2703 },
        ]
    );
    tex.bind(&mut gl);
    assert!(gl.take_calls().is_empty());
}

#[test]
fn releasing_one_of_three_deletes_only_it() {
    let mut gl = bootstrap();
    let a = Buffer::new(&mut gl, 1).unwrap();
    let b = Buffer::new(&mut gl, 2).unwrap();
    let c = Buffer::new(&mut gl, 3).unwrap();
    gl.take_calls();
    b.release(&mut gl);
    let calls = gl.take_calls();
    assert_eq!(calls, vec![GlCall::DeleteBuffer { buffer: 2 }]);
    a.release(&mut gl);
    c.release(&mut gl);
    let calls = gl.take_calls();
    assert_eq!(
        calls,
        vec![GlCall::DeleteBuffer { buffer: 1 }, GlCall::DeleteBuffer { buffer: 3 }]
    );
}

#[test]
fn clone_keeps_object_alive_and_deletion_happens_once() {
    let mut gl = bootstrap();
    let original = Buffer::new(&mut gl, 7).unwrap();
    let copy = original.duplicate(&mut gl).unwrap();
    assert_eq!(copy.id(), 7);
    gl.take_calls();
    copy.release(&mut gl);
    assert!(gl.take_calls().is_empty());
    original.release(&mut gl);
    assert_eq!(gl.take_calls(), vec![GlCall::DeleteBuffer { buffer: 7 }]);
}

#[test]
fn texture_clone_and_release() {
    let mut gl = bootstrap();
    let original = Texture::new(&mut gl, 9).unwrap();
    let copy = original.duplicate(&mut gl).unwrap();
    gl.take_calls();
    original.release(&mut gl);
    assert!(gl.take_calls().is_empty());
    copy.release(&mut gl);
    assert_eq!(gl.take_calls(), vec![GlCall::DeleteTexture { texture: 9 }]);
}

#[test]
fn deletion_resets_the_bind_cache() {
    let mut gl = bootstrap();
    let a = Buffer::new(&mut gl, 5).unwrap();
    a.bind(&mut gl);
    a.release(&mut gl);
    gl.take_calls();
    // The driver may hand the same identifier out again; binding the new
    // object must issue a real bind even though the dead object was the
    // last one bound.
    let again = Buffer::new(&mut gl, 5).unwrap();
    again.bind(&mut gl);
    assert_eq!(
        gl.take_calls(),
        vec![GlCall::BindBuffer { target: 0x8892, buffer: 5 }]
    );
    again.release(&mut gl);
}

#[test]
fn rewrapping_a_live_identifier_is_refused() {
    let mut gl = bootstrap();
    let _a = Buffer::new(&mut gl, 4).unwrap();
    match Buffer::new(&mut gl, 4) {
        Err(Error::AlreadyLive) => {},
        _ => panic!("a live identifier must not be wrapped twice"),
    }
}

#[test]
fn buffer_set_binds_then_uploads() {
    let mut gl = bootstrap();
    let buf = Buffer::new(&mut gl, 5).unwrap();
    gl.take_calls();
    buf.set(&mut gl, vec![1, 2, 3, 4]);
    assert_eq!(
        gl.take_calls(),
        vec![
            GlCall::BindBuffer { target: 0x8892, buffer: 5 },
            GlCall::BufferData { target: 0x8892, data: vec![1, 2, 3, 4], usage: 0x88E8 },
        ]
    );
    // A second upload does not rebind.
    buf.set(&mut gl, vec![9]);
    assert_eq!(
        gl.take_calls(),
        vec![GlCall::BufferData { target: 0x8892, data: vec![9], usage: 0x88E8 }]
    );
    buf.release(&mut gl);
}

#[test]
fn texture_set_and_update() {
    let mut gl = bootstrap();
    let tex = Texture::new(&mut gl, 2).unwrap();
    gl.take_calls();
    tex.set(&mut gl, 1, 1, vec![255, 0, 0, 255]);
    assert_eq!(
        gl.take_calls(),
        vec![
            GlCall::TexImage2D { width: 1, height: 1, data: vec![255, 0, 0, 255] },
            GlCall::GenerateMipmap { target: 0x0DE1 },
        ]
    );
    tex.update(&mut gl, 1, 1, vec![0, 255, 0, 255]);
    assert_eq!(
        gl.take_calls(),
        vec![GlCall::TexSubImage2D { width: 1, height: 1, data: vec![0, 255, 0, 255] }]
    );
    tex.release(&mut gl);
}
