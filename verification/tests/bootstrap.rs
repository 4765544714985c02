//! Bootstrap: candidate-library fallback, phase ordering, the negotiated
//! and windowed completion paths, and symbol-table construction.

use asi_opengl::builder::config_attributes;
use asi_opengl::builder::context_attributes;
use asi_opengl::loader::check_address;
use asi_opengl::loader::default_library_names;
use asi_opengl::loader::resolve_address;
use asi_opengl::loader::symbol_name;
use asi_opengl::loader::FnTable;
use asi_opengl::loader::SYMBOL_COUNT;
use asi_opengl::Error;
use asi_opengl::OpenGLBuilder;

fn full_table() -> FnTable {
    FnTable::new(vec![1u64; SYMBOL_COUNT]).unwrap()
}

#[test]
fn loader_falls_back_to_second_candidate() {
    let mut b = OpenGLBuilder::new(default_library_names());
    assert_eq!(b.next_library().unwrap().as_str(), "libEGL.so.1");
    assert_eq!(b.report_open(false).unwrap(), false);
    assert_eq!(b.next_library().unwrap().as_str(), "libGL.so.1");
    assert_eq!(b.report_open(true).unwrap(), true);
    // The fallback library carries the bootstrap to a usable context.
    b.connect(1, true).unwrap();
    b.configure(true, 3, 2).unwrap();
    assert_eq!(b.create_context(true, 4, true, 77).unwrap(), 77);
    let gl = b.to_opengl(5, true, full_table(), false, true).unwrap();
    assert!(!gl.validating());
}

#[test]
fn loader_fails_when_every_candidate_fails() {
    let mut b = OpenGLBuilder::new(default_library_names());
    assert_eq!(b.report_open(false).unwrap(), false);
    assert_eq!(b.report_open(false), Err(Error::LoadError));
    assert!(b.next_library().is_none());
    assert_eq!(b.report_open(true), Err(Error::LoadError));
}

#[test]
fn completion_without_configuration_fails_deterministically() {
    let b = OpenGLBuilder::new(default_library_names());
    assert_eq!(
        b.to_opengl(5, true, full_table(), true, true).err().unwrap(),
        Error::PhaseOrder
    );
}

#[test]
fn each_step_requires_the_one_before_it() {
    let mut b = OpenGLBuilder::new(default_library_names());
    assert_eq!(b.connect(1, true), Err(Error::PhaseOrder));
    assert_eq!(b.configure(true, 1, 1), Err(Error::PhaseOrder));
    assert_eq!(b.create_context(true, 1, true, 0), Err(Error::PhaseOrder));
    b.report_open(true).unwrap();
    assert_eq!(b.configure(true, 1, 1), Err(Error::PhaseOrder));
    assert_eq!(b.create_context(true, 1, true, 0), Err(Error::PhaseOrder));
    b.connect(1, true).unwrap();
    assert_eq!(b.create_context(true, 1, true, 0), Err(Error::PhaseOrder));
    assert_eq!(b.report_open(true), Err(Error::PhaseOrder));
}

#[test]
fn each_negotiation_failure_is_its_own_error() {
    let mut b = OpenGLBuilder::new(default_library_names());
    b.report_open(true).unwrap();
    assert_eq!(b.connect(0, true), Err(Error::DisplayUnavailable));
    assert_eq!(b.connect(1, false), Err(Error::InitializeFailed));
    b.connect(1, true).unwrap();
    assert_eq!(b.configure(false, 1, 1), Err(Error::NoMatchingConfig));
    assert_eq!(b.configure(true, 0, 1), Err(Error::NoMatchingConfig));
    b.configure(true, 1, 1).unwrap();
    assert_eq!(b.create_context(false, 1, true, 0), Err(Error::ApiBindFailed));
    assert_eq!(b.create_context(true, 0, true, 0), Err(Error::ContextCreationFailed));
    assert_eq!(b.create_context(true, 1, false, 0), Err(Error::VisualUnavailable));
    b.create_context(true, 1, true, 6).unwrap();
}

#[test]
fn completion_failures_are_their_own_errors() {
    let mut b = OpenGLBuilder::new(default_library_names());
    b.report_open(true).unwrap();
    b.connect(1, true).unwrap();
    b.configure(true, 1, 1).unwrap();
    b.create_context(true, 1, true, 6).unwrap();
    // The builder is consumed by completion, so each failure needs its own
    // bootstrapped builder; drive two fresh ones to the same point.
    let mut b2 = OpenGLBuilder::new(default_library_names());
    b2.report_open(true).unwrap();
    b2.connect(1, true).unwrap();
    b2.configure(true, 1, 1).unwrap();
    b2.create_context(true, 1, true, 6).unwrap();
    assert_eq!(
        b.to_opengl(0, true, full_table(), true, true).err().unwrap(),
        Error::SurfaceBindFailed
    );
    assert_eq!(
        b2.to_opengl(5, false, full_table(), true, true).err().unwrap(),
        Error::MakeCurrentFailed
    );
}

#[test]
fn windowed_path_collapses_into_completion() {
    let mut b = OpenGLBuilder::new(vec!["opengl32.dll".to_string()]);
    b.report_open(true).unwrap();
    assert_eq!(b.windowed_path().unwrap(), 0);
    let gl = b
        .to_opengl_windowed(3, 2, true, 4, true, full_table(), true, false)
        .unwrap();
    assert!(gl.validating());
    assert!(!gl.checks_compile());
}

#[test]
fn windowed_completion_failures() {
    for (device, format, set_ok, context, current, want) in [
        (0u64, 2, true, 4u64, true, Error::DisplayUnavailable),
        (3, 0, true, 4, true, Error::NoMatchingConfig),
        (3, 2, false, 4, true, Error::SurfaceBindFailed),
        (3, 2, true, 0, true, Error::ContextCreationFailed),
        (3, 2, true, 4, false, Error::MakeCurrentFailed),
    ] {
        let mut b = OpenGLBuilder::new(vec!["opengl32.dll".to_string()]);
        b.report_open(true).unwrap();
        b.windowed_path().unwrap();
        assert_eq!(
            b.to_opengl_windowed(device, format, set_ok, context, current, full_table(), true, true)
                .err()
                .unwrap(),
            want
        );
    }
}

#[test]
fn completion_paths_do_not_cross() {
    let mut egl = OpenGLBuilder::new(default_library_names());
    egl.report_open(true).unwrap();
    egl.connect(1, true).unwrap();
    egl.configure(true, 1, 1).unwrap();
    egl.create_context(true, 1, true, 6).unwrap();
    assert_eq!(
        egl.to_opengl_windowed(3, 2, true, 4, true, full_table(), true, true).err().unwrap(),
        Error::PhaseOrder
    );
    let mut win = OpenGLBuilder::new(default_library_names());
    win.report_open(true).unwrap();
    win.windowed_path().unwrap();
    assert_eq!(
        win.to_opengl(5, true, full_table(), true, true).err().unwrap(),
        Error::PhaseOrder
    );
}

#[test]
fn table_refuses_null_and_short_inputs() {
    let mut addrs = vec![1u64; SYMBOL_COUNT];
    addrs[17] = 0;
    assert!(matches!(FnTable::new(addrs), Err(Error::SymbolNotFound)));
    assert!(matches!(FnTable::new(vec![1u64; 3]), Err(Error::SymbolNotFound)));
    let good: Vec<u64> = (1..=SYMBOL_COUNT as u64).collect();
    let table = FnTable::new(good).unwrap();
    assert_eq!(table.address(0), 1);
    assert_eq!(table.address(SYMBOL_COUNT - 1), SYMBOL_COUNT as u64);
}

#[test]
fn resolution_rules() {
    assert_eq!(check_address(0), Err(Error::SymbolNotFound));
    assert_eq!(check_address(77), Ok(77));
    assert_eq!(resolve_address(5, 9), Ok(5));
    assert_eq!(resolve_address(0, 9), Ok(9));
    assert_eq!(resolve_address(0, 0), Err(Error::SymbolNotFound));
}

#[test]
fn required_symbol_names() {
    assert_eq!(symbol_name(0), "glClear");
    assert_eq!(symbol_name(12), "glGetUniformLocation");
    assert_eq!(symbol_name(16), "glGetAttribLocation");
    assert_eq!(symbol_name(SYMBOL_COUNT - 1), "glDeleteTextures");
    for i in 0..SYMBOL_COUNT {
        assert!(!symbol_name(i).is_empty());
        assert!(symbol_name(i).starts_with("gl"));
    }
}

#[test]
fn candidate_names_and_attribute_lists() {
    let names = default_library_names();
    assert_eq!(names, vec!["libEGL.so.1".to_string(), "libGL.so.1".to_string()]);
    assert_eq!(
        config_attributes(),
        vec![0x3024, 8, 0x3023, 8, 0x3022, 8, 0x3025, 24, 0x3038]
    );
    assert_eq!(context_attributes(), vec![0x3098, 2, 0x3038]);
}
