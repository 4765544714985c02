//! The two-phase bootstrap.  Phase one opens the platform library (walking
//! an ordered list of candidate names), connects to the display system,
//! negotiates a frame-buffer configuration, creates the rendering context
//! and reports the visual identifier the caller needs to create its native
//! window.  Phase two attaches a surface to that window and makes the
//! context current, yielding the ready-to-use [`OpenGL`] context.
//!
//! The platform layer performs each native step and reports its outcome as
//! plain values; the builder decides, in a fixed order, whether the outcome
//! lets the bootstrap advance.  Every step checks the phase first, so a step
//! attempted out of order fails deterministically instead of touching
//! invalid state.  The windowed platform shape — where a device context is
//! derived straight from the window and states collapse into the completion
//! call — runs through the same two-call boundary with a neutral visual
//! identifier.

use vstd::prelude::*;

use crate::context::DisplayState;
use crate::context::OpenGL;
use crate::error::Error;
use crate::loader::FnTable;
use crate::model::initial_model;

verus! {

/// How far the bootstrap has advanced.
#[derive(Debug, Clone, Copy, PartialEq, Eq, Structural)]
pub enum Phase {
    /// Walking the candidate library names; none has opened yet.
    Opening,
    /// A candidate library is open; no display connection yet.
    Opened,
    /// The display connection is up.
    Connected,
    /// A frame-buffer configuration is chosen.
    Configured,
    /// The rendering context exists and the visual identifier is known;
    /// only the surface completion step remains.
    ContextCreated,
}

/// Holds of a step that leaves the candidate walk and the platform shape
/// as they were: same candidate list, same chosen candidate, same path.
pub open spec fn walk_unchanged(pre: OpenGLBuilder, post: OpenGLBuilder) -> bool {
    &&& post.candidates() == pre.candidates()
    &&& post.chosen() == pre.chosen()
    &&& post.windowed() == pre.windowed()
}

/// The bootstrap state machine.
pub struct OpenGLBuilder {
    names: Vec<String>,
    tried: usize,
    chosen: Option<usize>,
    phase: Phase,
    windowed: bool,
    display: u64,
    config: u64,
    context: u64,
    visual: i32,
}

impl OpenGLBuilder {
    /// The ordered candidate library names.
    pub closed spec fn candidates(self) -> Seq<String> {
        self.names@
    }

    /// How many candidates have been reported unavailable.
    pub closed spec fn tried(self) -> int {
        self.tried as int
    }

    /// The candidate that opened, if one has.
    pub closed spec fn chosen(self) -> Option<int> {
        match self.chosen {
            Some(i) => Some(i as int),
            None => None,
        }
    }

    /// The current phase.
    pub closed spec fn phase(self) -> Phase {
        self.phase
    }

    /// Whether the windowed platform shape was selected.
    pub closed spec fn windowed(self) -> bool {
        self.windowed
    }

    /// The display connection handle, once connected.
    pub closed spec fn display(self) -> u64 {
        self.display
    }

    /// The chosen configuration handle, once configured.
    pub closed spec fn config(self) -> u64 {
        self.config
    }

    /// The rendering context handle, once created.
    pub closed spec fn context(self) -> u64 {
        self.context
    }

    /// The visual identifier, once known.
    pub closed spec fn visual(self) -> i32 {
        self.visual
    }

    /// Begins the bootstrap over an ordered list of candidate library
    /// names: the first candidate that opens is used, and only if every
    /// candidate fails is the bootstrap a load failure.
    pub fn new(names: Vec<String>) -> (r: OpenGLBuilder)
        ensures
            r.candidates() == names@,
            r.tried() == 0,
            r.chosen() is None,
            r.phase() == Phase::Opening,
            !r.windowed(),
    {
        OpenGLBuilder {
            names,
            tried: 0,
            chosen: None,
            phase: Phase::Opening,
            windowed: false,
            display: 0,
            config: 0,
            context: 0,
            visual: 0,
        }
    }

    /// The candidate library name to try to open next, or nothing when the
    /// opening phase is over or every candidate has failed.
    pub fn next_library(&self) -> (r: Option<&String>)
        ensures
            match r {
                Some(s) => self.phase() == Phase::Opening && self.tried()
                    < self.candidates().len() && s@ == self.candidates()[self.tried()]@,
                None => self.phase() != Phase::Opening || self.tried()
                    >= self.candidates().len(),
            },
    {
        match self.phase {
            Phase::Opening => {
                if self.tried < self.names.len() {
                    Some(&self.names[self.tried])
                } else {
                    None
                }
            },
            _ => None,
        }
    }

    /// Reports whether the current candidate library opened.  On success
    /// the candidate is fixed and the opening phase is over; on failure the
    /// walk advances, and the report of the last candidate's failure is the
    /// definitive load failure.
    pub fn report_open(&mut self, opened: bool) -> (r: Result<bool, Error>)
        ensures
            old(self).phase() != Phase::Opening ==> r == Err::<bool, Error>(Error::PhaseOrder)
                && *final(self) == *old(self),
            old(self).phase() == Phase::Opening && old(self).tried() >= old(
                self,
            ).candidates().len() ==> r == Err::<bool, Error>(Error::LoadError) && *final(self)
                == *old(self),
            old(self).phase() == Phase::Opening && old(self).tried() < old(self).candidates().len()
                && opened ==> {
                &&& r == Ok::<bool, Error>(true)
                &&& final(self).phase() == Phase::Opened
                &&& final(self).chosen() == Some(old(self).tried())
                &&& final(self).tried() == old(self).tried()
                &&& final(self).candidates() == old(self).candidates()
                &&& final(self).windowed() == old(self).windowed()
            },
            old(self).phase() == Phase::Opening && old(self).tried() < old(self).candidates().len()
                && !opened ==> {
                &&& final(self).phase() == Phase::Opening
                &&& final(self).tried() == old(self).tried() + 1
                &&& walk_unchanged(*old(self), *final(self))
                &&& r == (if old(self).tried() + 1 == old(self).candidates().len() {
                    Err::<bool, Error>(Error::LoadError)
                } else {
                    Ok::<bool, Error>(false)
                })
            },
    {
        match self.phase {
            Phase::Opening => {
                if self.tried >= self.names.len() {
                    Err(Error::LoadError)
                } else if opened {
                    self.chosen = Some(self.tried);
                    self.phase = Phase::Opened;
                    Ok(true)
                } else {
                    self.tried = self.tried + 1;
                    if self.tried == self.names.len() {
                        Err(Error::LoadError)
                    } else {
                        Ok(false)
                    }
                }
            },
            _ => Err(Error::PhaseOrder),
        }
    }

    /// Reports the display connection attempt: the connection handle the
    /// display system returned (zero meaning null) and whether it could be
    /// initialized.  Advances the bootstrap to the connected state exactly
    /// when the handle is non-null and initialization succeeded.
    pub fn connect(&mut self, display: u64, init_ok: bool) -> (r: Result<(), Error>)
        ensures
            old(self).phase() != Phase::Opened ==> r == Err::<(), Error>(Error::PhaseOrder)
                && *final(self) == *old(self),
            old(self).phase() == Phase::Opened && display == 0 ==> r == Err::<(), Error>(
                Error::DisplayUnavailable,
            ) && *final(self) == *old(self),
            old(self).phase() == Phase::Opened && display != 0 && !init_ok ==> r == Err::<
                (),
                Error,
            >(Error::InitializeFailed) && *final(self) == *old(self),
            old(self).phase() == Phase::Opened && display != 0 && init_ok ==> {
                &&& r == Ok::<(), Error>(())
                &&& final(self).phase() == Phase::Connected
                &&& final(self).display() == display
                &&& walk_unchanged(*old(self), *final(self))
            },
    {
        match self.phase {
            Phase::Opened => {
                if display == 0 {
                    Err(Error::DisplayUnavailable)
                } else if !init_ok {
                    Err(Error::InitializeFailed)
                } else {
                    self.display = display;
                    self.phase = Phase::Connected;
                    Ok(())
                }
            },
            _ => Err(Error::PhaseOrder),
        }
    }

    /// Reports the configuration request: whether the display system
    /// accepted the attribute list, how many configurations matched, and
    /// the chosen configuration handle.  Zero matching configurations is
    /// fatal.
    pub fn configure(&mut self, choose_ok: bool, nconfigs: i32, config: u64) -> (r: Result<
        (),
        Error,
    >)
        ensures
            old(self).phase() != Phase::Connected ==> r == Err::<(), Error>(Error::PhaseOrder)
                && *final(self) == *old(self),
            old(self).phase() == Phase::Connected && (!choose_ok || nconfigs <= 0) ==> r == Err::<
                (),
                Error,
            >(Error::NoMatchingConfig) && *final(self) == *old(self),
            old(self).phase() == Phase::Connected && choose_ok && nconfigs > 0 ==> {
                &&& r == Ok::<(), Error>(())
                &&& final(self).phase() == Phase::Configured
                &&& final(self).config() == config
                &&& final(self).display() == old(self).display()
                &&& walk_unchanged(*old(self), *final(self))
            },
    {
        match self.phase {
            Phase::Connected => {
                if !choose_ok || nconfigs <= 0 {
                    Err(Error::NoMatchingConfig)
                } else {
                    self.config = config;
                    self.phase = Phase::Configured;
                    Ok(())
                }
            },
            _ => Err(Error::PhaseOrder),
        }
    }

    /// Reports the context creation: whether the client API could be
    /// selected, the rendering context handle (zero meaning null), whether
    /// the visual identifier could be read, and its value.  On success the
    /// visual identifier is returned: the caller must create its native
    /// window with it before the completion step can run.
    pub fn create_context(
        &mut self,
        bind_ok: bool,
        context: u64,
        visual_ok: bool,
        visual: i32,
    ) -> (r: Result<i32, Error>)
        ensures
            old(self).phase() != Phase::Configured ==> r == Err::<i32, Error>(Error::PhaseOrder)
                && *final(self) == *old(self),
            old(self).phase() == Phase::Configured && !bind_ok ==> r == Err::<i32, Error>(
                Error::ApiBindFailed,
            ) && *final(self) == *old(self),
            old(self).phase() == Phase::Configured && bind_ok && context == 0 ==> r == Err::<
                i32,
                Error,
            >(Error::ContextCreationFailed) && *final(self) == *old(self),
            old(self).phase() == Phase::Configured && bind_ok && context != 0 && !visual_ok ==> r
                == Err::<i32, Error>(Error::VisualUnavailable) && *final(self) == *old(self),
            old(self).phase() == Phase::Configured && bind_ok && context != 0 && visual_ok ==> {
                &&& r == Ok::<i32, Error>(visual)
                &&& final(self).phase() == Phase::ContextCreated
                &&& final(self).context() == context
                &&& final(self).visual() == visual
                &&& final(self).display() == old(self).display()
                &&& final(self).config() == old(self).config()
                &&& walk_unchanged(*old(self), *final(self))
            },
    {
        match self.phase {
            Phase::Configured => {
                if !bind_ok {
                    Err(Error::ApiBindFailed)
                } else if context == 0 {
                    Err(Error::ContextCreationFailed)
                } else if !visual_ok {
                    Err(Error::VisualUnavailable)
                } else {
                    self.context = context;
                    self.visual = visual;
                    self.phase = Phase::ContextCreated;
                    Ok(visual)
                }
            },
            _ => Err(Error::PhaseOrder),
        }
    }

    /// Selects the windowed platform shape, where the display negotiation
    /// collapses into the completion step: the phase advances straight to
    /// context creation and the neutral visual identifier zero is returned
    /// for API uniformity.
    pub fn windowed_path(&mut self) -> (r: Result<i32, Error>)
        ensures
            old(self).phase() != Phase::Opened ==> r == Err::<i32, Error>(Error::PhaseOrder)
                && *final(self) == *old(self),
            old(self).phase() == Phase::Opened ==> {
                &&& r == Ok::<i32, Error>(0)
                &&& final(self).phase() == Phase::ContextCreated
                &&& final(self).windowed()
                &&& final(self).visual() == 0
                &&& final(self).chosen() == old(self).chosen()
                &&& final(self).candidates() == old(self).candidates()
            },
    {
        match self.phase {
            Phase::Opened => {
                self.windowed = true;
                self.visual = 0;
                self.phase = Phase::ContextCreated;
                Ok(0)
            },
            _ => Err(Error::PhaseOrder),
        }
    }

    /// The completion step of the negotiated path: given the surface the
    /// platform layer created for the caller's native window (zero meaning
    /// null) and whether the (surface, context) pair could be made current,
    /// yields the ready-to-use context.  Without a prior successful context
    /// creation the step fails deterministically with a phase error.
    pub fn to_opengl(
        self,
        surface: u64,
        make_current_ok: bool,
        table: FnTable,
        check_errors: bool,
        check_compile: bool,
    ) -> (r: Result<OpenGL, Error>)
        requires
            table.wf(),
        ensures
            match r {
                Ok(gl) => self.phase() == Phase::ContextCreated && !self.windowed() && surface != 0
                    && make_current_ok && gl.model() == initial_model() && gl.table == table
                    && gl.display == (DisplayState::Egl {
                    display: self.display(),
                    config: self.config(),
                    context: self.context(),
                    surface,
                }) && gl.check_errors == check_errors && gl.check_compile == check_compile
                    && gl.pending@ == Seq::<crate::call::GlCall>::empty(),
                Err(e) => e == (if self.phase() != Phase::ContextCreated || self.windowed() {
                    Error::PhaseOrder
                } else if surface == 0 {
                    Error::SurfaceBindFailed
                } else {
                    Error::MakeCurrentFailed
                }) && (self.phase() != Phase::ContextCreated || self.windowed() || surface == 0
                    || !make_current_ok),
            },
    {
        match self.phase {
            Phase::ContextCreated => {
                if self.windowed {
                    Err(Error::PhaseOrder)
                } else if surface == 0 {
                    Err(Error::SurfaceBindFailed)
                } else if !make_current_ok {
                    Err(Error::MakeCurrentFailed)
                } else {
                    Ok(
                        OpenGL::from_parts(
                            table,
                            DisplayState::Egl {
                                display: self.display,
                                config: self.config,
                                context: self.context,
                                surface,
                            },
                            check_errors,
                            check_compile,
                        ),
                    )
                }
            },
            _ => Err(Error::PhaseOrder),
        }
    }

    /// The completion step of the windowed path: given the window's device
    /// context (zero meaning null), the index of the chosen on-screen
    /// format (zero meaning none matched), whether the format could be
    /// applied, the rendering context handle, and whether it could be made
    /// current, yields the ready-to-use context.
    pub fn to_opengl_windowed(
        self,
        device: u64,
        format: i32,
        set_ok: bool,
        context: u64,
        make_current_ok: bool,
        table: FnTable,
        check_errors: bool,
        check_compile: bool,
    ) -> (r: Result<OpenGL, Error>)
        requires
            table.wf(),
        ensures
            match r {
                Ok(gl) => self.phase() == Phase::ContextCreated && self.windowed() && device != 0
                    && format != 0 && set_ok && context != 0 && make_current_ok && gl.model()
                    == initial_model() && gl.table == table && gl.display == (DisplayState::Windowed {
                    device,
                    context,
                }) && gl.check_errors == check_errors && gl.check_compile == check_compile
                    && gl.pending@ == Seq::<crate::call::GlCall>::empty(),
                Err(e) => e == (if self.phase() != Phase::ContextCreated || !self.windowed() {
                    Error::PhaseOrder
                } else if device == 0 {
                    Error::DisplayUnavailable
                } else if format == 0 {
                    Error::NoMatchingConfig
                } else if !set_ok {
                    Error::SurfaceBindFailed
                } else if context == 0 {
                    Error::ContextCreationFailed
                } else {
                    Error::MakeCurrentFailed
                }) && (self.phase() != Phase::ContextCreated || !self.windowed() || device == 0
                    || format == 0 || !set_ok || context == 0 || !make_current_ok),
            },
    {
        match self.phase {
            Phase::ContextCreated => {
                if !self.windowed {
                    Err(Error::PhaseOrder)
                } else if device == 0 {
                    Err(Error::DisplayUnavailable)
                } else if format == 0 {
                    Err(Error::NoMatchingConfig)
                } else if !set_ok {
                    Err(Error::SurfaceBindFailed)
                } else if context == 0 {
                    Err(Error::ContextCreationFailed)
                } else if !make_current_ok {
                    Err(Error::MakeCurrentFailed)
                } else {
                    Ok(
                        OpenGL::from_parts(
                            table,
                            DisplayState::Windowed { device, context },
                            check_errors,
                            check_compile,
                        ),
                    )
                }
            },
            _ => Err(Error::PhaseOrder),
        }
    }
}

/// The attribute list submitted when requesting a frame-buffer
/// configuration: eight bits of red, green and blue, a 24-bit depth buffer,
/// closed by the end-of-list marker.
pub fn config_attributes() -> (r: Vec<i32>)
    ensures
        r@ == seq![
            crate::types::EGL_RED_SIZE,
            8i32,
            crate::types::EGL_GREEN_SIZE,
            8i32,
            crate::types::EGL_BLUE_SIZE,
            8i32,
            crate::types::EGL_DEPTH_SIZE,
            24i32,
            crate::types::EGL_NONE,
        ],
{
    let mut v: Vec<i32> = Vec::new();
    v.push(crate::types::EGL_RED_SIZE);
    v.push(8);
    v.push(crate::types::EGL_GREEN_SIZE);
    v.push(8);
    v.push(crate::types::EGL_BLUE_SIZE);
    v.push(8);
    v.push(crate::types::EGL_DEPTH_SIZE);
    v.push(24);
    v.push(crate::types::EGL_NONE);
    proof {
        assert(v@ =~= seq![
            crate::types::EGL_RED_SIZE,
            8i32,
            crate::types::EGL_GREEN_SIZE,
            8i32,
            crate::types::EGL_BLUE_SIZE,
            8i32,
            crate::types::EGL_DEPTH_SIZE,
            24i32,
            crate::types::EGL_NONE,
        ]);
    }
    v
}

/// The attribute list submitted when creating the rendering context:
/// client API version two, closed by the end-of-list marker.
pub fn context_attributes() -> (r: Vec<i32>)
    ensures
        r@ == seq![crate::types::EGL_CONTEXT_CLIENT_VERSION, 2i32, crate::types::EGL_NONE],
{
    let mut v: Vec<i32> = Vec::new();
    v.push(crate::types::EGL_CONTEXT_CLIENT_VERSION);
    v.push(2);
    v.push(crate::types::EGL_NONE);
    proof {
        assert(v@ =~= seq![
            crate::types::EGL_CONTEXT_CLIENT_VERSION,
            2i32,
            crate::types::EGL_NONE,
        ]);
    }
    v
}

} // verus!
