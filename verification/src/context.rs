//! The rendering context: the resolved function table, the display and
//! surface state, the bound-object caches, the per-category reference
//! counts, and the log of native calls the context has decided to issue.
//!
//! Every mutating method is specified as one step over the abstract
//! [`Model`](crate::model::Model): the new model is exactly the step function
//! applied to the old one, so what each method issues — and what it refrains
//! from issuing — is pinned down completely.

use vstd::prelude::*;

use crate::call::GlCall;
use crate::counts::RefCounts;
use crate::counts::ReleaseOutcome;
use crate::error::fault_of;
use crate::error::ApiFault;
use crate::loader::FnTable;
use crate::model::bind_step;
use crate::model::counts;
use crate::model::emit_step;
use crate::model::initial_model;
use crate::model::register_step;
use crate::model::acquire_step;
use crate::model::release_step;
use crate::model::Model;
use crate::model::ObjectKind;
use crate::types::F32_ONE_BITS;
use crate::types::GL_ARRAY_BUFFER;
use crate::types::GL_COLOR_BUFFER_BIT;
use crate::types::GL_DEPTH_BUFFER_BIT;
use crate::types::GL_DST_ALPHA;
use crate::types::GL_DYNAMIC_DRAW;
use crate::types::GL_ONE_MINUS_SRC_ALPHA;
use crate::types::GL_SRC_ALPHA;
use crate::types::GL_TEXTURE_2D;
use crate::types::GL_TRIANGLE_FAN;

verus! {

/// The display and surface state a completed bootstrap hands to the context.
/// Handles are carried as machine words; a zero word is the null handle, and
/// the bootstrap rejects it, so a constructed context never holds one.
#[derive(Debug, Clone, Copy, PartialEq, Eq, Structural)]
pub enum DisplayState {
    /// The negotiated path: a display connection, a chosen configuration, a
    /// rendering context and a window surface.
    Egl { display: u64, config: u64, context: u64, surface: u64 },
    /// The windowed path: a device context and a rendering context.
    Windowed { device: u64, context: u64 },
}

/// The rendering context.
pub struct OpenGL {
    /// The resolved function table; every address in it is non-null.
    pub table: FnTable,
    /// The display/surface state established by the bootstrap.
    pub display: DisplayState,
    /// Whether the platform layer should read the API's error state after
    /// each executed call and treat any fault as fatal.
    pub check_errors: bool,
    /// Whether shader compile status is checked during program assembly.
    pub check_compile: bool,
    /// The buffer identifier currently bound, as far as this context knows.
    pub bound_buffer: u32,
    /// The program identifier currently in use, as far as this context knows.
    pub bound_program: u32,
    /// The texture identifier currently bound, as far as this context knows.
    pub bound_texture: u32,
    /// Reference counts of live buffer objects.
    pub buffers: RefCounts,
    /// Reference counts of live program objects.
    pub programs: RefCounts,
    /// Reference counts of live texture objects.
    pub textures: RefCounts,
    /// Native calls issued but not yet handed to the platform layer.
    pub pending: Vec<GlCall>,
    /// Native calls already handed to the platform layer, in order.
    pub taken: Ghost<Seq<GlCall>>,
}

/// The parts of a context that no call-issuing method ever touches.
pub open spec fn env_unchanged(a: OpenGL, b: OpenGL) -> bool {
    &&& b.table == a.table
    &&& b.display == a.display
    &&& b.check_errors == a.check_errors
    &&& b.check_compile == a.check_compile
}

impl OpenGL {
    /// The abstract state of the context.
    pub open spec fn model(self) -> Model {
        (Model {
            bound_buffer: self.bound_buffer,
            bound_program: self.bound_program,
            bound_texture: self.bound_texture,
            buffers: self.buffers@,
            programs: self.programs@,
            textures: self.textures@,
            issued: self.taken@ + self.pending@,
        })
    }

    /// A context as the bootstrap hands it over: nothing live, nothing
    /// issued, and cache slots holding identifiers no generated object can
    /// carry.
    pub(crate) fn from_parts(
        table: FnTable,
        display: DisplayState,
        check_errors: bool,
        check_compile: bool,
    ) -> (r: OpenGL)
        ensures
            r.model() == initial_model(),
            r.table == table,
            r.display == display,
            r.check_errors == check_errors,
            r.check_compile == check_compile,
            r.pending@ == Seq::<GlCall>::empty(),
            r.taken@ == Seq::<GlCall>::empty(),
    {
        let r = OpenGL {
            table,
            display,
            check_errors,
            check_compile,
            bound_buffer: u32::MAX,
            bound_program: 0,
            bound_texture: 0,
            buffers: RefCounts::new(),
            programs: RefCounts::new(),
            textures: RefCounts::new(),
            pending: Vec::new(),
            taken: Ghost(Seq::empty()),
        };
        proof {
            assert(r.model() =~= initial_model());
        }
        r
    }

    /// Whether the platform layer should validate each executed call against
    /// the API's error state.
    pub fn validating(&self) -> (r: bool)
        ensures
            r == self.check_errors,
    {
        self.check_errors
    }

    /// Whether program assembly checks shader compile status.
    pub fn checks_compile(&self) -> (r: bool)
        ensures
            r == self.check_compile,
    {
        self.check_compile
    }

    /// Judges a raw error code read from the API's error state: with
    /// validation off every code is accepted; with it on, any non-zero code
    /// is the corresponding fault.
    pub fn error(&self, code: u32) -> (r: Result<(), ApiFault>)
        ensures
            r == if self.check_errors {
                match fault_of(code) {
                    None => Ok::<(), ApiFault>(()),
                    Some(f) => Err::<(), ApiFault>(f),
                }
            } else {
                Ok::<(), ApiFault>(())
            },
    {
        if !self.check_errors {
            Ok(())
        } else {
            match crate::error::error_category(code) {
                None => Ok(()),
                Some(f) => Err(f),
            }
        }
    }

    /// Hands the not-yet-performed native calls to the platform layer, in
    /// the order they were issued, and empties the queue.  The abstract
    /// model — including the full issue history — is untouched.
    pub fn take_calls(&mut self) -> (r: Vec<GlCall>)
        ensures
            r@ == old(self).pending@,
            final(self).pending@ == Seq::<GlCall>::empty(),
            final(self).taken@ == old(self).taken@ + r@,
            final(self).model() == old(self).model(),
            env_unchanged(*old(self), *final(self)),
            final(self).bound_buffer == old(self).bound_buffer,
            final(self).bound_program == old(self).bound_program,
            final(self).bound_texture == old(self).bound_texture,
    {
        let ghost m0 = self.model();
        let mut r: Vec<GlCall> = Vec::new();
        core::mem::swap(&mut r, &mut self.pending);
        proof {
            self.taken@ = self.taken@ + r@;
        }
        proof {
            assert(self.model() =~= m0);
        }
        r
    }

    /// Issues one native call that touches no bookkeeping.
    pub(crate) fn emit(&mut self, c: GlCall)
        ensures
            final(self).model() == emit_step(old(self).model(), c),
            env_unchanged(*old(self), *final(self)),
            final(self).taken@ == old(self).taken@,
    {
        let ghost m0 = self.model();
        let ghost c0 = c;
        self.pending.push(c);
        proof {
            assert(self.model() =~= emit_step(m0, c0));
        }
    }

    /// Makes an object current for its category, issuing the native bind
    /// call only when the cache does not already name it.
    pub(crate) fn bind_object(&mut self, kind: ObjectKind, id: u32)
        ensures
            final(self).model() == bind_step(old(self).model(), kind, id),
            env_unchanged(*old(self), *final(self)),
            final(self).taken@ == old(self).taken@,
    {
        let ghost m0 = self.model();
        match kind {
            ObjectKind::Buffer => {
                if self.bound_buffer != id {
                    self.emit(GlCall::BindBuffer { target: GL_ARRAY_BUFFER, buffer: id });
                    self.bound_buffer = id;
                }
            },
            ObjectKind::Program => {
                if self.bound_program != id {
                    self.emit(GlCall::UseProgram { program: id });
                    self.bound_program = id;
                }
            },
            ObjectKind::Texture => {
                if self.bound_texture != id {
                    self.emit(GlCall::BindTexture { target: GL_TEXTURE_2D, texture: id });
                    self.bound_texture = id;
                }
            },
        }
        proof {
            assert(self.model() =~= bind_step(m0, kind, id));
        }
    }

    /// Registers a freshly generated object with one owning handle.
    /// Returns false, registering nothing, if the identifier is already
    /// live.
    pub(crate) fn register_object(&mut self, kind: ObjectKind, id: u32) -> (r: bool)
        ensures
            final(self).model() == register_step(old(self).model(), kind, id),
            r == !counts(old(self).model(), kind).contains_key(id),
            env_unchanged(*old(self), *final(self)),
            final(self).taken@ == old(self).taken@,
    {
        let ghost m0 = self.model();
        let r = match kind {
            ObjectKind::Buffer => self.buffers.register(id),
            ObjectKind::Program => self.programs.register(id),
            ObjectKind::Texture => self.textures.register(id),
        };
        proof {
            assert(self.model() =~= register_step(m0, kind, id));
        }
        r
    }

    /// Records one more handle sharing a live object.  Returns false,
    /// changing nothing, if the object is not live or its count is at the
    /// maximum.
    pub(crate) fn acquire_object(&mut self, kind: ObjectKind, id: u32) -> (r: bool)
        ensures
            final(self).model() == acquire_step(old(self).model(), kind, id),
            r == (counts(old(self).model(), kind).contains_key(id) && counts(
                old(self).model(),
                kind,
            )[id] < u64::MAX),
            env_unchanged(*old(self), *final(self)),
            final(self).taken@ == old(self).taken@,
    {
        let ghost m0 = self.model();
        let r = match kind {
            ObjectKind::Buffer => self.buffers.acquire(id),
            ObjectKind::Program => self.programs.acquire(id),
            ObjectKind::Texture => self.textures.acquire(id),
        };
        proof {
            assert(self.model() =~= acquire_step(m0, kind, id));
        }
        r
    }

    /// Records that one handle let go of an object.  Exactly when the last
    /// handle goes, the one native deletion call for the object is issued.
    pub(crate) fn release_object(&mut self, kind: ObjectKind, id: u32)
        ensures
            final(self).model() == release_step(old(self).model(), kind, id),
            env_unchanged(*old(self), *final(self)),
            final(self).taken@ == old(self).taken@,
    {
        let ghost m0 = self.model();
        let out = match kind {
            ObjectKind::Buffer => self.buffers.release(id),
            ObjectKind::Program => self.programs.release(id),
            ObjectKind::Texture => self.textures.release(id),
        };
        if out == ReleaseOutcome::Deleted {
            match kind {
                ObjectKind::Buffer => {
                    self.emit(GlCall::DeleteBuffer { buffer: id });
                    if self.bound_buffer == id {
                        self.bound_buffer = u32::MAX;
                    }
                },
                ObjectKind::Program => {
                    self.emit(GlCall::DeleteProgram { program: id });
                    if self.bound_program == id {
                        self.bound_program = 0;
                    }
                },
                ObjectKind::Texture => {
                    self.emit(GlCall::DeleteTexture { texture: id });
                    if self.bound_texture == id {
                        self.bound_texture = 0;
                    }
                },
            }
        }
        proof {
            assert(self.model() =~= release_step(m0, kind, id));
        }
    }

    /// Sets the color that a frame clear writes.  The three components are
    /// 32-bit float bit patterns; the alpha component is fixed at one.
    pub fn color(&mut self, r: u32, g: u32, b: u32)
        ensures
            final(self).model() == emit_step(
                old(self).model(),
                (GlCall::ClearColor { r, g, b, a: F32_ONE_BITS }),
            ),
            env_unchanged(*old(self), *final(self)),
            final(self).taken@ == old(self).taken@,
    {
        self.emit(GlCall::ClearColor { r, g, b, a: F32_ONE_BITS });
    }

    /// Presents the frame: swaps the surface with the screen, then clears
    /// the color and depth buffers for the next frame.
    pub fn update(&mut self)
        ensures
            final(self).model() == emit_step(
                emit_step(old(self).model(), GlCall::Swap),
                (GlCall::Clear { mask: GL_DEPTH_BUFFER_BIT | GL_COLOR_BUFFER_BIT }),
            ),
            env_unchanged(*old(self), *final(self)),
            final(self).taken@ == old(self).taken@,
    {
        self.emit(GlCall::Swap);
        self.emit(GlCall::Clear { mask: GL_DEPTH_BUFFER_BIT | GL_COLOR_BUFFER_BIT });
    }

    /// Enables a capability of the underlying API.
    pub fn enable(&mut self, what: u32)
        ensures
            final(self).model() == emit_step(old(self).model(), (GlCall::Enable { cap: what })),
            env_unchanged(*old(self), *final(self)),
            final(self).taken@ == old(self).taken@,
    {
        self.emit(GlCall::Enable { cap: what });
    }

    /// Disables a capability of the underlying API.
    pub fn disable(&mut self, what: u32)
        ensures
            final(self).model() == emit_step(old(self).model(), (GlCall::Disable { cap: what })),
            env_unchanged(*old(self), *final(self)),
            final(self).taken@ == old(self).taken@,
    {
        self.emit(GlCall::Disable { cap: what });
    }

    /// Configures alpha blending: source-alpha weighting for color, with
    /// destination-alpha accumulation for the alpha channel.
    pub fn blend(&mut self)
        ensures
            final(self).model() == emit_step(
                old(self).model(),
                (GlCall::BlendFuncSeparate {
                    src_rgb: GL_SRC_ALPHA,
                    dst_rgb: GL_ONE_MINUS_SRC_ALPHA,
                    src_alpha: GL_SRC_ALPHA,
                    dst_alpha: GL_DST_ALPHA,
                }),
            ),
            env_unchanged(*old(self), *final(self)),
            final(self).taken@ == old(self).taken@,
    {
        self.emit(
            GlCall::BlendFuncSeparate {
                src_rgb: GL_SRC_ALPHA,
                dst_rgb: GL_ONE_MINUS_SRC_ALPHA,
                src_alpha: GL_SRC_ALPHA,
                dst_alpha: GL_DST_ALPHA,
            },
        );
    }

    /// Uploads the bound buffer's data, byte for byte, as dynamic-draw data
    /// for the array-buffer target.
    pub fn set_buffer(&mut self, data: Vec<u8>)
        ensures
            final(self).model() == emit_step(
                old(self).model(),
                (GlCall::BufferData {
                    target: GL_ARRAY_BUFFER,
                    data: data,
                    usage: GL_DYNAMIC_DRAW,
                }),
            ),
            env_unchanged(*old(self), *final(self)),
            final(self).taken@ == old(self).taken@,
    {
        self.emit(GlCall::BufferData { target: GL_ARRAY_BUFFER, data, usage: GL_DYNAMIC_DRAW });
    }

    /// Uploads a 4x4 matrix uniform: sixteen float bit patterns, not
    /// transposed.
    pub fn set_mat4(&mut self, uniform: i32, mat4: Vec<u32>)
        requires
            mat4@.len() == 16,
        ensures
            final(self).model() == emit_step(
                old(self).model(),
                (GlCall::UniformMat4 { location: uniform, data: mat4 }),
            ),
            env_unchanged(*old(self), *final(self)),
            final(self).taken@ == old(self).taken@,
    {
        self.emit(GlCall::UniformMat4 { location: uniform, data: mat4 });
    }

    /// Uploads an integer uniform.
    pub fn set_int1(&mut self, uniform: i32, int1: i32)
        ensures
            final(self).model() == emit_step(
                old(self).model(),
                (GlCall::Uniform1i { location: uniform, value: int1 }),
            ),
            env_unchanged(*old(self), *final(self)),
            final(self).taken@ == old(self).taken@,
    {
        self.emit(GlCall::Uniform1i { location: uniform, value: int1 });
    }

    /// Uploads a scalar uniform; the value is a float bit pattern.
    pub fn set_vec1(&mut self, uniform: i32, vec1: u32)
        ensures
            final(self).model() == emit_step(
                old(self).model(),
                (GlCall::Uniform1f { location: uniform, x: vec1 }),
            ),
            env_unchanged(*old(self), *final(self)),
            final(self).taken@ == old(self).taken@,
    {
        self.emit(GlCall::Uniform1f { location: uniform, x: vec1 });
    }

    /// Uploads a two-component uniform; float bit patterns.
    pub fn set_vec2(&mut self, uniform: i32, vec: &[u32])
        requires
            vec@.len() == 2,
        ensures
            final(self).model() == emit_step(
                old(self).model(),
                (GlCall::Uniform2f { location: uniform, x: vec@[0], y: vec@[1] }),
            ),
            env_unchanged(*old(self), *final(self)),
            final(self).taken@ == old(self).taken@,
    {
        self.emit(GlCall::Uniform2f { location: uniform, x: vec[0], y: vec[1] });
    }

    /// Uploads a three-component uniform; float bit patterns.
    pub fn set_vec3(&mut self, uniform: i32, vec: &[u32])
        requires
            vec@.len() == 3,
        ensures
            final(self).model() == emit_step(
                old(self).model(),
                (GlCall::Uniform3f { location: uniform, x: vec@[0], y: vec@[1], z: vec@[2] }),
            ),
            env_unchanged(*old(self), *final(self)),
            final(self).taken@ == old(self).taken@,
    {
        self.emit(GlCall::Uniform3f { location: uniform, x: vec[0], y: vec[1], z: vec[2] });
    }

    /// Uploads a four-component uniform; float bit patterns.
    pub fn set_vec4(&mut self, uniform: i32, vec: &[u32])
        requires
            vec@.len() == 4,
        ensures
            final(self).model() == emit_step(
                old(self).model(),
                (GlCall::Uniform4f {
                    location: uniform,
                    x: vec@[0],
                    y: vec@[1],
                    z: vec@[2],
                    w: vec@[3],
                }),
            ),
            env_unchanged(*old(self), *final(self)),
            final(self).taken@ == old(self).taken@,
    {
        self.emit(
            GlCall::Uniform4f { location: uniform, x: vec[0], y: vec[1], z: vec[2], w: vec[3] },
        );
    }

    /// Draws a fan of triangles over a range of vertices of the bound
    /// buffer.
    pub fn draw_arrays(&mut self, start_index: u32, n_indices: u32)
        requires
            start_index <= i32::MAX,
            n_indices <= i32::MAX,
        ensures
            final(self).model() == emit_step(
                old(self).model(),
                (GlCall::DrawArrays {
                    mode: GL_TRIANGLE_FAN,
                    first: start_index as i32,
                    count: n_indices as i32,
                }),
            ),
            env_unchanged(*old(self), *final(self)),
            final(self).taken@ == old(self).taken@,
    {
        self.emit(
            GlCall::DrawArrays {
                mode: GL_TRIANGLE_FAN,
                first: start_index as i32,
                count: n_indices as i32,
            },
        );
    }

    /// Uploads the bound texture's pixels — four bytes per pixel, RGBA —
    /// and rebuilds its mipmap chain.
    pub fn set_texture(&mut self, w: u32, h: u32, px: Vec<u8>)
        requires
            w <= i32::MAX,
            h <= i32::MAX,
            px@.len() == 4 * (w as int) * (h as int),
        ensures
            final(self).model() == emit_step(
                emit_step(
                    old(self).model(),
                    (GlCall::TexImage2D { width: w as i32, height: h as i32, data: px }),
                ),
                (GlCall::GenerateMipmap { target: GL_TEXTURE_2D }),
            ),
            env_unchanged(*old(self), *final(self)),
            final(self).taken@ == old(self).taken@,
    {
        self.emit(GlCall::TexImage2D { width: w as i32, height: h as i32, data: px });
        self.emit(GlCall::GenerateMipmap { target: GL_TEXTURE_2D });
    }

    /// Updates a region of the bound texture's pixels from the origin; the
    /// texture must already have its storage set.
    pub fn texture_update(&mut self, w: u32, h: u32, px: Vec<u8>)
        requires
            w <= i32::MAX,
            h <= i32::MAX,
            px@.len() == 4 * (w as int) * (h as int),
        ensures
            final(self).model() == emit_step(
                old(self).model(),
                (GlCall::TexSubImage2D { width: w as i32, height: h as i32, data: px }),
            ),
            env_unchanged(*old(self), *final(self)),
            final(self).taken@ == old(self).taken@,
    {
        self.emit(GlCall::TexSubImage2D { width: w as i32, height: h as i32, data: px });
    }

    /// Sets the viewport rectangle to the window's full size.
    pub fn viewport(&mut self, w: u32, h: u32)
        requires
            w <= i32::MAX,
            h <= i32::MAX,
        ensures
            final(self).model() == emit_step(
                old(self).model(),
                (GlCall::Viewport { x: 0, y: 0, width: w as i32, height: h as i32 }),
            ),
            env_unchanged(*old(self), *final(self)),
            final(self).taken@ == old(self).taken@,
    {
        self.emit(GlCall::Viewport { x: 0, y: 0, width: w as i32, height: h as i32 });
    }
}

} // verus!
