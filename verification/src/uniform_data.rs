//! The uniform handle: a typed setter over one named parameter slot of a
//! linked program.  Lookup is probing, not fatal — a name the program does
//! not declare yields the representable "absent" slot, which the caller may
//! query — and every setter makes its owning program current first, with
//! the usual rebind avoidance.  A uniform handle keeps its program alive:
//! it holds a share of the program object until it is released.

use vstd::prelude::*;

use crate::call::GlCall;
use crate::context::env_unchanged;
use crate::context::OpenGL;
use crate::error::Error;
use crate::model::acquire_step;
use crate::model::bind_step;
use crate::model::counts;
use crate::model::emit_step;
use crate::model::release_step;
use crate::model::ObjectKind;
use crate::program::null_terminated;
use crate::program::Program;

verus! {

/// The slot index the underlying API reports for a name the program does
/// not declare.
pub const ABSENT_LOCATION: i32 = -1;

/// A handle on one uniform slot of a program.
#[derive(Debug)]
pub struct UniformData {
    location: i32,
    program: u32,
}

impl UniformData {
    /// The slot index the lookup reported; the sentinel means absent.
    pub closed spec fn location_spec(&self) -> i32 {
        self.location
    }

    /// The identifier of the program the slot belongs to.
    pub closed spec fn program_spec(&self) -> u32 {
        self.program
    }

    /// The slot index the lookup reported; the sentinel means absent.
    #[verifier::when_used_as_spec(location_spec)]
    pub fn location(&self) -> (r: i32)
        ensures
            r == self.location_spec(),
    {
        self.location
    }

    /// Wraps the slot index the platform layer's lookup reported for a
    /// named uniform of the program.  An absent name is not an error: the
    /// handle represents it and [`UniformData::is_none`] reports it.  The
    /// handle takes a share of the program object, keeping it alive;
    /// creation is refused only when the program is no longer live.
    pub fn new(gl: &mut OpenGL, program: &Program, name: &[u8], location: i32) -> (r: Result<
        UniformData,
        Error,
    >)
        requires
            null_terminated(name@),
        ensures
            final(gl).model() == acquire_step(
                old(gl).model(),
                ObjectKind::Program,
                program.id_spec(),
            ),
            env_unchanged(*old(gl), *final(gl)),
            final(gl).taken@ == old(gl).taken@,
            match r {
                Ok(u) => u.location_spec() == location && u.program_spec() == program.id_spec()
                    && counts(old(gl).model(), ObjectKind::Program).contains_key(program.id_spec())
                    && counts(old(gl).model(), ObjectKind::Program)[program.id_spec()] < u64::MAX,
                Err(e) => e == Error::NotLive && !(counts(old(gl).model(), ObjectKind::Program)
                    .contains_key(program.id_spec()) && counts(old(gl).model(), ObjectKind::Program)[
                    program.id_spec()] < u64::MAX),
            },
    {
        if gl.acquire_object(ObjectKind::Program, program.id()) {
            Ok(UniformData { location, program: program.id() })
        } else {
            Err(Error::NotLive)
        }
    }

    /// Whether the looked-up name was absent from the program.
    pub fn is_none(&self) -> (r: bool)
        ensures
            r == (self.location_spec() == ABSENT_LOCATION),
    {
        self.location == ABSENT_LOCATION
    }

    /// Makes the owning program current, then uploads a 4x4 matrix —
    /// sixteen float bit patterns, not transposed — to this slot.
    pub fn set_mat4(&self, gl: &mut OpenGL, mat4: Vec<u32>)
        requires
            mat4@.len() == 16,
        ensures
            final(gl).model() == emit_step(
                bind_step(old(gl).model(), ObjectKind::Program, self.program_spec()),
                (GlCall::UniformMat4 { location: self.location_spec(), data: mat4 }),
            ),
            env_unchanged(*old(gl), *final(gl)),
            final(gl).taken@ == old(gl).taken@,
    {
        gl.bind_object(ObjectKind::Program, self.program);
        gl.emit(GlCall::UniformMat4 { location: self.location, data: mat4 });
    }

    /// Makes the owning program current, then uploads an integer to this
    /// slot.
    pub fn set_int1(&self, gl: &mut OpenGL, int1: i32)
        ensures
            final(gl).model() == emit_step(
                bind_step(old(gl).model(), ObjectKind::Program, self.program_spec()),
                (GlCall::Uniform1i { location: self.location_spec(), value: int1 }),
            ),
            env_unchanged(*old(gl), *final(gl)),
            final(gl).taken@ == old(gl).taken@,
    {
        gl.bind_object(ObjectKind::Program, self.program);
        gl.emit(GlCall::Uniform1i { location: self.location, value: int1 });
    }

    /// Makes the owning program current, then uploads a scalar (a float
    /// bit pattern) to this slot.
    pub fn set_vec1(&self, gl: &mut OpenGL, vec1: u32)
        ensures
            final(gl).model() == emit_step(
                bind_step(old(gl).model(), ObjectKind::Program, self.program_spec()),
                (GlCall::Uniform1f { location: self.location_spec(), x: vec1 }),
            ),
            env_unchanged(*old(gl), *final(gl)),
            final(gl).taken@ == old(gl).taken@,
    {
        gl.bind_object(ObjectKind::Program, self.program);
        gl.emit(GlCall::Uniform1f { location: self.location, x: vec1 });
    }

    /// Makes the owning program current, then uploads two components
    /// (float bit patterns) to this slot.
    pub fn set_vec2(&self, gl: &mut OpenGL, vec: &[u32])
        requires
            vec@.len() == 2,
        ensures
            final(gl).model() == emit_step(
                bind_step(old(gl).model(), ObjectKind::Program, self.program_spec()),
                (GlCall::Uniform2f { location: self.location_spec(), x: vec@[0], y: vec@[1] }),
            ),
            env_unchanged(*old(gl), *final(gl)),
            final(gl).taken@ == old(gl).taken@,
    {
        gl.bind_object(ObjectKind::Program, self.program);
        gl.emit(GlCall::Uniform2f { location: self.location, x: vec[0], y: vec[1] });
    }

    /// Makes the owning program current, then uploads three components
    /// (float bit patterns) to this slot.
    pub fn set_vec3(&self, gl: &mut OpenGL, vec: &[u32])
        requires
            vec@.len() == 3,
        ensures
            final(gl).model() == emit_step(
                bind_step(old(gl).model(), ObjectKind::Program, self.program_spec()),
                (GlCall::Uniform3f {
                    location: self.location_spec(),
                    x: vec@[0],
                    y: vec@[1],
                    z: vec@[2],
                }),
            ),
            env_unchanged(*old(gl), *final(gl)),
            final(gl).taken@ == old(gl).taken@,
    {
        gl.bind_object(ObjectKind::Program, self.program);
        gl.emit(GlCall::Uniform3f { location: self.location, x: vec[0], y: vec[1], z: vec[2] });
    }

    /// Makes the owning program current, then uploads four components
    /// (float bit patterns) to this slot.
    pub fn set_vec4(&self, gl: &mut OpenGL, vec: &[u32])
        requires
            vec@.len() == 4,
        ensures
            final(gl).model() == emit_step(
                bind_step(old(gl).model(), ObjectKind::Program, self.program_spec()),
                (GlCall::Uniform4f {
                    location: self.location_spec(),
                    x: vec@[0],
                    y: vec@[1],
                    z: vec@[2],
                    w: vec@[3],
                }),
            ),
            env_unchanged(*old(gl), *final(gl)),
            final(gl).taken@ == old(gl).taken@,
    {
        gl.bind_object(ObjectKind::Program, self.program);
        gl.emit(
            GlCall::Uniform4f {
                location: self.location,
                x: vec[0],
                y: vec[1],
                z: vec[2],
                w: vec[3],
            },
        );
    }

    /// Gives the handle's share of its program back.
    pub fn release(self, gl: &mut OpenGL)
        ensures
            final(gl).model() == release_step(
                old(gl).model(),
                ObjectKind::Program,
                self.program_spec(),
            ),
            env_unchanged(*old(gl), *final(gl)),
            final(gl).taken@ == old(gl).taken@,
    {
        gl.release_object(ObjectKind::Program, self.program);
    }
}

impl Program {
    /// Looks up a named uniform of this program: wraps the slot index the
    /// platform layer reported, absent names included.
    pub fn uniform(&self, gl: &mut OpenGL, name: &[u8], location: i32) -> (r: Result<
        UniformData,
        Error,
    >)
        requires
            null_terminated(name@),
        ensures
            final(gl).model() == acquire_step(
                old(gl).model(),
                ObjectKind::Program,
                self.id_spec(),
            ),
            env_unchanged(*old(gl), *final(gl)),
            final(gl).taken@ == old(gl).taken@,
            match r {
                Ok(u) => u.location_spec() == location && u.program_spec() == self.id_spec()
                    && counts(old(gl).model(), ObjectKind::Program).contains_key(self.id_spec())
                    && counts(old(gl).model(), ObjectKind::Program)[self.id_spec()] < u64::MAX,
                Err(e) => e == Error::NotLive && !(counts(old(gl).model(), ObjectKind::Program)
                    .contains_key(self.id_spec()) && counts(old(gl).model(), ObjectKind::Program)[
                    self.id_spec()] < u64::MAX),
            },
    {
        UniformData::new(gl, self, name, location)
    }
}

} // verus!
