//! The vertex-attribute handle: one named attribute slot of a program.
//! Lookup is probing like the uniform path, but a present slot is
//! additionally enabled for consumption.  Pointing the slot at a buffer
//! takes a share of that buffer — the attribute keeps the buffer it reads
//! from alive — and lets go of the previously held one.

use vstd::prelude::*;

use crate::buffer::Buffer;
use crate::call::GlCall;
use crate::context::env_unchanged;
use crate::context::OpenGL;
use crate::error::Error;
use crate::model::acquire_step;
use crate::model::bind_step;
use crate::model::counts;
use crate::model::emit_step;
use crate::model::release_step;
use crate::model::Model;
use crate::model::ObjectKind;
use crate::program::null_terminated;
use crate::program::Program;

verus! {

/// The slot index the underlying API reports for a name the program does
/// not declare.
pub const ABSENT_ATTRIBUTE: i32 = -1;

/// A handle on one vertex-attribute slot of a program.
#[derive(Debug)]
pub struct VertexData {
    location: i32,
    program: u32,
    held: Option<u32>,
}

/// The model steps of an attribute lookup: take a share of the program,
/// and enable the slot when the name resolved to one.
pub open spec fn attribute_lookup_steps(m: Model, program: u32, location: i32) -> Model {
    let acquired = acquire_step(m, ObjectKind::Program, program);
    if location == ABSENT_ATTRIBUTE {
        acquired
    } else {
        emit_step(acquired, (GlCall::EnableVertexAttribArray { index: location as u32 }))
    }
}

/// The model steps of pointing an attribute slot at a buffer: take a share
/// of the new buffer, let go of the previously held one, make the new
/// buffer current, and describe its layout for the slot.
pub open spec fn attribute_set_steps(
    m: Model,
    location: i32,
    buffer: u32,
    previous: Option<u32>,
) -> Model {
    let acquired = acquire_step(m, ObjectKind::Buffer, buffer);
    let released = match previous {
        Some(p) => release_step(acquired, ObjectKind::Buffer, p),
        None => acquired,
    };
    emit_step(
        bind_step(released, ObjectKind::Buffer, buffer),
        (GlCall::VertexAttribPointer { index: location as u32 }),
    )
}

impl VertexData {
    /// The slot index the lookup reported; the sentinel means absent.
    pub closed spec fn location_spec(&self) -> i32 {
        self.location
    }

    /// The identifier of the program the slot belongs to.
    pub closed spec fn program_spec(&self) -> u32 {
        self.program
    }

    /// The buffer this attribute currently holds a share of, if any.
    pub closed spec fn held_spec(&self) -> Option<u32> {
        self.held
    }

    /// The slot index the lookup reported; the sentinel means absent.
    #[verifier::when_used_as_spec(location_spec)]
    pub fn location(&self) -> (r: i32)
        ensures
            r == self.location_spec(),
    {
        self.location
    }

    /// Wraps the slot index the platform layer's lookup reported for a
    /// named attribute of the program, taking a share of the program.  A
    /// present slot is enabled for consumption; an absent name is not an
    /// error and is reported by [`VertexData::is_none`].  Creation is
    /// refused only when the program is no longer live.
    pub fn new(gl: &mut OpenGL, program: &Program, name: &[u8], location: i32) -> (r: Result<
        VertexData,
        Error,
    >)
        requires
            null_terminated(name@),
        ensures
            match r {
                Ok(v) => v.location_spec() == location && v.program_spec() == program.id_spec()
                    && v.held_spec() is None && counts(old(gl).model(), ObjectKind::Program)
                    .contains_key(program.id_spec()) && counts(old(gl).model(), ObjectKind::Program)[
                    program.id_spec()] < u64::MAX && final(gl).model() == attribute_lookup_steps(
                    old(gl).model(),
                    program.id_spec(),
                    location,
                ),
                Err(e) => e == Error::NotLive && final(gl).model() == old(gl).model() && !(counts(
                    old(gl).model(),
                    ObjectKind::Program,
                ).contains_key(program.id_spec()) && counts(old(gl).model(), ObjectKind::Program)[
                    program.id_spec()] < u64::MAX),
            },
            env_unchanged(*old(gl), *final(gl)),
            final(gl).taken@ == old(gl).taken@,
    {
        if !gl.acquire_object(ObjectKind::Program, program.id()) {
            return Err(Error::NotLive);
        }
        if location != ABSENT_ATTRIBUTE {
            gl.emit(GlCall::EnableVertexAttribArray { index: location as u32 });
        }
        Ok(VertexData { location, program: program.id(), held: None })
    }

    /// Whether the looked-up name was absent from the program.
    pub fn is_none(&self) -> (r: bool)
        ensures
            r == (self.location_spec() == ABSENT_ATTRIBUTE),
    {
        self.location == ABSENT_ATTRIBUTE
    }

    /// Points this attribute slot at a buffer: takes a share of it (the
    /// attribute keeps the buffer it reads from alive), lets go of the
    /// previously held buffer, makes the new buffer current, and describes
    /// its layout for the slot.
    pub fn set(&mut self, gl: &mut OpenGL, buffer: &Buffer)
        requires
            old(self).location_spec() != ABSENT_ATTRIBUTE,
        ensures
            final(gl).model() == attribute_set_steps(
                old(gl).model(),
                old(self).location_spec(),
                buffer.id_spec(),
                old(self).held_spec(),
            ),
            final(self).location_spec() == old(self).location_spec(),
            final(self).program_spec() == old(self).program_spec(),
            final(self).held_spec() == Some(buffer.id_spec()),
            env_unchanged(*old(gl), *final(gl)),
            final(gl).taken@ == old(gl).taken@,
    {
        gl.acquire_object(ObjectKind::Buffer, buffer.id());
        match self.held {
            Some(p) => gl.release_object(ObjectKind::Buffer, p),
            None => (),
        }
        self.held = Some(buffer.id());
        gl.bind_object(ObjectKind::Buffer, buffer.id());
        gl.emit(GlCall::VertexAttribPointer { index: self.location as u32 });
    }

    /// Gives the handle's shares back: the held buffer's, if any, then the
    /// program's.
    pub fn release(self, gl: &mut OpenGL)
        ensures
            final(gl).model() == release_step(
                (match self.held_spec() {
                    Some(p) => release_step(old(gl).model(), ObjectKind::Buffer, p),
                    None => old(gl).model(),
                }),
                ObjectKind::Program,
                self.program_spec(),
            ),
            env_unchanged(*old(gl), *final(gl)),
            final(gl).taken@ == old(gl).taken@,
    {
        match self.held {
            Some(p) => gl.release_object(ObjectKind::Buffer, p),
            None => (),
        }
        gl.release_object(ObjectKind::Program, self.program);
    }
}

impl Program {
    /// Looks up a named vertex attribute of this program: wraps the slot
    /// index the platform layer reported, enabling the slot when present.
    pub fn vertex_data(&self, gl: &mut OpenGL, name: &[u8], location: i32) -> (r: Result<
        VertexData,
        Error,
    >)
        requires
            null_terminated(name@),
        ensures
            match r {
                Ok(v) => v.location_spec() == location && v.program_spec() == self.id_spec()
                    && v.held_spec() is None && counts(old(gl).model(), ObjectKind::Program)
                    .contains_key(self.id_spec()) && counts(old(gl).model(), ObjectKind::Program)[
                    self.id_spec()] < u64::MAX && final(gl).model() == attribute_lookup_steps(
                    old(gl).model(),
                    self.id_spec(),
                    location,
                ),
                Err(e) => e == Error::NotLive && final(gl).model() == old(gl).model() && !(counts(
                    old(gl).model(),
                    ObjectKind::Program,
                ).contains_key(self.id_spec()) && counts(old(gl).model(), ObjectKind::Program)[
                    self.id_spec()] < u64::MAX),
            },
            env_unchanged(*old(gl), *final(gl)),
            final(gl).taken@ == old(gl).taken@,
    {
        VertexData::new(gl, self, name, location)
    }
}

} // verus!
