//! The buffer handle: a wrapper around a buffer object's identifier whose
//! lifecycle is tracked by the context.  Handles are never copied freely —
//! sharing goes through [`Buffer::duplicate`], and each handle is given back
//! with [`Buffer::release`], so the context can issue the one deletion call
//! for the object exactly when the last handle goes.

use vstd::prelude::*;

use crate::call::GlCall;
use crate::context::env_unchanged;
use crate::context::OpenGL;
use crate::error::Error;
use crate::model::acquire_step;
use crate::model::bind_step;
use crate::model::counts;
use crate::model::emit_step;
use crate::model::register_step;
use crate::model::release_step;
use crate::model::ObjectKind;
use crate::types::GL_ARRAY_BUFFER;
use crate::types::GL_DYNAMIC_DRAW;

verus! {

/// A handle on one buffer object.
#[derive(Debug)]
pub struct Buffer {
    id: u32,
}

impl Buffer {
    /// The identifier of the underlying buffer object.
    pub closed spec fn id_spec(&self) -> u32 {
        self.id
    }

    /// The identifier of the underlying buffer object.
    #[verifier::when_used_as_spec(id_spec)]
    pub fn id(&self) -> (r: u32)
        ensures
            r == self.id_spec(),
    {
        self.id
    }

    /// Wraps the buffer object the platform layer just generated, with this
    /// handle as its one owner.  An identifier that is already tracked as
    /// live is refused: an object may be shared only by duplicating a
    /// handle.
    pub fn new(gl: &mut OpenGL, id: u32) -> (r: Result<Buffer, Error>)
        ensures
            final(gl).model() == register_step(old(gl).model(), ObjectKind::Buffer, id),
            env_unchanged(*old(gl), *final(gl)),
            final(gl).taken@ == old(gl).taken@,
            match r {
                Ok(b) => b.id_spec() == id && !counts(old(gl).model(), ObjectKind::Buffer)
                    .contains_key(id),
                Err(e) => e == Error::AlreadyLive && counts(old(gl).model(), ObjectKind::Buffer)
                    .contains_key(id),
            },
    {
        if gl.register_object(ObjectKind::Buffer, id) {
            Ok(Buffer { id })
        } else {
            Err(Error::AlreadyLive)
        }
    }

    /// Makes this buffer current; the native bind call is issued only when
    /// the cache does not already name it.
    pub fn bind(&self, gl: &mut OpenGL)
        ensures
            final(gl).model() == bind_step(old(gl).model(), ObjectKind::Buffer, self.id_spec()),
            env_unchanged(*old(gl), *final(gl)),
            final(gl).taken@ == old(gl).taken@,
    {
        gl.bind_object(ObjectKind::Buffer, self.id);
    }

    /// Makes this buffer current, then uploads its data, byte for byte, as
    /// dynamic-draw data.
    pub fn set(&self, gl: &mut OpenGL, data: Vec<u8>)
        ensures
            final(gl).model() == emit_step(
                bind_step(old(gl).model(), ObjectKind::Buffer, self.id_spec()),
                (GlCall::BufferData { target: GL_ARRAY_BUFFER, data: data, usage: GL_DYNAMIC_DRAW }),
            ),
            env_unchanged(*old(gl), *final(gl)),
            final(gl).taken@ == old(gl).taken@,
    {
        gl.bind_object(ObjectKind::Buffer, self.id);
        gl.emit(GlCall::BufferData { target: GL_ARRAY_BUFFER, data, usage: GL_DYNAMIC_DRAW });
    }

    /// A further handle on the same buffer object, recorded with the
    /// context so that the object is deleted only when both handles are
    /// gone.  Refused if the object is no longer live or its count cannot
    /// be raised.
    pub fn duplicate(&self, gl: &mut OpenGL) -> (r: Result<Buffer, Error>)
        ensures
            final(gl).model() == acquire_step(old(gl).model(), ObjectKind::Buffer, self.id_spec()),
            env_unchanged(*old(gl), *final(gl)),
            final(gl).taken@ == old(gl).taken@,
            match r {
                Ok(b) => b.id_spec() == self.id_spec() && counts(
                    old(gl).model(),
                    ObjectKind::Buffer,
                ).contains_key(self.id_spec()) && counts(old(gl).model(), ObjectKind::Buffer)[
                    self.id_spec()] < u64::MAX,
                Err(e) => e == Error::NotLive && !(counts(old(gl).model(), ObjectKind::Buffer)
                    .contains_key(self.id_spec()) && counts(old(gl).model(), ObjectKind::Buffer)[
                    self.id_spec()] < u64::MAX),
            },
    {
        if gl.acquire_object(ObjectKind::Buffer, self.id) {
            Ok(Buffer { id: self.id })
        } else {
            Err(Error::NotLive)
        }
    }

    /// Gives this handle back.  While other handles still share the object
    /// nothing is issued; when this was the last handle, the one native
    /// deletion call for the object is issued.
    pub fn release(self, gl: &mut OpenGL)
        ensures
            final(gl).model() == release_step(old(gl).model(), ObjectKind::Buffer, self.id_spec()),
            env_unchanged(*old(gl), *final(gl)),
            final(gl).taken@ == old(gl).taken@,
    {
        gl.release_object(ObjectKind::Buffer, self.id);
    }
}

impl OpenGL {
    /// Makes a buffer current (the pass-through call path); issued only
    /// when the cache does not already name it.
    pub fn bind_buffer(&mut self, buffer: &Buffer)
        ensures
            final(self).model() == bind_step(
                old(self).model(),
                ObjectKind::Buffer,
                buffer.id_spec(),
            ),
            env_unchanged(*old(self), *final(self)),
            final(self).taken@ == old(self).taken@,
    {
        self.bind_object(ObjectKind::Buffer, buffer.id);
    }
}

} // verus!
