//! The texture handle: a wrapper around a texture object's identifier with
//! the same tracked lifecycle as a buffer handle.  Allocation also makes the
//! new texture current and applies the default linear filtering, as the
//! binding always has.

use vstd::prelude::*;

use crate::call::GlCall;
use crate::context::env_unchanged;
use crate::context::OpenGL;
use crate::error::Error;
use crate::model::acquire_step;
use crate::model::bind_step;
use crate::model::counts;
use crate::model::emit_step;
use crate::model::register_step;
use crate::model::release_step;
use crate::model::Model;
use crate::model::ObjectKind;
use crate::types::GL_LINEAR;
use crate::types::GL_LINEAR_MIPMAP_LINEAR;
use crate::types::GL_TEXTURE_2D;
use crate::types::GL_TEXTURE_MAG_FILTER;
use crate::types::GL_TEXTURE_MIN_FILTER;

verus! {

/// The model steps of a successful texture allocation: register the fresh
/// object, make it current, and apply the default magnification and
/// minification filters — linear, and linear between mipmap levels.
pub open spec fn texture_setup_steps(m: Model, id: u32) -> Model {
    emit_step(
        emit_step(
            bind_step(register_step(m, ObjectKind::Texture, id), ObjectKind::Texture, id),
            (GlCall::TexParameter {
                target: GL_TEXTURE_2D,
                pname: GL_TEXTURE_MAG_FILTER,
                value: GL_LINEAR,
            }),
        ),
        (GlCall::TexParameter {
            target: GL_TEXTURE_2D,
            pname: GL_TEXTURE_MIN_FILTER,
            value: GL_LINEAR_MIPMAP_LINEAR,
        }),
    )
}

/// A handle on one texture object.
#[derive(Debug)]
pub struct Texture {
    id: u32,
}

impl Texture {
    /// The identifier of the underlying texture object.
    pub closed spec fn id_spec(&self) -> u32 {
        self.id
    }

    /// The identifier of the underlying texture object.
    #[verifier::when_used_as_spec(id_spec)]
    pub fn id(&self) -> (r: u32)
        ensures
            r == self.id_spec(),
    {
        self.id
    }

    /// Wraps the texture object the platform layer just generated, with
    /// this handle as its one owner, makes it current, and applies the
    /// default filtering.  An identifier that is already tracked as live is
    /// refused, and nothing is issued for it.
    pub fn new(gl: &mut OpenGL, id: u32) -> (r: Result<Texture, Error>)
        ensures
            match r {
                Ok(t) => t.id_spec() == id && !counts(old(gl).model(), ObjectKind::Texture)
                    .contains_key(id) && final(gl).model() == texture_setup_steps(
                    old(gl).model(),
                    id,
                ),
                Err(e) => e == Error::AlreadyLive && counts(old(gl).model(), ObjectKind::Texture)
                    .contains_key(id) && final(gl).model() == old(gl).model(),
            },
            env_unchanged(*old(gl), *final(gl)),
            final(gl).taken@ == old(gl).taken@,
    {
        if gl.register_object(ObjectKind::Texture, id) {
            gl.bind_object(ObjectKind::Texture, id);
            gl.emit(
                GlCall::TexParameter {
                    target: GL_TEXTURE_2D,
                    pname: GL_TEXTURE_MAG_FILTER,
                    value: GL_LINEAR,
                },
            );
            gl.emit(
                GlCall::TexParameter {
                    target: GL_TEXTURE_2D,
                    pname: GL_TEXTURE_MIN_FILTER,
                    value: GL_LINEAR_MIPMAP_LINEAR,
                },
            );
            Ok(Texture { id })
        } else {
            Err(Error::AlreadyLive)
        }
    }

    /// Makes this texture current; the native bind call is issued only when
    /// the cache does not already name it.
    pub fn bind(&self, gl: &mut OpenGL)
        ensures
            final(gl).model() == bind_step(old(gl).model(), ObjectKind::Texture, self.id_spec()),
            env_unchanged(*old(gl), *final(gl)),
            final(gl).taken@ == old(gl).taken@,
    {
        gl.bind_object(ObjectKind::Texture, self.id);
    }

    /// Makes this texture current, uploads its pixels — four bytes per
    /// pixel, RGBA — and rebuilds its mipmap chain.
    pub fn set(&self, gl: &mut OpenGL, w: u16, h: u16, px: Vec<u8>)
        requires
            px@.len() == 4 * (w as int) * (h as int),
        ensures
            final(gl).model() == emit_step(
                emit_step(
                    bind_step(old(gl).model(), ObjectKind::Texture, self.id_spec()),
                    (GlCall::TexImage2D { width: w as i32, height: h as i32, data: px }),
                ),
                (GlCall::GenerateMipmap { target: GL_TEXTURE_2D }),
            ),
            env_unchanged(*old(gl), *final(gl)),
            final(gl).taken@ == old(gl).taken@,
    {
        gl.bind_object(ObjectKind::Texture, self.id);
        gl.emit(GlCall::TexImage2D { width: w as i32, height: h as i32, data: px });
        gl.emit(GlCall::GenerateMipmap { target: GL_TEXTURE_2D });
    }

    /// Makes this texture current and updates a region of its pixels from
    /// the origin; the texture must already have its storage set.
    pub fn update(&self, gl: &mut OpenGL, w: u16, h: u16, px: Vec<u8>)
        requires
            px@.len() == 4 * (w as int) * (h as int),
        ensures
            final(gl).model() == emit_step(
                bind_step(old(gl).model(), ObjectKind::Texture, self.id_spec()),
                (GlCall::TexSubImage2D { width: w as i32, height: h as i32, data: px }),
            ),
            env_unchanged(*old(gl), *final(gl)),
            final(gl).taken@ == old(gl).taken@,
    {
        gl.bind_object(ObjectKind::Texture, self.id);
        gl.emit(GlCall::TexSubImage2D { width: w as i32, height: h as i32, data: px });
    }

    /// A further handle on the same texture object.  Refused if the object
    /// is no longer live or its count cannot be raised.
    pub fn duplicate(&self, gl: &mut OpenGL) -> (r: Result<Texture, Error>)
        ensures
            final(gl).model() == acquire_step(old(gl).model(), ObjectKind::Texture, self.id_spec()),
            env_unchanged(*old(gl), *final(gl)),
            final(gl).taken@ == old(gl).taken@,
            match r {
                Ok(t) => t.id_spec() == self.id_spec() && counts(
                    old(gl).model(),
                    ObjectKind::Texture,
                ).contains_key(self.id_spec()) && counts(old(gl).model(), ObjectKind::Texture)[
                    self.id_spec()] < u64::MAX,
                Err(e) => e == Error::NotLive && !(counts(old(gl).model(), ObjectKind::Texture)
                    .contains_key(self.id_spec()) && counts(old(gl).model(), ObjectKind::Texture)[
                    self.id_spec()] < u64::MAX),
            },
    {
        if gl.acquire_object(ObjectKind::Texture, self.id) {
            Ok(Texture { id: self.id })
        } else {
            Err(Error::NotLive)
        }
    }

    /// Gives this handle back; when it was the last one, the one native
    /// deletion call for the texture is issued.
    pub fn release(self, gl: &mut OpenGL)
        ensures
            final(gl).model() == release_step(old(gl).model(), ObjectKind::Texture, self.id_spec()),
            env_unchanged(*old(gl), *final(gl)),
            final(gl).taken@ == old(gl).taken@,
    {
        gl.release_object(ObjectKind::Texture, self.id);
    }
}

impl OpenGL {
    /// Allocates a texture through the context itself (the pass-through
    /// call path): wraps the freshly generated identifier, makes it current
    /// and applies the default filtering.
    pub fn new_texture(&mut self, id: u32) -> (r: Result<Texture, Error>)
        ensures
            match r {
                Ok(t) => t.id_spec() == id && !counts(old(self).model(), ObjectKind::Texture)
                    .contains_key(id) && final(self).model() == texture_setup_steps(
                    old(self).model(),
                    id,
                ),
                Err(e) => e == Error::AlreadyLive && counts(old(self).model(), ObjectKind::Texture)
                    .contains_key(id) && final(self).model() == old(self).model(),
            },
            env_unchanged(*old(self), *final(self)),
            final(self).taken@ == old(self).taken@,
    {
        Texture::new(self, id)
    }

    /// Makes a texture current (the pass-through call path); issued only
    /// when the cache does not already name it.
    pub fn use_texture(&mut self, texture: &Texture)
        ensures
            final(self).model() == bind_step(
                old(self).model(),
                ObjectKind::Texture,
                texture.id_spec(),
            ),
            env_unchanged(*old(self), *final(self)),
            final(self).taken@ == old(self).taken@,
    {
        self.bind_object(ObjectKind::Texture, texture.id);
    }
}

} // verus!
