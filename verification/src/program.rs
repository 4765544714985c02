//! Program assembly: compiling the two shader stages, linking them into a
//! program object, and the program handle with the same tracked lifecycle
//! as the other objects.
//!
//! Compilation needs results back from the underlying API — the compile
//! status and, on failure, the diagnostic log — so assembly is the two-call
//! boundary the platform layer drives: [`Shader::new`] issues the source
//! upload and compile for one stage, then [`Program::new`] judges the
//! reported statuses and, only if both stages passed, issues the attach,
//! link and detach calls and wraps the program object.  Detaching after
//! linking releases the stage objects without deleting the program.

use vstd::prelude::*;

use crate::call::GlCall;
use crate::context::env_unchanged;
use crate::context::OpenGL;
use crate::error::Error;
use crate::model::acquire_step;
use crate::model::bind_step;
use crate::model::counts;
use crate::model::emit_step;
use crate::model::register_step;
use crate::model::release_step;
use crate::model::Model;
use crate::model::ObjectKind;
use crate::types::GL_FRAGMENT_SHADER;
use crate::types::GL_VERTEX_SHADER;

verus! {

/// A compiled (or compiling) shader stage: the stage object's identifier
/// and which stage it is.
#[derive(Debug)]
pub struct Shader {
    id: u32,
    stage: u32,
}

impl Shader {
    /// The identifier of the underlying shader object.
    pub closed spec fn id_spec(&self) -> u32 {
        self.id
    }

    /// The stage constant: vertex or fragment.
    pub closed spec fn stage_spec(&self) -> u32 {
        self.stage
    }

    /// The identifier of the underlying shader object.
    #[verifier::when_used_as_spec(id_spec)]
    pub fn id(&self) -> (r: u32)
        ensures
            r == self.id_spec(),
    {
        self.id
    }

    /// Uploads a stage's source text to the shader object the platform
    /// layer just created, and issues its compilation.  Whether the
    /// compiler accepted the source is judged later, in [`Program::new`],
    /// once the platform layer has read the status back.
    pub fn new(gl: &mut OpenGL, vertex_stage: bool, source: Vec<u8>, shader_id: u32) -> (r: Shader)
        ensures
            r.id_spec() == shader_id,
            r.stage_spec() == if vertex_stage {
                GL_VERTEX_SHADER
            } else {
                GL_FRAGMENT_SHADER
            },
            final(gl).model() == emit_step(
                emit_step(
                    old(gl).model(),
                    (GlCall::ShaderSource { shader: shader_id, source: source }),
                ),
                (GlCall::CompileShader { shader: shader_id }),
            ),
            env_unchanged(*old(gl), *final(gl)),
            final(gl).taken@ == old(gl).taken@,
    {
        gl.emit(GlCall::ShaderSource { shader: shader_id, source });
        gl.emit(GlCall::CompileShader { shader: shader_id });
        Shader {
            id: shader_id,
            stage: if vertex_stage {
                GL_VERTEX_SHADER
            } else {
                GL_FRAGMENT_SHADER
            },
        }
    }
}

/// The model steps of a successful link: attach both stages, link, then
/// detach both stages — sources may be released after linking; detaching
/// deletes nothing.
pub open spec fn link_steps(m: Model, program: u32, vertex: u32, fragment: u32) -> Model {
    register_step(
        emit_step(
            emit_step(
                emit_step(
                    emit_step(
                        emit_step(m, (GlCall::AttachShader { program, shader: vertex })),
                        (GlCall::AttachShader { program, shader: fragment }),
                    ),
                    (GlCall::LinkProgram { program }),
                ),
                (GlCall::DetachShader { program, shader: vertex }),
            ),
            (GlCall::DetachShader { program, shader: fragment }),
        ),
        ObjectKind::Program,
        program,
    )
}

/// A handle on one linked program object.
#[derive(Debug)]
pub struct Program {
    id: u32,
}

impl Program {
    /// The identifier of the underlying program object.
    pub closed spec fn id_spec(&self) -> u32 {
        self.id
    }

    /// The identifier of the underlying program object.
    #[verifier::when_used_as_spec(id_spec)]
    pub fn id(&self) -> (r: u32)
        ensures
            r == self.id_spec(),
    {
        self.id
    }

    /// Judges the two stages' reported compile statuses and, if both
    /// passed, assembles the program: attach both stages to the program
    /// object the platform layer just created, link, detach both stages,
    /// and wrap the program with this handle as its one owner.
    ///
    /// When the context checks compilation (the default), a failed stage is
    /// fatal and carries that stage's diagnostic log, the vertex stage
    /// judged first; with checking disabled the statuses are ignored, as
    /// the optimized configuration of the binding always has.  A program
    /// identifier that is already tracked as live is refused.
    pub fn new(
        gl: &mut OpenGL,
        vertex: &Shader,
        fragment: &Shader,
        vertex_ok: bool,
        vertex_log: Vec<u8>,
        fragment_ok: bool,
        fragment_log: Vec<u8>,
        program_id: u32,
    ) -> (r: Result<Program, Error>)
        ensures
            match r {
                Ok(p) => p.id_spec() == program_id && (old(gl).check_compile ==> vertex_ok
                    && fragment_ok) && !counts(old(gl).model(), ObjectKind::Program).contains_key(
                    program_id,
                ) && final(gl).model() == link_steps(
                    old(gl).model(),
                    program_id,
                    vertex.id_spec(),
                    fragment.id_spec(),
                ),
                Err(e) => final(gl).model() == old(gl).model() && e == (
                if old(gl).check_compile && !vertex_ok {
                    Error::ShaderCompileError(vertex_log)
                } else if old(gl).check_compile && !fragment_ok {
                    Error::ShaderCompileError(fragment_log)
                } else {
                    Error::AlreadyLive
                }) && (old(gl).check_compile && (!vertex_ok || !fragment_ok) || counts(
                    old(gl).model(),
                    ObjectKind::Program,
                ).contains_key(program_id)),
            },
            env_unchanged(*old(gl), *final(gl)),
            final(gl).taken@ == old(gl).taken@,
    {
        if gl.checks_compile() {
            if !vertex_ok {
                return Err(Error::ShaderCompileError(vertex_log));
            }
            if !fragment_ok {
                return Err(Error::ShaderCompileError(fragment_log));
            }
        }
        if gl.programs.is_live(program_id) {
            return Err(Error::AlreadyLive);
        }
        gl.emit(GlCall::AttachShader { program: program_id, shader: vertex.id });
        gl.emit(GlCall::AttachShader { program: program_id, shader: fragment.id });
        gl.emit(GlCall::LinkProgram { program: program_id });
        gl.emit(GlCall::DetachShader { program: program_id, shader: vertex.id });
        gl.emit(GlCall::DetachShader { program: program_id, shader: fragment.id });
        let registered = gl.register_object(ObjectKind::Program, program_id);
        proof {
            assert(registered);
        }
        Ok(Program { id: program_id })
    }

    /// Makes this program the one used for drawing; the native call is
    /// issued only when the cache does not already name it.
    pub fn bind(&self, gl: &mut OpenGL)
        ensures
            final(gl).model() == bind_step(old(gl).model(), ObjectKind::Program, self.id_spec()),
            env_unchanged(*old(gl), *final(gl)),
            final(gl).taken@ == old(gl).taken@,
    {
        gl.bind_object(ObjectKind::Program, self.id);
    }

    /// Makes this program current, then draws a range of vertices of the
    /// bound buffer with the given primitive topology.
    pub fn draw_arrays(&self, gl: &mut OpenGL, topology: u32, start_index: u32, n_indices: u32)
        requires
            start_index <= i32::MAX,
            n_indices <= i32::MAX,
        ensures
            final(gl).model() == emit_step(
                bind_step(old(gl).model(), ObjectKind::Program, self.id_spec()),
                (GlCall::DrawArrays {
                    mode: topology,
                    first: start_index as i32,
                    count: n_indices as i32,
                }),
            ),
            env_unchanged(*old(gl), *final(gl)),
            final(gl).taken@ == old(gl).taken@,
    {
        gl.bind_object(ObjectKind::Program, self.id);
        gl.emit(
            GlCall::DrawArrays {
                mode: topology,
                first: start_index as i32,
                count: n_indices as i32,
            },
        );
    }

    /// A further handle on the same program object.  Refused if the object
    /// is no longer live or its count cannot be raised.
    pub fn duplicate(&self, gl: &mut OpenGL) -> (r: Result<Program, Error>)
        ensures
            final(gl).model() == acquire_step(old(gl).model(), ObjectKind::Program, self.id_spec()),
            env_unchanged(*old(gl), *final(gl)),
            final(gl).taken@ == old(gl).taken@,
            match r {
                Ok(p) => p.id_spec() == self.id_spec() && counts(
                    old(gl).model(),
                    ObjectKind::Program,
                ).contains_key(self.id_spec()) && counts(old(gl).model(), ObjectKind::Program)[
                    self.id_spec()] < u64::MAX,
                Err(e) => e == Error::NotLive && !(counts(old(gl).model(), ObjectKind::Program)
                    .contains_key(self.id_spec()) && counts(old(gl).model(), ObjectKind::Program)[
                    self.id_spec()] < u64::MAX),
            },
    {
        if gl.acquire_object(ObjectKind::Program, self.id) {
            Ok(Program { id: self.id })
        } else {
            Err(Error::NotLive)
        }
    }

    /// Gives this handle back; when it was the last one, the one native
    /// deletion call for the program is issued.
    pub fn release(self, gl: &mut OpenGL)
        ensures
            final(gl).model() == release_step(old(gl).model(), ObjectKind::Program, self.id_spec()),
            env_unchanged(*old(gl), *final(gl)),
            final(gl).taken@ == old(gl).taken@,
    {
        gl.release_object(ObjectKind::Program, self.id);
    }
}

/// Whether a parameter name is in the form the underlying API requires:
/// non-empty and null-terminated.
pub open spec fn null_terminated(name: Seq<u8>) -> bool {
    name.len() > 0 && name[name.len() - 1] == 0
}

impl OpenGL {
    /// Makes a program the one used for drawing (the pass-through call
    /// path); issued only when the cache does not already name it.
    pub fn use_program(&mut self, program: &Program)
        ensures
            final(self).model() == bind_step(
                old(self).model(),
                ObjectKind::Program,
                program.id_spec(),
            ),
            env_unchanged(*old(self), *final(self)),
            final(self).taken@ == old(self).taken@,
    {
        self.bind_object(ObjectKind::Program, program.id);
    }

    /// Judges a uniform lookup on the legacy call path, where a missing
    /// name is immediately fatal: the platform layer reports the slot index
    /// the API returned for the name, and the sentinel index for "no such
    /// uniform" is the error.
    #[allow(unused_variables)]
    pub fn uniform(&self, program: &Program, name: &[u8], location: i32) -> (r: Result<i32, Error>)
        requires
            null_terminated(name@),
        ensures
            r == if location == -1 {
                Err::<i32, Error>(Error::LookupError)
            } else {
                Ok::<i32, Error>(location)
            },
    {
        if location == -1 {
            Err(Error::LookupError)
        } else {
            Ok(location)
        }
    }
}

} // verus!
