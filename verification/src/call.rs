//! The alphabet of native calls the library issues.  Each variant is one
//! foreign call, recorded with its exact arguments; the platform layer drains
//! the context's log and performs each call in order.  Calls whose result the
//! library needs (object generation, status and location queries) are not in
//! this alphabet: the platform layer performs those itself and reports the
//! results back as plain values.
//!
//! Floating-point arguments are carried as their 32-bit bit patterns, so the
//! exact words that reach the foreign call are the exact words recorded here.

use vstd::prelude::*;

verus! {

/// One native call, with its arguments.
#[derive(Debug, Clone, PartialEq, Eq)]
pub enum GlCall {
    /// Set the color that a clear writes; components are bit patterns.
    ClearColor { r: u32, g: u32, b: u32, a: u32 },
    /// Clear the buffers named by the mask.
    Clear { mask: u32 },
    /// Enable a capability.
    Enable { cap: u32 },
    /// Disable a capability.
    Disable { cap: u32 },
    /// Configure separate blend factors for color and alpha.
    BlendFuncSeparate { src_rgb: u32, dst_rgb: u32, src_alpha: u32, dst_alpha: u32 },
    /// Replace a shader object's source text.
    ShaderSource { shader: u32, source: Vec<u8> },
    /// Compile a shader object.
    CompileShader { shader: u32 },
    /// Attach a shader object to a program object.
    AttachShader { program: u32, shader: u32 },
    /// Link a program object.
    LinkProgram { program: u32 },
    /// Detach a shader object from a program object.
    DetachShader { program: u32, shader: u32 },
    /// Delete a program object.
    DeleteProgram { program: u32 },
    /// Delete one buffer object.
    DeleteBuffer { buffer: u32 },
    /// Delete one texture object.
    DeleteTexture { texture: u32 },
    /// Bind a buffer object to a target.
    BindBuffer { target: u32, buffer: u32 },
    /// Upload the bound buffer's data.
    BufferData { target: u32, data: Vec<u8>, usage: u32 },
    /// Select the program used for drawing.
    UseProgram { program: u32 },
    /// Upload a 4x4 matrix uniform; sixteen bit patterns, not transposed.
    UniformMat4 { location: i32, data: Vec<u32> },
    /// Upload an integer uniform.
    Uniform1i { location: i32, value: i32 },
    /// Upload a scalar uniform; a bit pattern.
    Uniform1f { location: i32, x: u32 },
    /// Upload a two-component uniform; bit patterns.
    Uniform2f { location: i32, x: u32, y: u32 },
    /// Upload a three-component uniform; bit patterns.
    Uniform3f { location: i32, x: u32, y: u32, z: u32 },
    /// Upload a four-component uniform; bit patterns.
    Uniform4f { location: i32, x: u32, y: u32, z: u32, w: u32 },
    /// Draw a range of vertices with the given primitive topology.
    DrawArrays { mode: u32, first: i32, count: i32 },
    /// Bind a texture object to a target.
    BindTexture { target: u32, texture: u32 },
    /// Set an integer texture parameter.
    TexParameter { target: u32, pname: u32, value: i32 },
    /// Upload the bound texture's pixels; RGBA, one byte per component.
    TexImage2D { width: i32, height: i32, data: Vec<u8> },
    /// Update a region of the bound texture's pixels from the origin.
    TexSubImage2D { width: i32, height: i32, data: Vec<u8> },
    /// Describe the bound buffer's layout for a vertex attribute slot:
    /// four floating-point components, tightly packed, from offset zero.
    VertexAttribPointer { index: u32 },
    /// Enable a vertex attribute slot for consumption.
    EnableVertexAttribArray { index: u32 },
    /// Rebuild the bound texture's mipmap chain.
    GenerateMipmap { target: u32 },
    /// Set the viewport rectangle.
    Viewport { x: i32, y: i32, width: i32, height: i32 },
    /// Present the surface: swap it with the screen buffer.
    Swap,
}

} // verus!
