//! The fixed numeric encoding of the underlying graphics API: command and
//! parameter constants, and the pixel-format record used by the windowed
//! (device-context) bootstrap path.  These values are defined by the external
//! standard and must be reproduced exactly.

use vstd::prelude::*;

verus! {

// Buffer / draw constants.
pub const GL_ARRAY_BUFFER: u32 = 0x8892;
pub const GL_DYNAMIC_DRAW: u32 = 0x88E8;
pub const GL_FLOAT: u32 = 0x1406;
pub const GL_TRIANGLE_FAN: u32 = 0x0006;

// Texture constants.
pub const GL_TEXTURE_2D: u32 = 0x0DE1;
pub const GL_TEXTURE_MAG_FILTER: u32 = 0x2800;
pub const GL_TEXTURE_MIN_FILTER: u32 = 0x2801;
pub const GL_LINEAR: i32 = 0x2601;
pub const GL_LINEAR_MIPMAP_LINEAR: i32 = 0x2703;
pub const GL_RGBA: u32 = 0x1908;
pub const GL_UNSIGNED_BYTE: u32 = 0x1401;

// Blending constants.
pub const GL_SRC_ALPHA: u32 = 0x0302;
pub const GL_ONE_MINUS_SRC_ALPHA: u32 = 0x0303;
pub const GL_DST_ALPHA: u32 = 0x0304;

// Shader constants.
pub const GL_VERTEX_SHADER: u32 = 0x8B31;
pub const GL_FRAGMENT_SHADER: u32 = 0x8B30;
pub const GL_COMPILE_STATUS: u32 = 0x8B81;
pub const GL_INFO_LOG_LENGTH: u32 = 0x8B84;

// The clear mask used when presenting a frame: depth buffer and color buffer.
pub const GL_DEPTH_BUFFER_BIT: u32 = 0x00000100;
pub const GL_COLOR_BUFFER_BIT: u32 = 0x00004000;

// The bit pattern of the 32-bit floating-point value one, used as the fixed
// alpha component of the clear color.
pub const F32_ONE_BITS: u32 = 0x3F800000;

// Display negotiation constants.
pub const EGL_RED_SIZE: i32 = 0x3024;
pub const EGL_GREEN_SIZE: i32 = 0x3023;
pub const EGL_BLUE_SIZE: i32 = 0x3022;
pub const EGL_DEPTH_SIZE: i32 = 0x3025;
pub const EGL_NONE: i32 = 0x3038;
pub const EGL_NATIVE_VISUAL_ID: i32 = 0x302E;
pub const EGL_CONTEXT_CLIENT_VERSION: i32 = 0x3098;
pub const EGL_OPENGL_ES_API: u32 = 0x30A0;

/// The pixel-format record of the windowed bootstrap path.  The platform
/// layer copies it field for field into the equivalent C record before asking
/// the system to choose a matching on-screen format.
pub struct PixelFormatDescriptor {
    pub n_size: u16,
    pub n_version: u16,
    pub dw_flags: u32,
    pub i_pixel_type: u8,
    pub c_color_bits: u8,
    pub c_red_bits: u8,
    pub c_red_shift: u8,
    pub c_green_bits: u8,
    pub c_green_shift: u8,
    pub c_blue_bits: u8,
    pub c_blue_shift: u8,
    pub c_alpha_bits: u8,
    pub c_alpha_shift: u8,
    pub c_accum_bits: u8,
    pub c_accum_red_bits: u8,
    pub c_accum_green_bits: u8,
    pub c_accum_blue_bits: u8,
    pub c_accum_alpha_bits: u8,
    pub c_depth_bits: u8,
    pub c_stencil_bits: u8,
    pub c_aux_buffers: u8,
    pub i_layer_type: u8,
    pub b_reserved: u8,
    pub dw_layer_mask: u32,
    pub dw_visible_mask: u32,
    pub dw_damage_mask: u32,
}

impl PixelFormatDescriptor {
    /// Whether this descriptor asks for the standard double-buffered
    /// on-screen RGBA format: 24 color bits, 24 depth bits, 8 stencil bits,
    /// drawn to a window.  The flag value 37 is draw-to-window (4) combined
    /// with hardware-acceleration support (32) and double buffering (1).
    pub open spec fn is_standard(self) -> bool {
        &&& self.n_size == 40
        &&& self.n_version == 1
        &&& self.dw_flags == 4u32 | 32u32 | 1u32
        &&& self.i_pixel_type == 0
        &&& self.c_color_bits == 24
        &&& self.c_red_bits == 0 && self.c_red_shift == 0
        &&& self.c_green_bits == 0 && self.c_green_shift == 0
        &&& self.c_blue_bits == 0 && self.c_blue_shift == 0
        &&& self.c_alpha_bits == 0 && self.c_alpha_shift == 0
        &&& self.c_accum_bits == 0
        &&& self.c_accum_red_bits == 0 && self.c_accum_green_bits == 0
        &&& self.c_accum_blue_bits == 0 && self.c_accum_alpha_bits == 0
        &&& self.c_depth_bits == 24
        &&& self.c_stencil_bits == 8
        &&& self.c_aux_buffers == 0
        &&& self.i_layer_type == 0
        &&& self.b_reserved == 0
        &&& self.dw_layer_mask == 0
        &&& self.dw_visible_mask == 0
        &&& self.dw_damage_mask == 0
    }

    /// The descriptor the windowed bootstrap path submits: the standard
    /// double-buffered RGBA window format.
    pub fn standard() -> (r: PixelFormatDescriptor)
        ensures
            r.is_standard(),
    {
        PixelFormatDescriptor {
            n_size: 40,
            n_version: 1,
            dw_flags: 4 | 32 | 1,
            i_pixel_type: 0,
            c_color_bits: 24,
            c_red_bits: 0,
            c_red_shift: 0,
            c_green_bits: 0,
            c_green_shift: 0,
            c_blue_bits: 0,
            c_blue_shift: 0,
            c_alpha_bits: 0,
            c_alpha_shift: 0,
            c_accum_bits: 0,
            c_accum_red_bits: 0,
            c_accum_green_bits: 0,
            c_accum_blue_bits: 0,
            c_accum_alpha_bits: 0,
            c_depth_bits: 24,
            c_stencil_bits: 8,
            c_aux_buffers: 0,
            i_layer_type: 0,
            b_reserved: 0,
            dw_layer_mask: 0,
            dw_visible_mask: 0,
            dw_damage_mask: 0,
        }
    }
}

} // verus!
