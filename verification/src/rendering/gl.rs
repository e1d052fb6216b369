//! The OpenGL enumerants that the renderer writes into its commands.

use vstd::prelude::*;

verus! {

pub const NO_ERROR: u32 = 0;
pub const INVALID_ENUM: u32 = 0x0500;
pub const INVALID_VALUE: u32 = 0x0501;
pub const INVALID_OPERATION: u32 = 0x0502;
pub const STACK_OVERFLOW: u32 = 0x0503;
pub const STACK_UNDERFLOW: u32 = 0x0504;
pub const OUT_OF_MEMORY: u32 = 0x0505;
pub const INVALID_FRAMEBUFFER_OPERATION: u32 = 0x0506;

pub const COLOR_BUFFER_BIT: u32 = 0x0000_4000;
pub const DEPTH_BUFFER_BIT: u32 = 0x0000_0100;
pub const STENCIL_BUFFER_BIT: u32 = 0x0000_0400;
pub const ALL_BARRIER_BITS: u32 = 0xFFFF_FFFF;

pub const BLEND: u32 = 0x0BE2;
pub const SRC_ALPHA: u32 = 0x0302;
pub const ONE_MINUS_SRC_ALPHA: u32 = 0x0303;
pub const DEPTH_TEST: u32 = 0x0B71;
pub const CULL_FACE: u32 = 0x0B44;
pub const FRONT: u32 = 0x0404;
pub const BACK: u32 = 0x0405;
pub const CW: u32 = 0x0900;
pub const FRAMEBUFFER_SRGB: u32 = 0x8DB9;

pub const ARRAY_BUFFER: u32 = 0x8892;
pub const ELEMENT_ARRAY_BUFFER: u32 = 0x8893;
pub const SHADER_STORAGE_BUFFER: u32 = 0x90D2;
pub const ATOMIC_COUNTER_BUFFER: u32 = 0x92C0;
pub const DYNAMIC_STORAGE_BIT: u32 = 0x0100;
pub const MAP_WRITE_BIT: u32 = 0x0002;
pub const STATIC_DRAW: u32 = 0x88E4;
pub const DYNAMIC_DRAW: u32 = 0x88E8;

pub const UNSIGNED_BYTE: u32 = 0x1401;
pub const UNSIGNED_INT: u32 = 0x1405;
pub const FLOAT: u32 = 0x1406;
pub const TRIANGLES: u32 = 0x0004;

pub const FRAGMENT_SHADER: u32 = 0x8B30;
pub const VERTEX_SHADER: u32 = 0x8B31;
pub const COMPUTE_SHADER: u32 = 0x91B9;

pub const TEXTURE_2D: u32 = 0x0DE1;
pub const TEXTURE0: u32 = 0x84C0;
pub const TEXTURE_BASE_LEVEL: u32 = 0x813C;
pub const TEXTURE_MAX_LEVEL: u32 = 0x813D;
pub const TEXTURE_LOD_BIAS: u32 = 0x8501;
pub const TEXTURE_MAG_FILTER: u32 = 0x2800;
pub const TEXTURE_MIN_FILTER: u32 = 0x2801;
pub const NEAREST: u32 = 0x2600;
pub const LINEAR: u32 = 0x2601;
pub const NEAREST_MIPMAP_NEAREST: u32 = 0x2700;
pub const LINEAR_MIPMAP_LINEAR: u32 = 0x2703;

pub const RED: u32 = 0x1903;
pub const RG: u32 = 0x8227;
pub const RGB: u32 = 0x1907;
pub const RGBA: u32 = 0x1908;
pub const R32F: u32 = 0x822E;
pub const RG32F: u32 = 0x8230;
pub const RGB32F: u32 = 0x8815;
pub const RGBA32F: u32 = 0x8814;

pub const READ_ONLY: u32 = 0x88B8;
pub const WRITE_ONLY: u32 = 0x88B9;
pub const READ_WRITE: u32 = 0x88BA;

pub const FRAMEBUFFER: u32 = 0x8D40;
pub const COLOR_ATTACHMENT0: u32 = 0x8CE0;
pub const FRAMEBUFFER_COMPLETE: u32 = 0x8CD5;

} // verus!
