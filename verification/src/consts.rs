//! The numeric names of the graphics API that the commands carry.

use vstd::prelude::*;

verus! {

pub const ARRAY_BUFFER: u32 = 0x8892;

pub const STATIC_DRAW: u32 = 0x88E4;

pub const DYNAMIC_DRAW: u32 = 0x88E8;

pub const TEXTURE_2D: u32 = 0x0DE1;

pub const TEXTURE_2D_ARRAY: u32 = 0x8C1A;

pub const TEXTURE0: u32 = 0x84C0;

pub const DRAW_FRAMEBUFFER: u32 = 0x8CA9;

pub const COLOR_ATTACHMENT0: u32 = 0x8CE0;

pub const R8: u32 = 0x8229;

pub const RG8: u32 = 0x822B;

pub const RGB8: u32 = 0x8051;

pub const RGBA8: u32 = 0x8058;

pub const SRGB8: u32 = 0x8C41;

pub const SRGB8_ALPHA8: u32 = 0x8C43;

pub const R32F: u32 = 0x822E;

pub const RG32F: u32 = 0x8230;

pub const RGB32F: u32 = 0x8815;

pub const RGBA32F: u32 = 0x8814;

} // verus!
