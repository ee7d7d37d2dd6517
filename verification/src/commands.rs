//! The command vocabulary: one closed set of variants, each carrying its own
//! payload. Commands are immutable values; the queue stores and forwards
//! them without reading their contents.

use vstd::prelude::*;

verus! {

/// How source texels are combined with what is already on the target surface.
#[derive(Clone, Copy, Debug, PartialEq, Eq)]
pub enum BlendMode {
    Opaque,
    Alpha,
    Additive,
    Multiply,
}

/// Camera placement for subsequent draws: a pixel offset into the world and
/// a zoom factor in 16.16 fixed point.
#[derive(Clone, Copy, Debug, PartialEq, Eq)]
pub struct Camera {
    pub x: i32,
    pub y: i32,
    pub zoom: u32,
}

/// Asks the rasterizer to allocate a texture atlas of the given size.
#[derive(Clone, Copy, Debug, PartialEq, Eq)]
pub struct AtlasCreate {
    pub id: u16,
    pub width: u32,
    pub height: u32,
}

/// One rectangular region of RGBA pixels destined for an atlas.
#[derive(Clone, Debug, PartialEq, Eq)]
pub struct AtlasRectChunk {
    pub id: u16,
    pub x: u32,
    pub y: u32,
    pub width: u32,
    pub height: u32,
    pub pixels: Vec<u8>,
}

/// A single textured quad: a source rectangle in an atlas and a destination
/// position on the target surface.
#[derive(Clone, Copy, Debug, PartialEq, Eq)]
pub struct Sprite {
    pub atlas: u16,
    pub src_x: u32,
    pub src_y: u32,
    pub src_w: u32,
    pub src_h: u32,
    pub x: i32,
    pub y: i32,
}

/// A batch of equally sized tiles drawn from one atlas: `indices` names the
/// tile for each cell, laid out row by row with `columns` cells per row.
#[derive(Clone, Debug, PartialEq, Eq)]
pub struct Tiles {
    pub atlas: u16,
    pub tile_w: u32,
    pub tile_h: u32,
    pub x: i32,
    pub y: i32,
    pub columns: u32,
    pub indices: Vec<u16>,
}

/// One buffered renderer instruction.
#[derive(Clone, Debug, PartialEq, Eq)]
pub enum Command {
    BeginFrame(Option<u32>),
    EndFrame,
    SetBlend(BlendMode),
    SetCamera(Camera),
    CreateAtlas(AtlasCreate),
    UploadAtlasChunk(AtlasRectChunk),
    FinalizeAtlas(u16),
    DrawSprite(Sprite),
    DrawTiles(Tiles),
}

} // verus!
