//! Sprite-sheet layouts for character animations.
//!
//! A sheet holds a linear run of frames; the layout says how the frames
//! are cut out of the texture. Loading the texture itself is the render
//! collaborator's work: the layout only computes the frame rectangles
//! from the texture's size.

use vstd::prelude::*;
use crate::assets::SpriteSnip;

verus! {

/// How frames lie in a sheet.
#[derive(Debug, Clone, Copy, PartialEq, Eq, Structural)]
pub enum FrameFormat {
    /// The texture holds only a linear run of square frames: the frame
    /// width and height both equal the texture height.
    ExclusiveSquareLinear,
    /// The texture holds only a linear run of frames: the frame width is
    /// the texture width divided by the count, the height the texture
    /// height.
    ExclusiveLinear { count: usize },
}

/// A sheet: the raw image bytes and the layout of its frames.
#[derive(Debug, Clone)]
pub struct SpriteSheetFormat {
    pub file: Vec<u8>,
    pub format: FrameFormat,
}

impl SpriteSheetFormat {
    pub open spec fn wf(self) -> bool {
        match self.format {
            FrameFormat::ExclusiveLinear { count } => 1 <= count <= 100_000,
            FrameFormat::ExclusiveSquareLinear => true,
        }
    }

    /// A sheet of square frames sized by the texture height.
    pub fn exclusive_square_linear(file: Vec<u8>) -> (r: SpriteSheetFormat)
        ensures
            r.wf(),
            r.file == file,
            r.format == FrameFormat::ExclusiveSquareLinear,
    {
        SpriteSheetFormat { file, format: FrameFormat::ExclusiveSquareLinear }
    }

    /// A sheet of `frames` equally wide frames.
    pub fn exclusive_linear(file: Vec<u8>, frames: usize) -> (r: SpriteSheetFormat)
        requires
            1 <= frames <= 100_000,
        ensures
            r.wf(),
            r.file == file,
            r.format == (FrameFormat::ExclusiveLinear { count: frames }),
    {
        SpriteSheetFormat { file, format: FrameFormat::ExclusiveLinear { count: frames } }
    }

    /// The frame rectangles of a texture of the given size, left to right.
    pub fn frames(&self, texture_width: u32, texture_height: u32) -> (r: Vec<SpriteSnip>)
        requires
            self.wf(),
            texture_height >= 1,
        ensures
            match self.format {
                FrameFormat::ExclusiveLinear { count } => r@.len() == count && forall|k: int|
                    0 <= k < r@.len() ==> (#[trigger] r@[k]) == (SpriteSnip {
                        x: (k * ((texture_width as int) / (count as int))) as u32,
                        y: 0,
                        width: ((texture_width as int) / (count as int)) as u32,
                        height: texture_height,
                    }),
                FrameFormat::ExclusiveSquareLinear => r@.len() == (texture_width as int) / (
                texture_height as int) && forall|k: int|
                    0 <= k < r@.len() ==> (#[trigger] r@[k]) == (SpriteSnip {
                        x: (k * (texture_height as int)) as u32,
                        y: 0,
                        width: texture_height,
                        height: texture_height,
                    }),
            },
    {
        let mut r: Vec<SpriteSnip> = Vec::new();
        match self.format {
            FrameFormat::ExclusiveLinear { count } => {
                let frame_width: u32 = texture_width / (count as u32);
                proof {
                    vstd::arithmetic::div_mod::lemma_fundamental_div_mod(
                        texture_width as int,
                        count as int,
                    );
                    vstd::arithmetic::div_mod::lemma_mod_division_less_than_divisor(
                        texture_width as int,
                        count as int,
                    );
                }
                let mut k: usize = 0;
                while k < count
                    invariant
                        1 <= count <= 100_000,
                        frame_width == (texture_width as int) / (count as int),
                        (count as int) * (frame_width as int) <= texture_width as int,
                        k <= count,
                        r@.len() == k,
                        forall|j: int|
                            0 <= j < k ==> (#[trigger] r@[j]) == (SpriteSnip {
                                x: (j * (frame_width as int)) as u32,
                                y: 0,
                                width: frame_width,
                                height: texture_height,
                            }),
                    decreases count - k,
                {
                    proof {
                        assert((k as int) * (frame_width as int) + frame_width <= (count as int) * (
                        frame_width as int)) by (nonlinear_arith)
                            requires
                                0 <= k as int,
                                (k as int) < count as int,
                                0 <= frame_width as int,
                        ;
                    }
                    r.push(
                        SpriteSnip {
                            x: (k as u32) * frame_width,
                            y: 0,
                            width: frame_width,
                            height: texture_height,
                        },
                    );
                    k = k + 1;
                }
            },
            FrameFormat::ExclusiveSquareLinear => {
                let frame_size: u32 = texture_height;
                let count: u32 = texture_width / frame_size;
                proof {
                    vstd::arithmetic::div_mod::lemma_fundamental_div_mod(
                        texture_width as int,
                        frame_size as int,
                    );
                    vstd::arithmetic::div_mod::lemma_mod_division_less_than_divisor(
                        texture_width as int,
                        frame_size as int,
                    );
                }
                let mut k: usize = 0;
                while k < count as usize
                    invariant
                        frame_size == texture_height,
                        frame_size >= 1,
                        count == (texture_width as int) / (frame_size as int),
                        (count as int) * (frame_size as int) <= texture_width as int,
                        k <= count,
                        r@.len() == k,
                        forall|j: int|
                            0 <= j < k ==> (#[trigger] r@[j]) == (SpriteSnip {
                                x: (j * (frame_size as int)) as u32,
                                y: 0,
                                width: frame_size,
                                height: frame_size,
                            }),
                    decreases count - k,
                {
                    proof {
                        assert((k as int) * (frame_size as int) + frame_size <= (count as int) * (
                        frame_size as int)) by (nonlinear_arith)
                            requires
                                0 <= k as int,
                                (k as int) < count as int,
                                0 <= frame_size as int,
                        ;
                    }
                    r.push(
                        SpriteSnip {
                            x: (k as u32) * frame_size,
                            y: 0,
                            width: frame_size,
                            height: frame_size,
                        },
                    );
                    k = k + 1;
                }
            },
        }
        r
    }
}

} // verus!
