use vstd::prelude::*;

use crate::utils::Rect;

verus! {

/// How a block copy combines source pixels with the destination.
#[derive(Clone, Copy, Debug, PartialEq, Eq, Structural)]
pub enum Blend {
    Overwrite,
    Xor,
    Or,
    And,
}

/// What a pattern fill writes over its region.
#[derive(Clone, Copy, Debug, PartialEq, Eq, Structural)]
pub enum Pattern {
    /// Combine the region with the current brush by exclusive or.
    PatternInvert,
    /// Invert the region itself.
    DestInvert,
    White,
    Black,
}

/// The brush that fills a rectangle with a color.
#[derive(Clone, Copy, Debug, PartialEq, Eq, Structural)]
pub enum Brush {
    Solid,
    HatchHorizontal,
    HatchVertical,
    HatchDiagonal,
}

/// One primitive operation on a surface, or a pause between effects.
#[derive(Clone, Copy, Debug, PartialEq, Eq, Structural)]
pub enum Call {
    /// Copy the region at `(x, y)` of extents `(w, h)` from the same surface at
    /// `(src_x, src_y)`.
    BlockCopy { x: i64, y: i64, w: i64, h: i64, src_x: i64, src_y: i64, blend: Blend },
    /// Copy the source region onto the destination region, scaling between
    /// their extents; a negative extent mirrors. Always an overwrite.
    ScaledBlockCopy {
        x: i64,
        y: i64,
        w: i64,
        h: i64,
        src_x: i64,
        src_y: i64,
        src_w: i64,
        src_h: i64,
    },
    /// Fill the region at `(x, y)` of extents `(w, h)` with a pattern.
    PatternFill { x: i64, y: i64, w: i64, h: i64, pattern: Pattern },
    /// Fill a rectangle with a brush of a color.
    FillRect { rect: Rect, color: u32, brush: Brush },
    /// Set one pixel to a color.
    SetPixel { x: i64, y: i64, color: u32 },
    /// Paint the desktop background into the surface.
    PaintDesktop,
    /// Pause for a number of milliseconds.
    Sleep { ms: u64 },
}

/// The geometry of a drawing target: its extents and its drawing origin.
#[derive(Clone, Copy, Debug, PartialEq, Eq, Structural)]
pub struct Window {
    pub w: i32,
    pub h: i32,
    pub x: i32,
    pub y: i32,
}

impl Window {
    pub fn new(w: i32, h: i32, x: i32, y: i32) -> (r: Window)
        ensures
            r == (Window { w, h, x, y }),
    {
        Window { w, h, x, y }
    }

    pub fn get_width(&self) -> (r: i32)
        ensures
            r == self.w,
    {
        self.w
    }

    pub fn get_height(&self) -> (r: i32)
        ensures
            r == self.h,
    {
        self.h
    }

    pub fn get_x(&self) -> (r: i32)
        ensures
            r == self.x,
    {
        self.x
    }

    pub fn get_y(&self) -> (r: i32)
        ensures
            r == self.y,
    {
        self.y
    }

    /// The surface shifted by one pixel right and up, xor-ed onto itself.
    pub open spec fn rgb_glitch_call(self) -> Call {
        Call::BlockCopy {
            x: self.x as i64,
            y: self.y as i64,
            w: self.w as i64,
            h: self.h as i64,
            src_x: (self.x + 1) as i64,
            src_y: (self.y - 1) as i64,
            blend: Blend::Xor,
        }
    }

    /// The surface shifted by one pixel right and up, copied over itself.
    pub open spec fn copy_glitch_call(self) -> Call {
        Call::BlockCopy {
            x: self.x as i64,
            y: self.y as i64,
            w: self.w as i64,
            h: self.h as i64,
            src_x: (self.x + 1) as i64,
            src_y: (self.y - 1) as i64,
            blend: Blend::Overwrite,
        }
    }

    /// The surface shifted by one pixel right and up, or-ed onto itself.
    pub open spec fn paint_glitch_call(self) -> Call {
        Call::BlockCopy {
            x: self.x as i64,
            y: self.y as i64,
            w: self.w as i64,
            h: self.h as i64,
            src_x: (self.x + 1) as i64,
            src_y: (self.y - 1) as i64,
            blend: Blend::Or,
        }
    }

    /// The surface shifted one pixel down, and-ed onto itself.
    pub open spec fn erode_glitch_call(self) -> Call {
        Call::BlockCopy {
            x: self.x as i64,
            y: (self.y + 1) as i64,
            w: self.w as i64,
            h: self.h as i64,
            src_x: self.x as i64,
            src_y: self.y as i64,
            blend: Blend::And,
        }
    }

    pub open spec fn invert_call(self) -> Call {
        Call::PatternFill {
            x: self.x as i64,
            y: (self.y + 1) as i64,
            w: self.w as i64,
            h: self.h as i64,
            pattern: Pattern::PatternInvert,
        }
    }

    pub open spec fn fill_call(self, pattern: Pattern) -> Call {
        Call::PatternFill {
            x: self.x as i64,
            y: self.y as i64,
            w: self.w as i64,
            h: self.h as i64,
            pattern,
        }
    }

    /// One frame of the melt: a column strip of the given width copied down
    /// from row zero to the origin row.
    pub open spec fn melt_step_call(self, width: i64) -> Call {
        Call::BlockCopy {
            x: self.x as i64,
            y: self.y as i64,
            w: width,
            h: self.w as i64,
            src_x: self.x as i64,
            src_y: 0,
            blend: Blend::Overwrite,
        }
    }

    /// The surface scaled onto itself with its height changed by `amount`.
    pub open spec fn stretch_call(self, amount: int) -> Call {
        Call::ScaledBlockCopy {
            x: self.x as i64,
            y: self.y as i64,
            w: self.w as i64,
            h: (self.h + amount) as i64,
            src_x: self.x as i64,
            src_y: self.y as i64,
            src_w: self.w as i64,
            src_h: self.h as i64,
        }
    }

    pub fn rgb_glitch(&self) -> (r: Call)
        ensures
            r == self.rgb_glitch_call(),
    {
        Call::BlockCopy {
            x: self.x as i64,
            y: self.y as i64,
            w: self.w as i64,
            h: self.h as i64,
            src_x: self.x as i64 + 1,
            src_y: self.y as i64 - 1,
            blend: Blend::Xor,
        }
    }

    pub fn copy_glitch(&self) -> (r: Call)
        ensures
            r == self.copy_glitch_call(),
    {
        Call::BlockCopy {
            x: self.x as i64,
            y: self.y as i64,
            w: self.w as i64,
            h: self.h as i64,
            src_x: self.x as i64 + 1,
            src_y: self.y as i64 - 1,
            blend: Blend::Overwrite,
        }
    }

    pub fn paint_glitch(&self) -> (r: Call)
        ensures
            r == self.paint_glitch_call(),
    {
        Call::BlockCopy {
            x: self.x as i64,
            y: self.y as i64,
            w: self.w as i64,
            h: self.h as i64,
            src_x: self.x as i64 + 1,
            src_y: self.y as i64 - 1,
            blend: Blend::Or,
        }
    }

    pub fn erode_glitch(&self) -> (r: Call)
        ensures
            r == self.erode_glitch_call(),
    {
        Call::BlockCopy {
            x: self.x as i64,
            y: self.y as i64 + 1,
            w: self.w as i64,
            h: self.h as i64,
            src_x: self.x as i64,
            src_y: self.y as i64,
            blend: Blend::And,
        }
    }

    pub fn invert(&self) -> (r: Call)
        ensures
            r == self.invert_call(),
    {
        Call::PatternFill {
            x: self.x as i64,
            y: self.y as i64 + 1,
            w: self.w as i64,
            h: self.h as i64,
            pattern: Pattern::PatternInvert,
        }
    }

    fn fill(&self, pattern: Pattern) -> (r: Call)
        ensures
            r == self.fill_call(pattern),
    {
        Call::PatternFill {
            x: self.x as i64,
            y: self.y as i64,
            w: self.w as i64,
            h: self.h as i64,
            pattern,
        }
    }

    pub fn set_white(&self) -> (r: Call)
        ensures
            r == self.fill_call(Pattern::White),
    {
        self.fill(Pattern::White)
    }

    pub fn set_black(&self) -> (r: Call)
        ensures
            r == self.fill_call(Pattern::Black),
    {
        self.fill(Pattern::Black)
    }

    pub fn fill_rect(&self, rect: Rect, color: u32) -> (r: Call)
        ensures
            r == (Call::FillRect { rect, color, brush: Brush::Solid }),
    {
        Call::FillRect { rect, color, brush: Brush::Solid }
    }

    /// One melt frame with a strip width already drawn from `[0, w)`.
    pub fn melt_step(&self, width: i64) -> (r: Call)
        ensures
            r == self.melt_step_call(width),
    {
        Call::BlockCopy {
            x: self.x as i64,
            y: self.y as i64,
            w: width,
            h: self.w as i64,
            src_x: self.x as i64,
            src_y: 0,
            blend: Blend::Overwrite,
        }
    }

    pub fn set_pixel(&self, x: i64, y: i64, color: u32) -> (r: Call)
        ensures
            r == (Call::SetPixel { x, y, color }),
    {
        Call::SetPixel { x, y, color }
    }

    pub fn stretch_glitch(&self, amount: i32) -> (r: Call)
        ensures
            r == self.stretch_call(amount as int),
    {
        Call::ScaledBlockCopy {
            x: self.x as i64,
            y: self.y as i64,
            w: self.w as i64,
            h: self.h as i64 + amount as i64,
            src_x: self.x as i64,
            src_y: self.y as i64,
            src_w: self.w as i64,
            src_h: self.h as i64,
        }
    }

    pub fn stretch_glitch_neg(&self, amount: i32) -> (r: Call)
        ensures
            r == self.stretch_call(-(amount as int)),
    {
        Call::ScaledBlockCopy {
            x: self.x as i64,
            y: self.y as i64,
            w: self.w as i64,
            h: self.h as i64 - amount as i64,
            src_x: self.x as i64,
            src_y: self.y as i64,
            src_w: self.w as i64,
            src_h: self.h as i64,
        }
    }
}

} // verus!
