use vstd::prelude::*;

verus! {

/// The pixel grid, row by row: `fb[y][x]` is 1 where the pixel at column `x`
/// and row `y` is lit, 0 where it is dark.
pub type FrameBuffer = [[u8; 64]; 32];

/// The model of a display: its pixels, row by row, and whether anything
/// changed since the grid was last read.
pub struct DisplayView {
    pub pixels: Seq<Seq<u8>>,
    pub dirty: bool,
}

/// An all-dark grid of 32 rows of 64 pixels.
pub open spec fn dark_pixels() -> Seq<Seq<u8>> {
    Seq::new(32, |_y: int| Seq::new(64, |_x: int| 0u8))
}

/// Whether column `col` (0 is the leftmost) of a sprite row is set.
pub open spec fn sprite_bit(byte: u8, col: int) -> bool {
    (byte >> ((7 - col) as u8)) & 1 == 1
}

/// Whether drawing `sprite` with its top-left corner at (`vx`, `vy`) flips the
/// pixel (`x`, `y`): the pixel lies on the screen, under the sprite, and its
/// bit in the sprite is set. Parts of a sprite beyond the right or bottom
/// edge are cut off, not wrapped.
pub open spec fn covers(sprite: Seq<u8>, vx: int, vy: int, x: int, y: int) -> bool {
    &&& vx <= x < vx + 8
    &&& x < 64
    &&& vy <= y < vy + sprite.len()
    &&& y < 32
    &&& sprite_bit(sprite[y - vy], x - vx)
}

impl DisplayView {
    /// Whether pixel (`x`, `y`) is lit.
    pub open spec fn is_on(self, x: int, y: int) -> bool {
        self.pixels[y][x] == 1
    }

    /// A dark screen, marked dirty.
    pub open spec fn cleared(self) -> DisplayView {
        DisplayView { pixels: dark_pixels(), dirty: true }
    }

    /// The display after flipping pixel (`x`, `y`), and whether that pixel was
    /// lit before. Outside the screen nothing changes and the answer is `false`.
    pub open spec fn toggled(self, x: int, y: int) -> (DisplayView, bool) {
        if 0 <= x < 64 && 0 <= y < 32 {
            (
                DisplayView {
                    pixels: self.pixels.update(y, self.pixels[y].update(x, self.pixels[y][x] ^ 1)),
                    dirty: true,
                },
                self.pixels[y][x] == 1,
            )
        } else {
            (self, false)
        }
    }

    /// The display after drawing `sprite` at (`vx`, `vy`): every covered pixel
    /// is flipped, and the display is dirty if any pixel was.
    pub open spec fn with_sprite(self, sprite: Seq<u8>, vx: int, vy: int) -> DisplayView {
        DisplayView {
            pixels: Seq::new(
                32,
                |y: int|
                    Seq::new(
                        64,
                        |x: int|
                            if covers(sprite, vx, vy, x, y) {
                                self.pixels[y][x] ^ 1
                            } else {
                                self.pixels[y][x]
                            },
                    ),
            ),
            dirty: self.dirty || exists|x: int, y: int| covers(sprite, vx, vy, x, y),
        }
    }

    /// Whether drawing `sprite` at (`vx`, `vy`) flips a pixel that was lit.
    pub open spec fn sprite_collides(self, sprite: Seq<u8>, vx: int, vy: int) -> bool {
        exists|x: int, y: int| covers(sprite, vx, vy, x, y) && self.is_on(x, y)
    }

    /// The grid is 32 rows of 64 pixels.
    pub open spec fn well_shaped(self) -> bool {
        &&& self.pixels.len() == 32
        &&& forall|y: int| 0 <= y < 32 ==> #[trigger] self.pixels[y].len() == 64
    }
}

/// A monochrome 64 x 32 display with a flag that records changes.
pub struct Display {
    pub fb: FrameBuffer,
    pub dirty: bool,
}

impl View for Display {
    type V = DisplayView;

    open spec fn view(&self) -> DisplayView {
        DisplayView { pixels: self.fb@.map_values(|row: [u8; 64]| row@), dirty: self.dirty }
    }
}

impl Display {
    /// The shape of the model follows from the array types.
    pub proof fn lemma_well_shaped(&self)
        ensures
            self@.well_shaped(),
    {
        assert forall|y: int| 0 <= y < 32 implies #[trigger] self@.pixels[y].len() == 64 by {
            assert(self@.pixels[y] == self.fb@[y]@);
        }
    }

    /// A dark display that has not changed.
    pub fn new() -> (d: Self)
        ensures
            d@ == (DisplayView { pixels: dark_pixels(), dirty: false }),
    {
        let d = Display { fb: [[0u8; 64]; 32], dirty: false };
        assert(d@.pixels =~~= dark_pixels());
        d
    }

    /// Returns a copy of the pixel grid and clears the dirty flag.
    pub fn fb(&mut self) -> (r: FrameBuffer)
        ensures
            r == old(self).fb,
            final(self).fb == old(self).fb,
            !final(self).dirty,
    {
        self.dirty = false;
        self.fb
    }

    /// Flips pixel (`x`, `y`) and returns whether it was lit before; marks the
    /// display dirty. Outside the screen this does nothing and returns `false`.
    pub fn toggle(&mut self, x: usize, y: usize) -> (r: bool)
        ensures
            (final(self)@, r) == old(self)@.toggled(x as int, y as int),
    {
        if x >= 64 || y >= 32 {
            return false;
        }
        self.dirty = true;
        let mut row = self.fb[y];
        let prev = row[x];
        row[x] = prev ^ 1;
        self.fb[y] = row;
        proof {
            let ghost (d, _) = old(self)@.toggled(x as int, y as int);
            assert(self@.pixels =~~= d.pixels);
        }
        prev == 1
    }

    /// Turns every pixel off and marks the display dirty.
    pub fn clear(&mut self)
        ensures
            final(self)@ == old(self)@.cleared(),
    {
        self.dirty = true;
        let mut i: usize = 0;
        while i < 32
            invariant
                i <= 32,
                self.dirty,
                forall|y: int| 0 <= y < i ==> #[trigger] self.fb[y]@ == Seq::new(64, |_x: int| 0u8),
            decreases 32 - i,
        {
            self.fb[i] = [0u8; 64];
            assert(self.fb[i as int]@ =~= Seq::new(64, |_x: int| 0u8));
            i = i + 1;
        }
        assert(self@.pixels =~~= old(self)@.cleared().pixels);
    }

    /// Whether pixel (`x`, `y`) is lit.
    pub fn is_set(&self, x: usize, y: usize) -> (r: bool)
        requires
            x < 64,
            y < 32,
        ensures
            r == self@.is_on(x as int, y as int),
    {
        self.fb[y][x] == 1
    }
}

} // verus!
