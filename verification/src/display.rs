//! The monochrome framebuffer and the built-in font.

use vstd::arithmetic::div_mod::{
    lemma_add_mod_noop, lemma_add_mod_noop_right, lemma_mod_bound, lemma_small_mod,
    lemma_sub_mod_noop, lemma_sub_mod_noop_right,
};
use vstd::prelude::*;

verus! {

/// The built-in glyphs for the hexadecimal digits `0` to `F`, five rows each.
/// Only the high four bits of a row are used.
pub const DEFAULT_FONT: [[u8; 5]; 16] = [
    [0xF0, 0x90, 0x90, 0x90, 0xF0],
    [0x20, 0x60, 0x20, 0x20, 0x70],
    [0xF0, 0x10, 0xF0, 0x80, 0xF0],
    [0xF0, 0x10, 0xF0, 0x10, 0xF0],
    [0x90, 0x90, 0xF0, 0x10, 0x10],
    [0xF0, 0x80, 0xF0, 0x10, 0xF0],
    [0xF0, 0x80, 0xF0, 0x90, 0xF0],
    [0xF0, 0x10, 0x20, 0x40, 0x40],
    [0xF0, 0x90, 0xF0, 0x90, 0xF0],
    [0xF0, 0x90, 0xF0, 0x10, 0xF0],
    [0xF0, 0x90, 0xF0, 0x90, 0x90],
    [0xE0, 0x90, 0xE0, 0x90, 0xE0],
    [0xF0, 0x80, 0x80, 0x80, 0xF0],
    [0xE0, 0x90, 0x90, 0x90, 0xE0],
    [0xF0, 0x80, 0xF0, 0x80, 0xF0],
    [0xF0, 0x80, 0xF0, 0x80, 0x80],
];

/// Whether bit `k` of a sprite row is set, counting from the most
/// significant bit: bit 0 is the leftmost pixel of the row.
pub open spec fn sprite_bit(row: u8, k: int) -> bool {
    0 <= k < 8 && (row & (0x80u8 >> (k as u8))) != 0
}

/// How many steps after `from` the coordinate `at` comes on a ring of `n`
/// positions.
#[verifier::opaque]
pub open spec fn ring_offset(from: int, at: int, n: int) -> int {
    (at - from) % n
}

/// The coordinate that comes `k` steps after `from` on a ring of `n`
/// positions.
#[verifier::opaque]
pub open spec fn ring_position(from: int, k: int, n: int) -> int {
    (from + k) % n
}

/// Whether a sprite drawn with its top-left corner at `(x, y)` on a torus of
/// `w` by `h` pixels has a set bit over the pixel in column `c` of row `r`.
///
/// Row `j` of the sprite lands on screen row `(y + j) mod h`, and bit `k` of
/// that row on column `(x + k) mod w`.
pub open spec fn sprite_covers(rows: Seq<u8>, x: int, y: int, w: int, h: int, c: int, r: int) -> bool {
    let j = ring_offset(y, r, h);
    let k = ring_offset(x, c, w);
    j < rows.len() && sprite_bit(rows[j], k)
}

/// The mathematical content of a framebuffer: a grid of `height` rows of
/// `width` pixels, and the flag that records a write since the last read.
pub struct Screen {
    pub width: nat,
    pub height: nat,
    /// `pixels[r][c]` is the pixel in column `c` of row `r`.
    pub pixels: Seq<Seq<bool>>,
    pub dirty: bool,
}

impl Screen {
    /// The grid has one of the two supported sizes and `pixels` has its shape.
    pub open spec fn wf(self) -> bool {
        &&& (self.width == 64 && self.height == 32) || (self.width == 128 && self.height == 64)
        &&& self.pixels.len() == self.height
        &&& forall|r: int| 0 <= r < self.height ==> (#[trigger] self.pixels[r]).len() == self.width
    }

    /// A grid of the given size with every pixel off.
    pub open spec fn dark(width: nat, height: nat) -> Seq<Seq<bool>> {
        Seq::new(height, |r: int| Seq::new(width, |c: int| false))
    }

    /// The screen as it is right after construction.
    pub open spec fn blank(big: bool) -> Screen {
        let width: nat = if big { 128 } else { 64 };
        let height: nat = if big { 64 } else { 32 };
        Screen { width, height, pixels: Screen::dark(width, height), dirty: false }
    }

    /// The screen with every pixel off, marked as written.
    pub open spec fn cleared(self) -> Screen {
        Screen { pixels: Screen::dark(self.width, self.height), dirty: true, ..self }
    }

    /// The screen after it has been read out: same pixels, flag lowered.
    pub open spec fn consumed(self) -> Screen {
        Screen { dirty: false, ..self }
    }

    /// The screen after a sprite has been XORed onto it at `(x, y)`, wrapping
    /// around both edges. Meant for sprites no taller than the screen.
    pub open spec fn blit(self, rows: Seq<u8>, x: int, y: int) -> Screen {
        Screen {
            pixels: Seq::new(
                self.height,
                |r: int|
                    Seq::new(
                        self.width,
                        |c: int|
                            self.pixels[r][c] != sprite_covers(
                                rows,
                                x,
                                y,
                                self.width as int,
                                self.height as int,
                                c,
                                r,
                            ),
                    ),
            ),
            dirty: self.dirty || rows.len() > 0,
            ..self
        }
    }

    /// Whether drawing the sprite at `(x, y)` would turn a lit pixel off.
    pub open spec fn hits(self, rows: Seq<u8>, x: int, y: int) -> bool {
        exists|c: int, r: int|
            0 <= c < self.width && 0 <= r < self.height && self.pixels[r][c] && sprite_covers(
                rows,
                x,
                y,
                self.width as int,
                self.height as int,
                c,
                r,
            )
    }
}

/// Going `k` steps on from `x` and measuring the way back gives `k` again.
pub proof fn lemma_ring_position(n: int, x: int, k: int)
    requires
        0 <= k < n,
    ensures
        0 <= ring_position(x, k, n) < n,
        ring_offset(x, ring_position(x, k, n), n) == k,
        ring_position(x, k, n) == (x % n + k) % n,
{
    reveal(ring_offset);
    reveal(ring_position);
    lemma_mod_bound(x + k, n);
    lemma_small_mod(k as nat, n as nat);
    lemma_sub_mod_noop(x + k, x, n);
    lemma_sub_mod_noop_right((x + k) % n, x, n);
    lemma_add_mod_noop(x, k, n);
}

/// On a ring of `n` positions, `c` lies `k` steps after `x` exactly when it
/// is the position reached by going `k` steps on from `x`.
pub proof fn lemma_ring_offset(n: int, x: int, c: int, k: int)
    requires
        0 <= c < n,
        0 <= k < n,
    ensures
        (ring_offset(x, c, n) == k) <==> (c == ring_position(x, k, n)),
        0 <= ring_offset(x, c, n) < n,
{
    lemma_ring_position(n, x, k);
    reveal(ring_offset);
    reveal(ring_position);
    lemma_mod_bound(c - x, n);
    lemma_add_mod_noop_right(x, c - x, n);
    lemma_small_mod(c as nat, n as nat);
}

/// Moving the start `m` steps on shortens every offset by `m`: `r` is where
/// the moved start is exactly when it lies `m` steps after the old one.
pub proof fn lemma_ring_shift(n: int, y: int, m: int, r: int)
    requires
        0 <= r < n,
        0 <= m < n,
    ensures
        (ring_offset(y + m, r, n) == 0) <==> (ring_offset(y, r, n) == m),
{
    lemma_ring_offset(n, y + m, r, 0);
    lemma_ring_offset(n, y, r, m);
    reveal(ring_position);
}

impl Screen {
    /// Drawing a sprite without rows changes nothing and hits nothing.
    pub proof fn lemma_blit_nothing(self, x: int, y: int)
        requires
            self.wf(),
        ensures
            self.blit(Seq::empty(), x, y) == self,
            !self.hits(Seq::empty(), x, y),
    {
        let drawn = self.blit(Seq::empty(), x, y);
        assert forall|r: int, c: int| 0 <= r < self.height && 0 <= c < self.width implies !sprite_covers(
            Seq::empty(),
            x,
            y,
            self.width as int,
            self.height as int,
            c,
            r,
        ) by {
            lemma_ring_offset(self.height as int, y, r, 0);
        }
        assert(drawn.pixels =~~= self.pixels);
    }

    /// A sprite can be drawn row by row: drawing it with one more row is
    /// drawing it, and then the new row alone on the line below; and it hits
    /// a lit pixel exactly when one of the two steps does.
    pub proof fn lemma_blit_push(self, rows: Seq<u8>, last: u8, x: int, y: int)
        requires
            self.wf(),
            rows.len() < self.height,
        ensures
            self.blit(rows.push(last), x, y) == self.blit(rows, x, y).blit(
                seq![last],
                x,
                y + rows.len(),
            ),
            self.hits(rows.push(last), x, y) == (self.hits(rows, x, y) || self.blit(rows, x, y).hits(
                seq![last],
                x,
                y + rows.len(),
            )),
            self.blit(rows, x, y).wf(),
    {
        let w = self.width as int;
        let h = self.height as int;
        let m = rows.len() as int;
        let more = rows.push(last);
        let first = self.blit(rows, x, y);
        let both = first.blit(seq![last], x, y + m);
        let whole = self.blit(more, x, y);
        assert forall|r: int, c: int| 0 <= r < h && 0 <= c < w implies {
            &&& sprite_covers(more, x, y, w, h, c, r) == (sprite_covers(rows, x, y, w, h, c, r)
                || sprite_covers(seq![last], x, y + m, w, h, c, r))
            &&& !(sprite_covers(rows, x, y, w, h, c, r) && sprite_covers(
                seq![last],
                x,
                y + m,
                w,
                h,
                c,
                r,
            ))
            &&& sprite_covers(seq![last], x, y + m, w, h, c, r) ==> first.pixels[r][c]
                == self.pixels[r][c]
        } by {
            lemma_ring_shift(h, y, m, r);
            lemma_ring_offset(h, y, r, 0);
            lemma_ring_offset(h, y + m, r, 0);
        }
        assert(whole.pixels =~~= both.pixels);
    }
}

/// A framebuffer of 64 by 32 or 128 by 64 pixels.
pub struct Display {
    size: (usize, usize),
    d: [[bool; 128]; 64],
    dirty: bool,
}

impl View for Display {
    type V = Screen;

    closed spec fn view(&self) -> Screen {
        Screen {
            width: self.size.0 as nat,
            height: self.size.1 as nat,
            pixels: Seq::new(
                self.size.1 as nat,
                |r: int| Seq::new(self.size.0 as nat, |c: int| self.d[r][c]),
            ),
            dirty: self.dirty,
        }
    }
}

impl Display {
    /// What holds of every display: its content is well formed, and the part
    /// of the backing array that lies outside the grid is off.
    #[verifier::type_invariant]
    pub open spec fn inv(self) -> bool {
        self@.wf() && self.margin_off()
    }

    /// The part of the backing array that lies outside the grid is off.
    pub closed spec fn margin_off(self) -> bool {
        forall|r: int, c: int|
            0 <= r < 64 && 0 <= c < 128 && (r >= self.size.1 || c >= self.size.0) ==> !self.d[r][c]
    }

    /// A dark screen: 128 by 64 pixels if `big`, else 64 by 32.
    pub fn new(big: bool) -> (display: Display)
        ensures
            display@ == Screen::blank(big),
            display@.wf(),
    {
        let display = Display {
            d: [[false; 128]; 64],
            size: if big { (128, 64) } else { (64, 32) },
            dirty: false,
        };
        assert(display@.pixels =~~= Screen::dark(display@.width, display@.height));
        display
    }

    /// Turns every pixel off and marks the screen as written.
    pub fn clear(&mut self)
        ensures
            final(self)@ == old(self)@.cleared(),
            final(self)@.wf(),
    {
        proof {
            use_type_invariant(&*self);
        }
        self.d = [[false; 128]; 64];
        self.dirty = true;
        assert(self@.pixels =~~= Screen::dark(self@.width, self@.height));
    }

    /// XORs the eight bits of `b`, most significant first, onto row
    /// `y mod height` from column `x mod width` on, wrapping at the right
    /// edge. Returns whether a lit pixel was turned off. The screen is marked
    /// as written either way.
    pub fn write(&mut self, b: u8, x: usize, y: usize) -> (erased: bool)
        ensures
            final(self)@ == old(self)@.blit(seq![b], x as int, y as int),
            erased == old(self)@.hits(seq![b], x as int, y as int),
            final(self)@.wf(),
    {
        proof {
            use_type_invariant(&*self);
        }
        let w = self.size.0;
        let h = self.size.1;
        let row = y % h;
        let left = x % w;
        let ghost before = *self;
        let mut line: [bool; 128] = self.d[row];
        let mut erased = false;
        let mut i: usize = 0;
        while i < 8
            invariant
                i <= 8,
                w == 64 || w == 128,
                row < 64,
                left == x % w,
                forall|c: int|
                    0 <= c < 128 ==> line[c] == (before.d[row as int][c] != (c < w && ring_offset(
                        x as int,
                        c,
                        w as int,
                    ) < i && sprite_bit(b, ring_offset(x as int, c, w as int)))),
                erased <==> exists|k: int|
                    0 <= k < i && sprite_bit(b, k) && before.d[row as int][ring_position(
                        x as int,
                        k,
                        w as int,
                    )],
            decreases 8 - i,
        {
            let col = (left + i) % w;
            let lit = (b & (0x80u8 >> i)) != 0;
            proof {
                assert(lit == sprite_bit(b, i as int));
                lemma_ring_position(w as int, x as int, i as int);
                assert(col == ring_position(x as int, i as int, w as int)) by {
                    reveal(ring_position);
                }
                assert forall|c: int| 0 <= c < w implies ((#[trigger] ring_offset(
                    x as int,
                    c,
                    w as int,
                ) == i) <==> c == col) by {
                    lemma_ring_offset(w as int, x as int, c, i as int);
                }
            }
            if lit {
                if line[col] {
                    erased = true;
                }
                line[col] = !line[col];
            }
            i += 1;
        }
        self.d[row] = line;
        self.dirty = true;
        proof {
            let drawn = before@.blit(seq![b], x as int, y as int);
            assert(row == ring_position(y as int, 0, h as int)) by {
                reveal(ring_position);
            }
            assert forall|r: int, c: int| 0 <= r < h && 0 <= c < w implies self.d[r][c]
                == drawn.pixels[r][c] by {
                lemma_ring_offset(h as int, y as int, r, 0);
                lemma_ring_offset(w as int, x as int, c, 0);
            }
            assert(self@.pixels =~~= drawn.pixels);
            if erased {
                let k = choose|k: int|
                    0 <= k < 8 && sprite_bit(b, k) && before.d[row as int][ring_position(
                        x as int,
                        k,
                        w as int,
                    )];
                let c = ring_position(x as int, k, w as int);
                lemma_ring_position(w as int, x as int, k);
                lemma_ring_offset(h as int, y as int, row as int, 0);
                assert(sprite_covers(seq![b], x as int, y as int, w as int, h as int, c, row as int));
            }
            if before@.hits(seq![b], x as int, y as int) {
                let (c, r) = choose|c: int, r: int|
                    0 <= c < w && 0 <= r < h && before@.pixels[r][c] && sprite_covers(
                        seq![b],
                        x as int,
                        y as int,
                        w as int,
                        h as int,
                        c,
                        r,
                    );
                let k = ring_offset(x as int, c, w as int);
                lemma_ring_offset(w as int, x as int, c, k);
                lemma_ring_offset(h as int, y as int, r, 0);
                lemma_ring_position(w as int, x as int, k);
            }
        }
        erased
    }

    /// Hands out the whole backing array and lowers the dirty flag. Row `r`,
    /// column `c` of the array is the pixel `(c, r)`; what lies outside the
    /// grid is off.
    pub fn read(&mut self) -> (grid: &[[bool; 128]; 64])
        ensures
            final(self)@ == old(self)@.consumed(),
            final(self)@.wf(),
            forall|r: int, c: int|
                0 <= r < 64 && 0 <= c < 128 ==> #[trigger] grid[r][c] == (r < old(self)@.height && c
                    < old(self)@.width && old(self)@.pixels[r][c]),
    {
        proof {
            use_type_invariant(&*self);
        }
        self.dirty = false;
        &self.d
    }

    /// The width and the height of the grid, in pixels.
    pub fn size(&self) -> (size: (usize, usize))
        ensures
            size.0 == self@.width,
            size.1 == self@.height,
            self@.wf(),
    {
        proof {
            use_type_invariant(self);
        }
        self.size
    }

    /// Whether the screen has been written since it was last read.
    pub fn dirty(&self) -> (dirty: bool)
        ensures
            dirty == self@.dirty,
    {
        self.dirty
    }
}

} // verus!
