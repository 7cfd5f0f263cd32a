//! The LED roulette: one LED runs clockwise around the border of the 5×5
//! LED matrix, starting at the top-left corner. Each frame switches off the
//! LED lit by the frame before and switches on the next one on the ring.

use vstd::prelude::*;

verus! {

/// An image on the 5×5 LED matrix, by row and then column; 1 lights an LED,
/// 0 leaves it dark.
pub type Image = [[u8; 5]; 5];

/// How many LEDs the ring of the roulette has.
pub const RING_LEN: usize = 16;

/// The `i`-th LED (row, column) of the ring, for `0 <= i < 16`: along the
/// top row to the right, down the right column, back along the bottom row,
/// up the left column.
pub open spec fn ring_at(i: int) -> (int, int) {
    if i < 5 {
        (0, i)
    } else if i < 9 {
        (i - 4, 4)
    } else if i < 13 {
        (4, 12 - i)
    } else {
        (16 - i, 0)
    }
}

/// The ring of the roulette, as a table of (row, column) pairs.
pub fn ring() -> (coords: [(u8, u8); 16])
    ensures
        forall|i: int|
            0 <= i < 16 ==> coords@[i].0 == ring_at(i).0 && coords@[i].1 == ring_at(i).1,
{
    let coords: [(u8, u8); 16] = [
        (0, 0),
        (0, 1),
        (0, 2),
        (0, 3),
        (0, 4),
        (1, 4),
        (2, 4),
        (3, 4),
        (4, 4),
        (4, 3),
        (4, 2),
        (4, 1),
        (4, 0),
        (3, 0),
        (2, 0),
        (1, 0),
    ];
    coords
}

/// `image` lights the LED at (`row`, `col`) and no other.
pub open spec fn lights_only(image: Image, row: int, col: int) -> bool {
    forall|r: int, c: int|
        0 <= r < 5 && 0 <= c < 5 ==> #[trigger] image[r][c] == (if r == row && c == col {
            1u8
        } else {
            0u8
        })
}

/// `image` lights no LED.
pub open spec fn all_dark(image: Image) -> bool {
    forall|r: int, c: int| 0 <= r < 5 && 0 <= c < 5 ==> #[trigger] image[r][c] == 0u8
}

/// (`row`, `col`) is an LED on the border of the matrix.
pub open spec fn on_border(row: int, col: int) -> bool {
    &&& 0 <= row < 5
    &&& 0 <= col < 5
    &&& (row == 0 || row == 4 || col == 0 || col == 4)
}

/// Every LED of the ring lies on the border of the matrix.
pub proof fn lemma_ring_on_border(i: int)
    requires
        0 <= i < 16,
    ensures
        on_border(ring_at(i).0, ring_at(i).1),
{
}

/// No LED occurs twice on the ring.
pub proof fn lemma_ring_distinct(i: int, j: int)
    requires
        0 <= i < 16,
        0 <= j < 16,
        i != j,
    ensures
        ring_at(i) != ring_at(j),
{
}

/// Every LED of the border occurs on the ring.
pub proof fn lemma_ring_covers_border(row: int, col: int)
    requires
        on_border(row, col),
    ensures
        exists|i: int| 0 <= i < 16 && #[trigger] ring_at(i) == (row, col),
{
    let i = if row == 0 {
        col
    } else if col == 4 {
        row + 4
    } else if row == 4 {
        12 - col
    } else {
        16 - row
    };
    assert(ring_at(i) == (row, col));
}

/// Two LEDs that follow each other on the ring, the last and the first
/// included, are neighbours in the matrix: they share a row and stand in
/// adjacent columns, or share a column and stand in adjacent rows.
pub proof fn lemma_ring_steps_to_neighbour(i: int)
    requires
        0 <= i < 16,
    ensures
        ({
            let (r1, c1) = ring_at(i);
            let (r2, c2) = ring_at((i + 1) % 16);
            (r1 == r2 && (c2 - c1 == 1 || c1 - c2 == 1)) || (c1 == c2 && (r2 - r1 == 1 || r1
                - r2 == 1))
        }),
{
}

/// The ring position lit by the next frame after `n` frames from
/// position `p`.
pub open spec fn position_after(p: nat, n: nat) -> nat
    decreases n,
{
    if n == 0 {
        p
    } else {
        (position_after(p, (n - 1) as nat) + 1) % 16
    }
}

/// The roulette goes round the ring: `n` frames after position `p` it is
/// at position `(p + n) % 16`.
pub proof fn lemma_position_after(p: nat, n: nat)
    requires
        p < 16,
    ensures
        position_after(p, n) == (p + n) % 16,
    decreases n,
{
    if n > 0 {
        lemma_position_after(p, (n - 1) as nat);
    }
}

/// Every 16 frames the roulette is back where it was.
pub proof fn lemma_ring_period(p: nat)
    requires
        p < 16,
    ensures
        position_after(p, 16) == p,
{
    lemma_position_after(p, 16);
}

/// `image` with the LED at (`row`, `col`) set to `value`.
fn set_led(image: Image, row: u8, col: u8, value: u8) -> (out: Image)
    requires
        row < 5,
        col < 5,
    ensures
        forall|r: int, c: int|
            0 <= r < 5 && 0 <= c < 5 ==> #[trigger] out[r][c] == (if r == row && c == col {
                value
            } else {
                image[r][c]
            }),
{
    let mut out = image;
    let mut line = out[row as usize];
    line[col as usize] = value;
    out[row as usize] = line;
    out
}

/// The state of the roulette: the image last shown, the ring position lit
/// next (`cur`) and the one lit last (`prev`), both counted past the end of
/// the ring until the next frame wraps them.
pub struct Roulette {
    matrix: Image,
    cur: usize,
    prev: usize,
}

impl Roulette {
    #[verifier::type_invariant]
    spec fn well_formed(self) -> bool {
        &&& self.cur <= RING_LEN
        &&& self.prev <= RING_LEN
        &&& (self.prev + 1) % 16 == self.cur % 16
        &&& (lights_only(
            self.matrix,
            ring_at((self.prev % 16) as int).0,
            ring_at((self.prev % 16) as int).1,
        ) || all_dark(self.matrix))
    }
}

impl View for Roulette {
    type V = nat;

    /// The ring position that the next frame lights.
    closed spec fn view(&self) -> nat {
        (self.cur % 16) as nat
    }
}

impl Roulette {
    /// The roulette at start: all LEDs dark, the next frame lights the
    /// first LED of the ring.
    pub fn new() -> (r: Self)
        ensures
            r@ == 0,
    {
        let matrix: Image = [[0, 0, 0, 0, 0], [0, 0, 0, 0, 0], [0, 0, 0, 0, 0], [0, 0, 0, 0, 0], [
            0,
            0,
            0,
            0,
            0,
        ]];
        Roulette { matrix, cur: 0, prev: RING_LEN - 1 }
    }

    /// The next frame to show: it lights the LED at the current ring
    /// position and no other; the position then moves one step on.
    pub fn next_frame(&mut self) -> (frame: Image)
        ensures
            old(self)@ < 16,
            lights_only(frame, ring_at(old(self)@ as int).0, ring_at(old(self)@ as int).1),
            final(self)@ == (old(self)@ + 1) % 16,
    {
        proof {
            use_type_invariant(&*self);
        }
        let coords = ring();
        let cur = self.cur % RING_LEN;
        let prev = self.prev % RING_LEN;
        let (prev_row, prev_col) = coords[prev];
        let (cur_row, cur_col) = coords[cur];
        assert(cur_row == ring_at(cur as int).0 && cur_col == ring_at(cur as int).1);
        let dark = set_led(self.matrix, prev_row, prev_col, 0);
        assert(all_dark(dark));
        let matrix = set_led(dark, cur_row, cur_col, 1);
        *self = Roulette { matrix, cur: cur + 1, prev: prev + 1 };
        matrix
    }
}

} // verus!
