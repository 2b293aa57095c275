use vstd::prelude::*;

verus! {

/// A position in image coordinates: `x` grows to the right, `y` downwards.
#[derive(Clone, Copy, Debug, PartialEq, Eq, Structural)]
pub struct Point {
    pub x: i32,
    pub y: i32,
}

impl Point {
    pub fn new(x: i32, y: i32) -> (p: Point)
        ensures
            p.x == x,
            p.y == y,
    {
        Point { x, y }
    }
}

/// A three-channel pixel. The channel order is whatever the image source
/// uses; the library only ever compares channels of the same index.
#[derive(Clone, Copy, Debug, PartialEq, Eq)]
pub struct Color {
    pub channels: [u8; 3],
}

/// Two pixels count as the same color when their distance is below this.
pub const MATCH_THRESHOLD: u32 = 100;

/// Absolute difference of one channel.
pub open spec fn channel_diff(a: u8, b: u8) -> int {
    if a >= b {
        a - b
    } else {
        b - a
    }
}

/// Sum of the channel differences over the first `k` channels.
pub open spec fn partial_distance(a: Color, b: Color, k: nat) -> int
    decreases k,
{
    if k == 0 {
        0
    } else {
        partial_distance(a, b, (k - 1) as nat) + channel_diff(
            a.channels@[k - 1],
            b.channels@[k - 1],
        )
    }
}

/// L1 distance between two colors: the sum of the absolute per-channel differences.
pub open spec fn distance(a: Color, b: Color) -> int {
    channel_diff(a.channels@[0], b.channels@[0]) + channel_diff(a.channels@[1], b.channels@[1])
        + channel_diff(a.channels@[2], b.channels@[2])
}

impl Color {
    pub fn new(c0: u8, c1: u8, c2: u8) -> (c: Color)
        ensures
            c.channels@ == seq![c0, c1, c2],
    {
        let c = Color { channels: [c0, c1, c2] };
        assert(c.channels@ =~= seq![c0, c1, c2]);
        c
    }

    /// The L1 distance between `self` and `other`.
    pub fn distance_to(&self, other: &Color) -> (d: u32)
        ensures
            d == distance(*self, *other),
    {
        let mut d: u32 = 0;
        let mut i: usize = 0;
        while i < 3
            invariant
                i <= 3,
                d == partial_distance(*self, *other, i as nat),
                d <= 255 * i,
            decreases 3 - i,
        {
            let a = self.channels[i];
            let b = other.channels[i];
            let diff: u8 = if a >= b {
                a - b
            } else {
                b - a
            };
            d = d + diff as u32;
            i = i + 1;
        }
        assert(partial_distance(*self, *other, 3) == distance(*self, *other)) by {
            reveal_with_fuel(partial_distance, 4);
        }
        d
    }

    /// Whether `other` is close enough to `self` to count as the same color:
    /// the distance must be strictly below the threshold.
    pub fn matches(&self, other: &Color) -> (r: bool)
        ensures
            r == (distance(*self, *other) < MATCH_THRESHOLD),
    {
        self.distance_to(other) < MATCH_THRESHOLD
    }
}

/// A row-major grid of pixels.
pub struct Image {
    pub width: usize,
    pub height: usize,
    pub pixels: Vec<Color>,
}

impl Image {
    /// The pixel count matches the dimensions, and every coordinate fits in an `i32`.
    pub open spec fn wf(&self) -> bool {
        &&& self.pixels@.len() == self.width * self.height
        &&& self.width <= i32::MAX
        &&& self.height <= i32::MAX
    }

    /// The pixel at `row`, `col`.
    pub open spec fn at(&self, row: int, col: int) -> Color {
        self.pixels@[row * self.width + col]
    }

    /// Builds an image from its pixels in row-major order. Fails when the
    /// number of pixels is not `width * height` or a dimension exceeds `i32::MAX`.
    pub fn new(width: usize, height: usize, pixels: Vec<Color>) -> (r: Option<Image>)
        ensures
            r is Some <==> (pixels@.len() == width * height && width <= i32::MAX && height
                <= i32::MAX),
            r matches Some(img) ==> img.width == width && img.height == height && img.pixels@
                == pixels@ && img.wf(),
    {
        if width > i32::MAX as usize || height > i32::MAX as usize {
            return None;
        }
        assert(width * height <= i32::MAX * i32::MAX) by (nonlinear_arith)
            requires
                width <= i32::MAX,
                height <= i32::MAX,
        ;
        if pixels.len() as u64 != width as u64 * height as u64 {
            return None;
        }
        Some(Image { width, height, pixels })
    }

    /// Reads the pixel at `row`, `col`.
    pub fn pixel(&self, row: usize, col: usize) -> (c: Color)
        requires
            self.wf(),
            row < self.height,
            col < self.width,
        ensures
            c == self.at(row as int, col as int),
    {
        let len = self.pixels.len();
        proof {
            lemma_index_in_grid(row as int, col as int, self.width as int, self.height as int);
        }
        self.pixels[row * self.width + col]
    }
}

proof fn lemma_index_in_grid(row: int, col: int, width: int, height: int)
    requires
        0 <= row < height,
        0 <= col < width,
    ensures
        0 <= row * width <= row * width + col < width * height,
{
    assert(0 <= row * width <= row * width + col < width * height) by (nonlinear_arith)
        requires
            0 <= row < height,
            0 <= col < width,
    ;
}

} // verus!
