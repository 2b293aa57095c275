use vstd::prelude::*;

use crate::geometry::{Color, Image, Point};
use crate::note::{is_accidental, is_accidental_semitone, Note};

verus! {

/// Number of keys in an octave.
pub const KEYS_PER_OCTAVE: usize = 12;

/// How far above (sharp keys) or below (natural keys) the octave's anchor
/// row each key is sampled.
pub const NOTE_OFFSET: i32 = 50;

/// Why an octave could not be located.
#[derive(Clone, Copy, Debug, PartialEq, Eq, Structural)]
pub enum BuildError {
    /// The template is empty, the template-sized region at the anchor does
    /// not lie inside the image, or a key's sampling point would not fit in
    /// `i32` coordinates.
    OutOfBounds,
}

/// The twelve keys of one octave, in chromatic order from C.
pub struct Octave {
    pub notes: Vec<Note>,
}

/// Left end of the nominal pixel range of key `n` in a template `width` wide.
pub open spec fn nominal_min(width: int, n: int) -> int {
    n * width / 12
}

/// Right end (exclusive) of the nominal pixel range of key `n`.
pub open spec fn nominal_max(width: int, n: int) -> int {
    (n + 1) * width / 12
}

/// Column, relative to the anchor, where key `n` is sampled.
pub open spec fn key_center(width: int, n: int) -> int {
    (nominal_min(width, n) + nominal_max(width, n)) / 2
}

/// Vertical offset of key `n` from the anchor row.
pub open spec fn key_offset(n: int) -> int {
    if is_accidental_semitone(n) {
        -NOTE_OFFSET
    } else {
        NOTE_OFFSET as int
    }
}

/// The template-sized region at `anchor` lies inside `image`, the template
/// is not empty, and every sampling point fits in `i32` coordinates.
pub open spec fn region_fits(anchor: Point, image: &Image, template: &Image) -> bool {
    &&& template.width > 0
    &&& template.height > 0
    &&& anchor.x >= 0
    &&& anchor.y >= 0
    &&& anchor.x + template.width <= image.width
    &&& anchor.y + template.height <= image.height
    &&& anchor.y + NOTE_OFFSET <= i32::MAX
}

/// The key that the builder derives for semitone `n`.
pub open spec fn calibrated_note(note: Note, n: int, anchor: Point, image: &Image, template: &Image) -> bool {
    let center = key_center(template.width as int, n);
    &&& note.code == n
    &&& note.location.x == anchor.x + center
    &&& note.location.y == anchor.y + key_offset(n)
    &&& note.default_color == image.at(anchor.y as int, anchor.x + center)
    &&& note.is_accidental == is_accidental_semitone(n)
    &&& !note.pressed_state()
}

/// For a non-empty template, each key's nominal range is ordered and its
/// center lies inside the template.
proof fn lemma_key_range(width: int, n: int)
    requires
        width > 0,
        0 <= n < 12,
    ensures
        0 <= nominal_min(width, n) <= nominal_max(width, n) <= width,
        0 <= key_center(width, n) < width,
{
    let a = n * width;
    let b = (n + 1) * width;
    assert(0 <= a <= b <= 12 * width && a <= 11 * width) by (nonlinear_arith)
        requires
            width > 0,
            0 <= n < 12,
            a == n * width,
            b == (n + 1) * width,
    ;
    vstd::arithmetic::div_mod::lemma_div_is_ordered(a, b, 12);
    vstd::arithmetic::div_mod::lemma_div_is_ordered(b, 12 * width, 12);
    vstd::arithmetic::div_mod::lemma_div_is_ordered(0, a, 12);
    vstd::arithmetic::div_mod::lemma_div_is_ordered(a, 11 * width, 12);
    assert(12 * width / 12 == width) by (nonlinear_arith)
        requires
            width > 0,
    ;
    assert(11 * width / 12 < width) by (nonlinear_arith)
        requires
            width > 0,
    ;
}

impl Octave {
    /// Every key of the octave is in place.
    pub open spec fn wf(&self) -> bool {
        self.notes@.len() == KEYS_PER_OCTAVE
    }

    /// Locates the twelve keys of the octave whose top-left corner is at
    /// `octave_location` in `image`, by comparing the row at the anchor with
    /// the first row of `template`, which spans exactly one octave.
    ///
    /// Each key `n` owns the columns `n * w / 12 .. (n + 1) * w / 12` of the
    /// template (`w` its width). The key is sampled in the middle of that
    /// range, 50 pixels above the anchor row for a sharp key and 50 below for
    /// a natural one, and its released color is the image's color at that
    /// column of the anchor row.
    pub fn new(octave_location: Point, image: &Image, template: &Image) -> (r: Result<Octave, BuildError>)
        requires
            image.wf(),
            template.wf(),
        ensures
            r is Ok <==> region_fits(octave_location, image, template),
            r is Err ==> r == Err::<Octave, BuildError>(BuildError::OutOfBounds),
            r matches Ok(octave) ==> octave.wf() && forall|n: int|
                0 <= n < 12 ==> #[trigger] calibrated_note(
                    octave.notes@[n],
                    n,
                    octave_location,
                    image,
                    template,
                ),
    {
        if template.width == 0 || template.height == 0 || octave_location.x < 0
            || octave_location.y < 0 {
            return Err(BuildError::OutOfBounds);
        }
        let left = octave_location.x as usize;
        let top = octave_location.y as usize;
        if left + template.width > image.width || top + template.height > image.height
            || octave_location.y > i32::MAX - NOTE_OFFSET {
            return Err(BuildError::OutOfBounds);
        }
        let width = template.width;
        let mut notes: Vec<Note> = Vec::new();
        let mut note: usize = 0;
        while note < KEYS_PER_OCTAVE
            invariant
                note <= KEYS_PER_OCTAVE,
                image.wf(),
                template.wf(),
                region_fits(octave_location, image, template),
                left == octave_location.x,
                top == octave_location.y,
                width == template.width,
                notes@.len() == note,
                forall|n: int|
                    0 <= n < note ==> #[trigger] calibrated_note(
                        notes@[n],
                        n,
                        octave_location,
                        image,
                        template,
                    ),
            decreases KEYS_PER_OCTAVE - note,
        {
            proof {
                lemma_key_range(width as int, note as int);
                assert(width * (note + 1) <= 12 * i32::MAX) by (nonlinear_arith)
                    requires
                        note < 12,
                        width <= i32::MAX,
                ;
            }
            // The bounds of the key's columns; the products need 64 bits.
            let mut min_x: usize = (width as u64 * note as u64 / 12) as usize;
            let mut max_x: usize = (width as u64 * (note as u64 + 1) / 12) as usize;
            assert(min_x == nominal_min(width as int, note as int)) by {
                assert(width * note == note * width) by (nonlinear_arith);
            }
            assert(max_x == nominal_max(width as int, note as int)) by {
                assert(width * (note + 1) == (note + 1) * width) by (nonlinear_arith);
            }
            let first = min_x;
            let end = max_x;
            // Scan the nominal range, widening the bounds to each column whose
            // color matches the template. The scan never leaves the range it
            // started from, so the widening can never move a bound and the
            // key's center stays the middle of its nominal range.
            let mut x: usize = first;
            while x < end
                invariant
                    first <= x <= end,
                    end <= width,
                    min_x == first,
                    max_x == end,
                    image.wf(),
                    template.wf(),
                    region_fits(octave_location, image, template),
                    left == octave_location.x,
                    top == octave_location.y,
                    width == template.width,
                decreases end - x,
            {
                let octave_pixel = image.pixel(top, left + x);
                let template_pixel = template.pixel(0, x);
                if template_pixel.matches(&octave_pixel) {
                    if x < min_x {
                        min_x = x;
                    }
                    if x > max_x {
                        max_x = x;
                    }
                }
                x = x + 1;
            }
            let avg_x = (min_x + max_x) / 2;
            let accidental = is_accidental(note);
            let y_offset: i32 = if accidental {
                -NOTE_OFFSET
            } else {
                NOTE_OFFSET
            };
            let location = Point { x: octave_location.x + avg_x as i32, y: octave_location.y + y_offset };
            let default_color: Color = image.pixel(top, left + avg_x);
            let key = Note::new(note as u8, location, default_color, accidental);
            notes.push(key);
            note = note + 1;
        }
        Ok(Octave { notes })
    }
}

} // verus!
