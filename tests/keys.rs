use piano_keys::geometry::{Color, Image, Point, MATCH_THRESHOLD};
use piano_keys::note::{is_accidental, AlreadyInStateError, Note};
use piano_keys::octave::{BuildError, Octave, NOTE_OFFSET};

fn solid(width: usize, height: usize, c: Color) -> Image {
    Image::new(width, height, vec![c; width * height]).unwrap()
}

fn released_note(code: u8) -> Note {
    Note::new(code, Point::new(0, 0), Color::new(0, 0, 0), false)
}

#[test]
fn accidental_semitones() {
    let sharps = [1usize, 3, 6, 8, 10];
    for n in 0usize..12 {
        assert_eq!(is_accidental(n), sharps.contains(&n), "semitone {}", n);
    }
    assert!(!is_accidental(12));
    assert!(!is_accidental(13));
}

#[test]
fn set_pressed_is_edge_triggered() {
    let mut note = released_note(60);
    assert!(!note.is_pressed());
    assert_eq!(note.set_pressed(false), Err(AlreadyInStateError { state: false }));
    assert_eq!(note.set_pressed(true), Ok(true));
    assert!(note.is_pressed());
    assert_eq!(note.set_pressed(true), Err(AlreadyInStateError { state: true }));
    assert_eq!(note.set_pressed(false), Ok(false));
    assert!(!note.is_pressed());
}

#[test]
fn redundant_requests_keep_state() {
    let mut note = released_note(60);
    for _ in 0..5 {
        assert!(note.set_pressed(false).is_err());
        assert!(!note.is_pressed());
    }
    assert_eq!(note.set_pressed(true), Ok(true));
    for _ in 0..5 {
        assert_eq!(note.set_pressed(true), Err(AlreadyInStateError { state: true }));
        assert!(note.is_pressed());
    }
    assert_eq!(note.set_pressed(false), Ok(false));
}

#[test]
fn set_pressed_keeps_other_fields() {
    let mut note = Note::new(61, Point::new(3, 4), Color::new(9, 8, 7), true);
    note.set_pressed(true).unwrap();
    assert_eq!(note.code, 61);
    assert_eq!(note.location, Point::new(3, 4));
    assert_eq!(note.default_color, Color::new(9, 8, 7));
    assert!(note.is_accidental);
}

#[test]
fn display_names() {
    assert_eq!(released_note(0).to_string(), "C  -1");
    assert_eq!(released_note(21).to_string(), "A  0");
    assert_eq!(released_note(11).to_string(), "B  -1");
    assert_eq!(released_note(13).to_string(), "C# 0");
    assert_eq!(released_note(60).to_string(), "C  4");
    assert_eq!(released_note(130).to_string(), "A# 9");
    assert_eq!(released_note(142).to_string(), "A# 10");
    assert_eq!(released_note(255).to_string(), "D# 20");
}

#[test]
fn color_distance_is_l1() {
    let a = Color::new(10, 200, 30);
    let b = Color::new(20, 100, 30);
    assert_eq!(a.distance_to(&b), 110);
    assert_eq!(b.distance_to(&a), 110);
    assert_eq!(Color::new(0, 0, 0).distance_to(&Color::new(255, 255, 255)), 765);
    assert_eq!(a.distance_to(&a), 0);
}

#[test]
fn match_threshold_is_strict() {
    assert_eq!(MATCH_THRESHOLD, 100);
    let base = Color::new(50, 50, 50);
    assert!(!base.matches(&Color::new(90, 20, 80)));
    assert!(base.matches(&Color::new(90, 20, 79)));
    assert!(!base.matches(&Color::new(150, 50, 50)));
    assert!(base.matches(&Color::new(149, 50, 50)));
}

#[test]
fn image_construction() {
    assert!(Image::new(2, 3, vec![Color::new(0, 0, 0); 6]).is_some());
    assert!(Image::new(2, 3, vec![Color::new(0, 0, 0); 5]).is_none());
    assert!(Image::new(0, 0, Vec::new()).is_some());
    let img = Image::new(
        2,
        2,
        vec![Color::new(1, 0, 0), Color::new(2, 0, 0), Color::new(3, 0, 0), Color::new(4, 0, 0)],
    )
    .unwrap();
    assert_eq!(img.pixel(1, 0), Color::new(3, 0, 0));
    assert_eq!(img.pixel(0, 1), Color::new(2, 0, 0));
}

#[test]
fn single_matching_pixel_scenario() {
    let black = Color::new(0, 0, 0);
    let white = Color::new(255, 255, 255);
    let template = solid(120, 1, black);
    let mut pixels = vec![white; 200 * 150];
    let anchor = Point::new(7, 100);
    pixels[100 * 200 + 7 + 55] = black;
    let image = Image::new(200, 150, pixels).unwrap();
    let octave = Octave::new(anchor, &image, &template).unwrap();
    let key = &octave.notes[5];
    assert_eq!(key.location, Point::new(7 + 55, 100 + NOTE_OFFSET));
    assert_eq!(key.default_color, black);
    assert_eq!(octave.notes[4].location.x, 7 + 45);
    assert_eq!(octave.notes[4].default_color, white);
}

#[test]
fn no_match_uses_nominal_midpoints() {
    let width: usize = 100;
    let template = solid(width, 2, Color::new(0, 0, 0));
    let mut pixels = Vec::new();
    for row in 0..40usize {
        for col in 0..130usize {
            pixels.push(Color::new(255, (col % 256) as u8, (row % 256) as u8));
        }
    }
    let image = Image::new(130, 40, pixels).unwrap();
    let anchor = Point::new(20, 10);
    let octave = Octave::new(anchor, &image, &template).unwrap();
    assert_eq!(octave.notes.len(), 12);
    let expected = [4, 12, 20, 29, 37, 45, 54, 62, 70, 79, 87, 95];
    for n in 0..12usize {
        let key = &octave.notes[n];
        let center = (n * width / 12 + (n + 1) * width / 12) / 2;
        assert_eq!(center, expected[n]);
        assert_eq!(key.code as usize, n);
        assert_eq!(key.location.x, 20 + center as i32);
        let sharp = [1, 3, 6, 8, 10].contains(&n);
        assert_eq!(key.is_accidental, sharp);
        assert_eq!(key.location.y, if sharp { 10 - 50 } else { 10 + 50 });
        assert_eq!(key.default_color, Color::new(255, (20 + center) as u8, 10));
        assert!(!key.is_pressed());
    }
}

#[test]
fn all_matching_also_uses_nominal_midpoints() {
    let gray = Color::new(128, 128, 128);
    let template = solid(24, 1, gray);
    let image = solid(24, 1, gray);
    let octave = Octave::new(Point::new(0, 0), &image, &template).unwrap();
    for n in 0..12usize {
        assert_eq!(octave.notes[n].location.x, (2 * n + 2 * n + 2) as i32 / 2);
    }
}

#[test]
fn region_outside_image_is_rejected() {
    let c = Color::new(1, 2, 3);
    let template = solid(24, 2, c);
    let image = solid(30, 5, c);
    assert!(Octave::new(Point::new(6, 3), &image, &template).is_ok());
    assert_eq!(Octave::new(Point::new(7, 3), &image, &template).err(), Some(BuildError::OutOfBounds));
    assert_eq!(Octave::new(Point::new(6, 4), &image, &template).err(), Some(BuildError::OutOfBounds));
    assert_eq!(Octave::new(Point::new(-1, 0), &image, &template).err(), Some(BuildError::OutOfBounds));
    assert_eq!(Octave::new(Point::new(0, -1), &image, &template).err(), Some(BuildError::OutOfBounds));
    let empty = solid(0, 1, c);
    assert_eq!(Octave::new(Point::new(0, 0), &image, &empty).err(), Some(BuildError::OutOfBounds));
    let flat = solid(24, 0, c);
    assert_eq!(Octave::new(Point::new(0, 0), &image, &flat).err(), Some(BuildError::OutOfBounds));
}
