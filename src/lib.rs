pub mod geometry;
pub mod note;
pub mod octave;
