//! The notated-music rendering returned for a song.

use crate::models::StaffNotation;
use vstd::prelude::*;
use vstd::string::*;

verus! {

/// Produces the notated-music rendering of a song.
pub struct StaffNotationGenerator;

/// The title of the rendering.
pub open spec fn notation_title() -> Seq<char> {
    "Example Staff Notation"@
}

/// The notes of the rendering: four bars of the C major scale, up and down.
pub open spec fn notation_text() -> Seq<char> {
    "C4 D4 E4 F4 | G4 A4 B4 C5 | C5 B4 A4 G4 | F4 E4 D4 C4"@
}

impl StaffNotationGenerator {
    pub fn new() -> (r: Self) {
        StaffNotationGenerator
    }

    /// The rendering: a fixed title and scale.
    pub fn generate(&self) -> (r: StaffNotation)
        ensures
            r.title@ == notation_title(),
            r.notation@ == notation_text(),
    {
        StaffNotation {
            title: String::from_str("Example Staff Notation"),
            notation: String::from_str("C4 D4 E4 F4 | G4 A4 B4 C5 | C5 B4 A4 G4 | F4 E4 D4 C4"),
        }
    }

    /// The rendering for a song: the same for every song id.
    pub fn generate_for_song(&self, song_id: &str) -> (r: StaffNotation)
        ensures
            r.title@ == notation_title(),
            r.notation@ == notation_text(),
    {
        self.generate()
    }
}

} // verus!
