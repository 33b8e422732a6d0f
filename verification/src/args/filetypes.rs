//! The kinds of output.

use crate::text::{lowercase, text_is, to_lowercase};
use vstd::prelude::*;

verus! {

/// The kind of artifact to produce: a vector document or a raster image.
#[derive(Debug, Clone, Copy, PartialEq, Eq, Structural)]
pub enum Filetype {
    SVG,
    PNG,
}

/// The file type that a lower-case name stands for.
pub open spec fn filetype_named(lower: Seq<char>) -> Option<Filetype> {
    if lower == "svg"@ {
        Some(Filetype::SVG)
    } else if lower == "png"@ {
        Some(Filetype::PNG)
    } else {
        None
    }
}

/// The message for a name that stands for no file type.
pub open spec fn invalid_filetype_message() -> Seq<char> {
    "Invalid Filetype. Choose from 'svg', 'png'."@
}

/// What parsing a file type name yields, given the lower-case form of the
/// name.
pub open spec fn parsed_filetype(lower: Seq<char>, res: Result<Filetype, &'static str>) -> bool {
    match filetype_named(lower) {
        Some(t) => res == Ok::<Filetype, &'static str>(t),
        None => res is Err && res->Err_0@ == invalid_filetype_message(),
    }
}

impl Filetype {
    /// Reads a file type from a name that is already in lower case.
    pub fn from_lowercase(lower: &String) -> (res: Result<Filetype, &'static str>)
        ensures
            parsed_filetype(lower@, res),
    {
        if text_is(lower, "svg") {
            Ok(Filetype::SVG)
        } else if text_is(lower, "png") {
            Ok(Filetype::PNG)
        } else {
            Err("Invalid Filetype. Choose from 'svg', 'png'.")
        }
    }

    /// Reads a file type from its name, whatever the case of its letters.
    pub fn from_str(s: &str) -> (res: Result<Filetype, &'static str>)
        ensures
            parsed_filetype(lowercase(s@), res),
    {
        let lower = to_lowercase(s);
        Filetype::from_lowercase(&lower)
    }

    /// The name of the file type, in lower case.
    pub open spec fn name_spec(self) -> Seq<char> {
        match self {
            Filetype::SVG => "svg"@,
            Filetype::PNG => "png"@,
        }
    }

    /// The canonical extension of files of this type.
    pub fn extension(&self) -> (ext: &'static str)
        ensures
            ext@ == self.name_spec(),
    {
        match self {
            Filetype::SVG => "svg",
            Filetype::PNG => "png",
        }
    }

    /// The name of the file type, as text.
    pub fn to_string(&self) -> (name: String)
        ensures
            name@ == self.name_spec(),
    {
        self.extension().to_owned()
    }

    /// Whether the font has to be embedded in the composed document: always
    /// for a raster image, whose renderer must not depend on installed fonts,
    /// and for a vector document when the caller asks for it.
    pub fn embeds_font(&self, bake_font: bool) -> (embed: bool)
        ensures
            embed == (*self == Filetype::PNG || bake_font),
    {
        match self {
            Filetype::SVG => bake_font,
            Filetype::PNG => true,
        }
    }
}

} // verus!
