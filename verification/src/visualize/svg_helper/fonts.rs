//! Fonts: the embedded set, and the style resource that carries a font
//! inside the document.

use vstd::prelude::*;

verus! {

/// The fonts that ship with the program, each under its family name.
#[derive(Debug, Clone, Copy, PartialEq, Eq, Structural)]
pub enum EmbeddedFont {
    Arial,
    FiraCode,
    Menlo,
    UbuntuMono,
    Consolas,
    CourierNew,
}

/// The embedded font of a family, by the exact family name.
pub open spec fn embedded_named(family: Seq<char>) -> Option<EmbeddedFont> {
    if family == "Arial"@ {
        Some(EmbeddedFont::Arial)
    } else if family == "Fira Code"@ {
        Some(EmbeddedFont::FiraCode)
    } else if family == "Menlo"@ {
        Some(EmbeddedFont::Menlo)
    } else if family == "Ubuntu Mono"@ {
        Some(EmbeddedFont::UbuntuMono)
    } else if family == "Consolas"@ {
        Some(EmbeddedFont::Consolas)
    } else if family == "Courier New"@ {
        Some(EmbeddedFont::CourierNew)
    } else {
        None
    }
}

impl EmbeddedFont {
    /// The embedded font of a family, if the family is in the embedded set.
    /// The name has to match letter for letter.
    pub fn from_family(family: &str) -> (found: Option<EmbeddedFont>)
        ensures
            found == embedded_named(family@),
    {
        let name = family.to_owned();
        if crate::text::text_is(&name, "Arial") {
            Some(EmbeddedFont::Arial)
        } else if crate::text::text_is(&name, "Fira Code") {
            Some(EmbeddedFont::FiraCode)
        } else if crate::text::text_is(&name, "Menlo") {
            Some(EmbeddedFont::Menlo)
        } else if crate::text::text_is(&name, "Ubuntu Mono") {
            Some(EmbeddedFont::UbuntuMono)
        } else if crate::text::text_is(&name, "Consolas") {
            Some(EmbeddedFont::Consolas)
        } else if crate::text::text_is(&name, "Courier New") {
            Some(EmbeddedFont::CourierNew)
        } else {
            None
        }
    }

    /// The name of the file that holds the outlines of this font.
    pub open spec fn file_name_spec(self) -> Seq<char> {
        match self {
            EmbeddedFont::Arial => "ARIAL.TTF"@,
            EmbeddedFont::FiraCode => "FiraCode-VariableFont_wght.ttf"@,
            EmbeddedFont::Menlo => "Menlo-Regular.ttf"@,
            EmbeddedFont::UbuntuMono => "UbuntuMono-Regular.ttf"@,
            EmbeddedFont::Consolas => "consolas.ttf"@,
            EmbeddedFont::CourierNew => "cour.ttf"@,
        }
    }

    /// The name of the file that holds the outlines of this font.
    pub fn file_name(&self) -> (name: &'static str)
        ensures
            name@ == self.file_name_spec(),
    {
        match self {
            EmbeddedFont::Arial => "ARIAL.TTF",
            EmbeddedFont::FiraCode => "FiraCode-VariableFont_wght.ttf",
            EmbeddedFont::Menlo => "Menlo-Regular.ttf",
            EmbeddedFont::UbuntuMono => "UbuntuMono-Regular.ttf",
            EmbeddedFont::Consolas => "consolas.ttf",
            EmbeddedFont::CourierNew => "cour.ttf",
        }
    }
}

/// Why no font metrics could be had.
#[derive(Debug, PartialEq, Eq)]
pub enum FontError {
    /// Neither the embedded set nor the system has a font of this family.
    NotFound(String),
    /// The font of this family holds no usable outline data.
    Invalid(String),
}

impl FontError {
    /// The message for this error.
    pub open spec fn message_spec(self) -> Seq<char> {
        match self {
            FontError::NotFound(family) => "Failed to load system font '"@ + family@ + "'"@,
            FontError::Invalid(family) => "Invalid font data for '"@ + family@ + "'"@,
        }
    }

    /// The message for this error, as text.
    pub fn to_string(&self) -> (message: String)
        ensures
            message@ == self.message_spec(),
    {
        match self {
            FontError::NotFound(family) => "Failed to load system font '".to_owned().concat(
                family.as_str(),
            ).concat("'"),
            FontError::Invalid(family) => "Invalid font data for '".to_owned().concat(
                family.as_str(),
            ).concat("'"),
        }
    }
}

/// The width of a text from the two extents that a font gives for it: the
/// larger of the two, so that ink which reaches past the pen advance is not
/// clipped.
pub open spec fn text_width(pen_advance: u32, ink_right_edge: u32) -> u32 {
    if pen_advance >= ink_right_edge {
        pen_advance
    } else {
        ink_right_edge
    }
}

/// The width of a text whose glyphs advance the pen by `pen_advance` in
/// all and whose ink reaches `ink_right_edge` at the far right.
pub fn measure_text_width(pen_advance: u32, ink_right_edge: u32) -> (width: u32)
    ensures
        width == text_width(pen_advance, ink_right_edge),
{
    if pen_advance >= ink_right_edge {
        pen_advance
    } else {
        ink_right_edge
    }
}

/// The standard base64 encoding of a sequence of bytes, with padding.
pub uninterp spec fn base64_standard(bytes: Seq<u8>) -> Seq<char>;

/// The length of the base64 encoding of `len` bytes, with padding.
pub open spec fn base64_len(len: int) -> int {
    (len / 3) * 4 + if len % 3 > 0 {
        4int
    } else {
        0int
    }
}

/// Calls `encode` of base64's `STANDARD` engine.
///
/// The contract gives the encoding a name and says no more of it. The call
/// panics when the length of the encoding does not fit the machine; the
/// precondition leaves those inputs out.
#[verifier::external_body]
fn encode_base64(bytes: &[u8]) -> (encoded: String)
    requires
        base64_len(bytes@.len() as int) <= isize::MAX,
    ensures
        encoded@ == base64_standard(bytes@),
{
    base64::Engine::encode(&base64::engine::general_purpose::STANDARD, bytes)
}

/// The style resource that declares a font face of the given family from
/// outline data in base64.
pub open spec fn font_face_style(family: Seq<char>, encoded: Seq<char>) -> Seq<char> {
    "<style>@font-face {\n            font-family: '"@ + family
        + "';\n            src: url('data:font/ttf;base64,"@ + encoded
        + "') format('truetype');\n        }</style>"@
}

/// Writes the style resource that declares a font face of the given family
/// from outline data that is already encoded.
pub fn font_face(font_family: &str, encoded: &str) -> (style: String)
    ensures
        style@ == font_face_style(font_family@, encoded@),
{
    "<style>@font-face {\n            font-family: '".to_owned().concat(font_family).concat(
        "';\n            src: url('data:font/ttf;base64,",
    ).concat(encoded).concat("') format('truetype');\n        }</style>")
}

/// Whether the outline data of a font is short enough to be embedded.
pub fn can_embed(font_bytes: &[u8]) -> (fits: bool)
    ensures
        fits == (base64_len(font_bytes@.len() as int) <= isize::MAX),
{
    let chunks = font_bytes.len() / 3;
    if font_bytes.len() % 3 > 0 {
        chunks <= (isize::MAX as usize - 4) / 4
    } else {
        chunks <= isize::MAX as usize / 4
    }
}

/// Writes the style resource that carries a font inside the document: a
/// font face of the given family whose source is the outline data itself,
/// in base64.
pub fn build_b64_font_embed(font_bytes: &[u8], font_family: &str) -> (style: String)
    requires
        base64_len(font_bytes@.len() as int) <= isize::MAX,
    ensures
        style@ == font_face_style(font_family@, base64_standard(font_bytes@)),
{
    let encoded = encode_base64(font_bytes);
    font_face(font_family, encoded.as_str())
}

} // verus!
