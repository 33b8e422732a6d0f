//! Writing the composed diagram as SVG markup.

use crate::fs_parser::fs_structs::FsEntryType;
use crate::text::{decimal, decimal_text};
use crate::visualize::svg_helper::layout::{ELBOW_DROP, ELBOW_TAIL, ROW_HEIGHT, ROW_PITCH};
use crate::visualize::svg_helper::markup::{
    document_new, element_attributes, element_children, element_markup, element_name,
    element_new, element_to_string, with_attribute, with_child, with_text, Attributes, Children,
};
use crate::visualize::svg_helper::{
    primitive_views, Document, DocumentView, Primitive, PrimitiveView, ITEM_BG_X_PADDING,
};
use svg::node::element::Element;
use vstd::prelude::*;

verus! {

/// What an element holds: its tag name, attributes and children.
pub struct ElementView {
    pub name: Seq<char>,
    pub attributes: Attributes,
    pub children: Children,
}

impl ElementView {
    /// The markup of an element that holds this.
    pub open spec fn markup(self) -> Seq<char> {
        element_markup(self.name, self.attributes, self.children)
    }

    /// This as an element child.
    pub open spec fn as_child(self) -> (bool, Seq<char>) {
        (false, self.markup())
    }
}

/// What an element holds.
pub open spec fn element_view(e: Element) -> ElementView {
    ElementView {
        name: element_name(e),
        attributes: element_attributes(e),
        children: element_children(e),
    }
}

/// The negative of a number in decimal digits.
pub open spec fn negated(n: nat) -> Seq<char> {
    if n == 0 {
        "0"@
    } else {
        "-"@ + decimal(n)
    }
}

/// The shift of a group to a place.
pub open spec fn shift_to(x: nat, y: nat) -> Seq<char> {
    "translate("@ + decimal(x) + ","@ + decimal(y) + ")"@
}

/// The path of a hierarchy line from a place down: a move to the place, a
/// vertical line, and for an elbow a horizontal line.
pub open spec fn path_data(x: nat, y: nat, elbow: bool) -> Seq<char> {
    if elbow {
        "M"@ + decimal(x) + ","@ + decimal(y) + " v"@ + decimal(ELBOW_DROP as nat) + " h"@
            + decimal(ELBOW_TAIL as nat)
    } else {
        "M"@ + decimal(x) + ","@ + decimal(y) + " v"@ + decimal(ROW_PITCH as nat)
    }
}

/// The view box of a canvas.
pub open spec fn view_box(width: nat, height: nat) -> Seq<char> {
    "0 0 "@ + decimal(width) + " "@ + decimal(height)
}

/// The style element that holds a style resource.
pub open spec fn font_face_element(css: Seq<char>) -> ElementView {
    ElementView {
        name: "style"@,
        attributes: Attributes::empty(),
        children: Children::empty().push((true, css)),
    }
}

/// The rectangle that fills the canvas.
pub open spec fn background_element(color: Seq<char>, corner_radius: u32) -> ElementView {
    ElementView {
        name: "rect"@,
        attributes: Attributes::empty().insert("width"@, "100%"@).insert(
            "height"@,
            "100%"@,
        ).insert("fill"@, color).insert("rx"@, decimal(corner_radius as nat)).insert(
            "ry"@,
            decimal(corner_radius as nat),
        ),
        children: Children::empty(),
    }
}

/// The path of a hierarchy line.
pub open spec fn line_element(x: u64, y: u64, elbow: bool, color: Seq<char>) -> ElementView {
    ElementView {
        name: "path"@,
        attributes: Attributes::empty().insert("fill"@, "none"@).insert("stroke"@, color).insert(
            "stroke-width"@,
            "1"@,
        ).insert("d"@, path_data(x as nat, y as nat, elbow)),
        children: Children::empty(),
    }
}

/// The box of a label: it starts the font size above the base line.
pub open spec fn label_box_element(
    box_width: u64,
    corner_radius: u32,
    font_size: u32,
    box_color: Seq<char>,
) -> ElementView {
    ElementView {
        name: "rect"@,
        attributes: Attributes::empty().insert("class"@, "label-bg"@).insert(
            "y"@,
            negated(font_size as nat),
        ).insert("width"@, decimal(box_width as nat)).insert(
            "height"@,
            decimal(ROW_HEIGHT as nat),
        ).insert("rx"@, decimal(corner_radius as nat)).insert(
            "ry"@,
            decimal(corner_radius as nat),
        ).insert("fill"@, box_color),
        children: Children::empty(),
    }
}

/// The text of a label, set in from the left edge of its box.
pub open spec fn label_text_element(
    text: Seq<char>,
    font: Seq<char>,
    font_size: u32,
    text_color: Seq<char>,
) -> ElementView {
    ElementView {
        name: "text"@,
        attributes: Attributes::empty().insert("class"@, "label-text"@).insert(
            "x"@,
            decimal(ITEM_BG_X_PADDING as nat),
        ).insert("font-family"@, font).insert("font-size"@, decimal(font_size as nat)).insert(
            "fill"@,
            text_color,
        ),
        children: Children::empty().push((true, text)),
    }
}

/// The class of the group of a label.
pub open spec fn kind_class(kind: FsEntryType) -> Seq<char> {
    match kind {
        FsEntryType::File => "file"@,
        FsEntryType::Folder => "folder"@,
    }
}

/// The element that draws a primitive.
pub open spec fn primitive_element(p: PrimitiveView) -> ElementView {
    match p {
        PrimitiveView::FontFace { css } => font_face_element(css),
        PrimitiveView::Background { color, corner_radius } => background_element(
            color,
            corner_radius,
        ),
        PrimitiveView::Line { x, y, elbow, color } => line_element(x, y, elbow, color),
        PrimitiveView::Label {
            kind,
            text,
            x,
            y,
            box_width,
            corner_radius,
            font,
            font_size,
            text_color,
            box_color,
        } => ElementView {
            name: "g"@,
            attributes: Attributes::empty().insert("class"@, kind_class(kind)).insert(
                "transform"@,
                shift_to(x as nat, y as nat),
            ),
            children: Children::empty().push(
                label_box_element(box_width, corner_radius, font_size, box_color).as_child(),
            ).push(label_text_element(text, font, font_size, text_color).as_child()),
        },
    }
}

/// The children of the document element: the elements of the primitives,
/// in order.
pub open spec fn document_children(primitives: Seq<PrimitiveView>) -> Children {
    primitives.map_values(|p: PrimitiveView| primitive_element(p).as_child())
}

/// The document element: it declares the SVG namespace, has the canvas as
/// its view box and holds the element of each primitive.
pub open spec fn document_element(d: DocumentView) -> ElementView {
    ElementView {
        name: "svg"@,
        attributes: Attributes::empty().insert("xmlns"@, "http://www.w3.org/2000/svg"@).insert(
            "viewBox"@,
            view_box(d.width as nat, d.height as nat),
        ),
        children: document_children(d.primitives),
    }
}

/// The markup of a document.
pub open spec fn document_markup(d: DocumentView) -> Seq<char> {
    document_element(d).markup()
}

fn negated_text(n: u32) -> (text: String)
    ensures
        text@ == negated(n as nat),
{
    if n == 0 {
        "0".to_owned()
    } else {
        "-".to_owned().concat(decimal_text(n as u64).as_str())
    }
}

fn shift_to_text(x: u64, y: u64) -> (text: String)
    ensures
        text@ == shift_to(x as nat, y as nat),
{
    "translate(".to_owned().concat(decimal_text(x).as_str()).concat(",").concat(
        decimal_text(y).as_str(),
    ).concat(")")
}

fn path_data_text(x: u64, y: u64, elbow: bool) -> (text: String)
    ensures
        text@ == path_data(x as nat, y as nat, elbow),
{
    let start = "M".to_owned().concat(decimal_text(x).as_str()).concat(",").concat(
        decimal_text(y).as_str(),
    ).concat(" v");
    if elbow {
        start.concat(decimal_text(ELBOW_DROP as u64).as_str()).concat(" h").concat(
            decimal_text(ELBOW_TAIL as u64).as_str(),
        )
    } else {
        start.concat(decimal_text(ROW_PITCH as u64).as_str())
    }
}

fn view_box_text(width: u64, height: u64) -> (text: String)
    ensures
        text@ == view_box(width as nat, height as nat),
{
    "0 0 ".to_owned().concat(decimal_text(width).as_str()).concat(" ").concat(
        decimal_text(height).as_str(),
    )
}

fn render_label_box(box_width: u64, corner_radius: u32, font_size: u32, box_color: &str) -> (e:
    Element)
    ensures
        element_view(e) == label_box_element(box_width, corner_radius, font_size, box_color@),
{
    let radius = decimal_text(corner_radius as u64);
    let e = element_new("rect");
    let e = with_attribute(e, "class", "label-bg");
    let e = with_attribute(e, "y", negated_text(font_size).as_str());
    let e = with_attribute(e, "width", decimal_text(box_width).as_str());
    let e = with_attribute(e, "height", decimal_text(ROW_HEIGHT as u64).as_str());
    let e = with_attribute(e, "rx", radius.as_str());
    let e = with_attribute(e, "ry", radius.as_str());
    with_attribute(e, "fill", box_color)
}

fn render_label_text(text: &str, font: &str, font_size: u32, text_color: &str) -> (e: Element)
    ensures
        element_view(e) == label_text_element(text@, font@, font_size, text_color@),
{
    let e = element_new("text");
    let e = with_attribute(e, "class", "label-text");
    let e = with_attribute(e, "x", decimal_text(ITEM_BG_X_PADDING as u64).as_str());
    let e = with_attribute(e, "font-family", font);
    let e = with_attribute(e, "font-size", decimal_text(font_size as u64).as_str());
    let e = with_attribute(e, "fill", text_color);
    with_text(e, text)
}

/// Builds the element that draws a primitive.
fn render_primitive(p: &Primitive) -> (e: Element)
    ensures
        element_view(e) == primitive_element(p@),
{
    match p {
        Primitive::FontFace { css } => {
            let e = element_new("style");
            with_text(e, css.as_str())
        },
        Primitive::Background { color, corner_radius } => {
            let radius = decimal_text(*corner_radius as u64);
            let e = element_new("rect");
            let e = with_attribute(e, "width", "100%");
            let e = with_attribute(e, "height", "100%");
            let e = with_attribute(e, "fill", color.as_str());
            let e = with_attribute(e, "rx", radius.as_str());
            with_attribute(e, "ry", radius.as_str())
        },
        Primitive::Line { x, y, elbow, color } => {
            let e = element_new("path");
            let e = with_attribute(e, "fill", "none");
            let e = with_attribute(e, "stroke", color.as_str());
            let e = with_attribute(e, "stroke-width", "1");
            with_attribute(e, "d", path_data_text(*x, *y, *elbow).as_str())
        },
        Primitive::Label {
            kind,
            text,
            x,
            y,
            box_width,
            corner_radius,
            font,
            font_size,
            text_color,
            box_color,
        } => {
            let class = match kind {
                FsEntryType::File => "file",
                FsEntryType::Folder => "folder",
            };
            let e = element_new("g");
            let e = with_attribute(e, "class", class);
            let e = with_attribute(e, "transform", shift_to_text(*x, *y).as_str());
            let e = with_child(
                e,
                render_label_box(*box_width, *corner_radius, *font_size, box_color.as_str()),
            );
            with_child(
                e,
                render_label_text(text.as_str(), font.as_str(), *font_size, text_color.as_str()),
            )
        },
    }
}

impl Document {
    /// Writes the document as SVG markup: an `svg` element whose view box
    /// is the canvas and whose children draw the primitives, first to last.
    pub fn to_svg(&self) -> (svg: String)
        ensures
            svg@ == document_markup(self@),
    {
        let ghost d = self@;
        let root = document_new();
        let mut root = with_attribute(
            root,
            "viewBox",
            view_box_text(self.width, self.height).as_str(),
        );
        assert(element_children(root) =~= document_children(d.primitives.take(0)));
        let mut i: usize = 0;
        while i < self.primitives.len()
            invariant
                i <= self.primitives.len(),
                d == self@,
                element_name(root) == document_element(d).name,
                element_attributes(root) == document_element(d).attributes,
                element_children(root) == document_children(d.primitives.take(i as int)),
            decreases self.primitives.len() - i,
        {
            let child = render_primitive(&self.primitives[i]);
            proof {
                assert(d.primitives[i as int] == self.primitives@[i as int]@);
                assert(document_children(d.primitives.take(i as int + 1)) =~= document_children(
                    d.primitives.take(i as int),
                ).push(primitive_element(d.primitives[i as int]).as_child()));
            }
            root = with_child(root, child);
            i += 1;
        }
        assert(d.primitives.take(i as int) =~= d.primitives);
        element_to_string(&root)
    }
}

} // verus!
