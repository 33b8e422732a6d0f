//! The vector document as markup: elements with attributes and children,
//! built and written out by the `svg` crate.

use svg::node::element::Element;
use vstd::prelude::*;

verus! {

/// An element of the `svg` crate. Verified code carries it around and
/// learns of its contents through the functions below only.
#[verifier::external_type_specification]
#[verifier::external_body]
pub struct ExElement(Element);

/// The attributes of an element: the value that each name has.
pub type Attributes = Map<Seq<char>, Seq<char>>;

/// The children of an element, in order. A text child is given as `true`
/// with its content; an element child as `false` with its markup.
pub type Children = Seq<(bool, Seq<char>)>;

/// The tag name of an element.
pub uninterp spec fn element_name(e: Element) -> Seq<char>;

/// The attributes that an element has.
pub uninterp spec fn element_attributes(e: Element) -> Attributes;

/// The children that an element has.
pub uninterp spec fn element_children(e: Element) -> Children;

/// The markup that the `svg` crate writes for an element with the given tag
/// name, attributes and children.
pub uninterp spec fn element_markup(
    name: Seq<char>,
    attributes: Attributes,
    children: Children,
) -> Seq<char>;

/// Calls `Element::new`: an element of the given tag name that has neither
/// attributes nor children.
#[verifier::external_body]
pub(crate) fn element_new(name: &str) -> (e: Element)
    ensures
        element_name(e) == name@,
        element_attributes(e) == Attributes::empty(),
        element_children(e) == Children::empty(),
{
    Element::new(name)
}

/// Calls `Document::new` and takes the element out of it: an `svg` element
/// that declares the SVG namespace and has no children.
#[verifier::external_body]
pub(crate) fn document_new() -> (e: Element)
    ensures
        element_name(e) == "svg"@,
        element_attributes(e) == Attributes::empty().insert("xmlns"@, "http://www.w3.org/2000/svg"@),
        element_children(e) == Children::empty(),
{
    Element::from(svg::Document::new())
}

/// Calls `Node::assign` on an element: the attribute of the given name gets
/// the given value, in place of any value it had; nothing else changes.
#[verifier::external_body]
pub(crate) fn with_attribute(e: Element, name: &str, value: &str) -> (res: Element)
    ensures
        element_name(res) == element_name(e),
        element_attributes(res) == element_attributes(e).insert(name@, value@),
        element_children(res) == element_children(e),
{
    let mut e = e;
    svg::Node::assign(&mut e, name, value);
    e
}

/// Calls `Node::append` on an element with another element: the child
/// comes after the children that are there; nothing else changes.
#[verifier::external_body]
pub(crate) fn with_child(e: Element, child: Element) -> (res: Element)
    ensures
        element_name(res) == element_name(e),
        element_attributes(res) == element_attributes(e),
        element_children(res) == element_children(e).push(
            (
                false,
                element_markup(
                    element_name(child),
                    element_attributes(child),
                    element_children(child),
                ),
            ),
        ),
{
    let mut e = e;
    svg::Node::append(&mut e, child);
    e
}

/// Calls `Node::append` on an element with a text node made by
/// `Text::new`: the text comes after the children that are there; nothing
/// else changes.
#[verifier::external_body]
pub(crate) fn with_text(e: Element, content: &str) -> (res: Element)
    ensures
        element_name(res) == element_name(e),
        element_attributes(res) == element_attributes(e),
        element_children(res) == element_children(e).push((true, content@)),
{
    let mut e = e;
    svg::Node::append(&mut e, svg::node::Text::new(content));
    e
}

/// Calls `to_string` on an element, which writes its markup. The contract
/// gives that markup a name.
#[verifier::external_body]
pub(crate) fn element_to_string(e: &Element) -> (markup: String)
    ensures
        markup@ == element_markup(
            element_name(*e),
            element_attributes(*e),
            element_children(*e),
        ),
{
    e.to_string()
}

} // verus!
