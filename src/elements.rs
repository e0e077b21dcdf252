use vstd::prelude::*;

use crate::geometry::Rect;
use crate::line::StraightLine;

verus! {

/// A drawable element of the canvas.
#[derive(Clone, Debug)]
pub enum Element {
    Box { area: Rect },
    Text { area: Rect, content: String },
    Line(StraightLine),
}

/// The mathematical value of an element: its text as a sequence of chars.
pub enum Shape {
    Box { area: Rect },
    Text { area: Rect, content: Seq<char> },
    Line(StraightLine),
}

impl View for Element {
    type V = Shape;

    open spec fn view(&self) -> Shape {
        match self {
            Element::Box { area } => Shape::Box { area: *area },
            Element::Text { area, content } => Shape::Text { area: *area, content: content@ },
            Element::Line(l) => Shape::Line(*l),
        }
    }
}

impl Shape {
    /// Rectangles are well formed and lines keep to their direction.
    pub open spec fn wf(self) -> bool {
        match self {
            Shape::Box { area } => area.wf(),
            Shape::Text { area, .. } => area.wf(),
            Shape::Line(l) => l.wf(),
        }
    }

    /// The cells an element occupies: its rectangle, or the rectangle a
    /// line's endpoints span.
    pub open spec fn area(self) -> Rect {
        match self {
            Shape::Box { area } => area,
            Shape::Text { area, .. } => area,
            Shape::Line(l) => l.area_spec(),
        }
    }

    /// The label shown for an element in the layer list.
    pub open spec fn name(self) -> Seq<char> {
        match self {
            Shape::Box { .. } => seq!['B', 'o', 'x'],
            Shape::Text { content, .. } => seq!['T', 'e', 'x', 't', ' ', '"'] + content + seq!['"'],
            Shape::Line(..) => seq!['L', 'i', 'n', 'e'],
        }
    }
}

impl Element {
    /// The label shown for the element in the layer list.
    pub fn name(&self) -> (r: String)
        ensures
            r@ == self@.name(),
    {
        match self {
            Element::Box { .. } => {
                let r = String::from_str("Box");
                proof {
                    reveal_strlit("Box");
                }
                r
            },
            Element::Text { content, .. } => {
                let mut r = String::from_str("Text \"");
                r.append(content.as_str());
                r.append("\"");
                proof {
                    reveal_strlit("Text \"");
                    reveal_strlit("\"");
                }
                assert(r@ =~= self@.name());
                r
            },
            Element::Line(..) => {
                let r = String::from_str("Line");
                proof {
                    reveal_strlit("Line");
                }
                r
            },
        }
    }

    /// The cells the element occupies.
    pub fn area(&self) -> (r: Rect)
        ensures
            r == self@.area(),
            self@.wf() ==> r.wf(),
    {
        match self {
            Element::Box { area } => *area,
            Element::Text { area, .. } => *area,
            Element::Line(line) => line.area(),
        }
    }

    /// Replaces the rectangle of a box or a text by `transform` of it; a line
    /// is left as it is.
    pub fn transform<F: Fn(&Rect) -> Rect>(&mut self, transform: F)
        requires
            forall|r: &Rect| #[trigger] transform.requires((r,)),
        ensures
            match (old(self)@, final(self)@) {
                (Shape::Box { area: a }, Shape::Box { area: b }) => transform.ensures((&a,), b),
                (Shape::Text { area: a, content: c }, Shape::Text { area: b, content: d }) => {
                    transform.ensures((&a,), b) && c == d
                },
                (Shape::Line(l), Shape::Line(m)) => l == m,
                _ => false,
            },
    {
        match self {
            Element::Box { area } => {
                *area = transform(area);
            },
            Element::Text { area, .. } => {
                *area = transform(area);
            },
            _ => {},
        }
    }

    /// A copy of the element.
    pub(crate) fn copied(&self) -> (r: Element)
        ensures
            r@ == self@,
    {
        match self {
            Element::Box { area } => Element::Box { area: *area },
            Element::Text { area, content } => Element::Text { area: *area, content: content.clone() },
            Element::Line(line) => Element::Line(*line),
        }
    }
}

} // verus!
