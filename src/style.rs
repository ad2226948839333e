//! Lengths, four-sided edge groups and style declarations.
use crate::text::{push_thousandths, thousandths_text};
use vstd::prelude::*;
use vstd::string::*;

verus! {

/// A length with its unit. The magnitude is held in thousandths of the unit
/// (`Rem(1500)` is 1.5rem) and printed as the shortest decimal.
#[derive(Debug, Clone, Copy, PartialEq, Eq, Structural)]
pub enum Length {
    Rem(i32),
    Px(i32),
}

impl Length {
    /// The text of the length: number, then unit suffix.
    pub open spec fn text(self) -> Seq<char> {
        match self {
            Length::Rem(m) => thousandths_text(m as int) + "rem"@,
            Length::Px(m) => thousandths_text(m as int) + "px"@,
        }
    }

    pub fn to_string(&self) -> (r: String)
        ensures
            r@ == self.text(),
    {
        let mut out = String::new();
        match self {
            Length::Rem(m) => {
                push_thousandths(&mut out, *m);
                out.append("rem");
            },
            Length::Px(m) => {
                push_thousandths(&mut out, *m);
                out.append("px");
            },
        }
        out
    }
}

impl Default for Length {
    /// A zero relative length.
    fn default() -> (r: Length)
        ensures
            r == Length::Rem(0),
    {
        Length::Rem(0)
    }
}

/// Four values, one per side of a box.
#[derive(Debug, Clone, Copy, Default, PartialEq, Eq, Structural)]
pub struct Edges<T> {
    pub top: T,
    pub bottom: T,
    pub left: T,
    pub right: T,
}

impl<T: Copy> Edges<T> {
    pub fn top(self, top: T) -> (r: Self)
        ensures
            r == (Edges { top, ..self }),
    {
        Edges { top, ..self }
    }

    pub fn bottom(self, bottom: T) -> (r: Self)
        ensures
            r == (Edges { bottom, ..self }),
    {
        Edges { bottom, ..self }
    }

    pub fn left(self, left: T) -> (r: Self)
        ensures
            r == (Edges { left, ..self }),
    {
        Edges { left, ..self }
    }

    pub fn right(self, right: T) -> (r: Self)
        ensures
            r == (Edges { right, ..self }),
    {
        Edges { right, ..self }
    }

    /// The same value on all four sides.
    pub fn all(value: T) -> (r: Self)
        ensures
            r.top == value,
            r.right == value,
            r.bottom == value,
            r.left == value,
    {
        Edges { top: value, bottom: value, left: value, right: value }
    }
}

impl Edges<Length> {
    /// The four values clockwise from the top, separated by spaces.
    pub open spec fn text(self) -> Seq<char> {
        self.top.text() + " "@ + self.right.text() + " "@ + self.bottom.text() + " "@
            + self.left.text()
    }

    pub fn to_string(&self) -> (r: String)
        ensures
            r@ == self.text(),
    {
        let mut out = self.top.to_string();
        out.append(" ");
        out.append(self.right.to_string().as_str());
        out.append(" ");
        out.append(self.bottom.to_string().as_str());
        out.append(" ");
        out.append(self.left.to_string().as_str());
        out
    }
}

/// One style declaration.
#[derive(Debug, Clone, Copy, PartialEq, Eq, Structural)]
pub enum Style {
    Padding(Edges<Length>),
    Margin(Edges<Length>),
    Border(Edges<Length>),
}

impl Style {
    /// `name: value;` with the property name in lower case.
    pub open spec fn text(self) -> Seq<char> {
        match self {
            Style::Padding(e) => "padding: "@ + e.text() + ";"@,
            Style::Margin(e) => "margin: "@ + e.text() + ";"@,
            Style::Border(e) => "border: "@ + e.text() + ";"@,
        }
    }

    pub fn to_string(&self) -> (r: String)
        ensures
            r@ == self.text(),
    {
        let (mut out, edges) = match self {
            Style::Padding(e) => (String::from_str("padding: "), e),
            Style::Margin(e) => (String::from_str("margin: "), e),
            Style::Border(e) => (String::from_str("border: "), e),
        };
        out.append(edges.to_string().as_str());
        out.append(";");
        out
    }
}

/// The declarations of a sheet, concatenated in order with no separator.
pub open spec fn sheet_text(styles: Seq<Style>) -> Seq<char>
    decreases styles.len(),
{
    if styles.len() == 0 {
        Seq::<char>::empty()
    } else {
        sheet_text(styles.drop_last()) + styles.last().text()
    }
}

/// The ordered style declarations of one element.
#[derive(Debug, Clone)]
pub struct Styles {
    pub styles: Vec<Style>,
}

impl View for Styles {
    type V = Seq<Style>;

    open spec fn view(&self) -> Seq<Style> {
        self.styles@
    }
}

impl Default for Styles {
    /// An empty sheet.
    fn default() -> (r: Styles)
        ensures
            r@ == Seq::<Style>::empty(),
    {
        Styles { styles: Vec::new() }
    }
}

impl Styles {
    /// Appends a declaration at the end of the sheet.
    pub fn push(&mut self, style: Style)
        ensures
            final(self)@ == old(self)@.push(style),
    {
        self.styles.push(style);
    }

    pub fn to_string(&self) -> (r: String)
        ensures
            r@ == sheet_text(self@),
    {
        let mut out = String::new();
        let mut i: usize = 0;
        while i < self.styles.len()
            invariant
                i <= self@.len(),
                out@ == sheet_text(self@.subrange(0, i as int)),
            decreases self@.len() - i,
        {
            out.append(self.styles[i].to_string().as_str());
            assert(self@.subrange(0, i + 1).drop_last() =~= self@.subrange(0, i as int));
            i = i + 1;
        }
        assert(self@.subrange(0, i as int) =~= self@);
        out
    }
}

/// The empty sheet prints as nothing, and appending a declaration appends
/// its text: the sheet prints its declarations in insertion order.
pub proof fn lemma_sheet_text_appends(styles: Seq<Style>, style: Style)
    ensures
        sheet_text(Seq::<Style>::empty()) == Seq::<char>::empty(),
        sheet_text(styles.push(style)) == sheet_text(styles) + style.text(),
{
    assert(styles.push(style).drop_last() =~= styles);
}

/// A sheet holding the declarations of `a` followed by those of `b` prints
/// as `a` prints, then as `b` prints.
pub proof fn lemma_sheet_text_concat(a: Seq<Style>, b: Seq<Style>)
    ensures
        sheet_text(a + b) == sheet_text(a) + sheet_text(b),
    decreases b.len(),
{
    if b.len() == 0 {
        assert(a + b =~= a);
    } else {
        lemma_sheet_text_concat(a, b.drop_last());
        assert((a + b).drop_last() =~= a + b.drop_last());
    }
}

/// Element kinds that carry a style sheet.
pub trait Styleable: Sized {
    /// The element's style sheet.
    spec fn sheet(&self) -> Seq<Style>;

    /// Whether `self` and `other` agree on everything but the style sheet.
    spec fn same_apart_from_sheet(&self, other: &Self) -> bool;

    /// Appends `style` to the element's sheet and gives the element back.
    fn style(self, style: Style) -> (r: Self)
        ensures
            r.sheet() == self.sheet().push(style),
            r.same_apart_from_sheet(&self),
    ;
}

} // verus!
