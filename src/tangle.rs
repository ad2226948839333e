//! Shorthands for the common box declarations.
use crate::style::{Edges, Length, Style, Styleable};
use vstd::prelude::*;

verus! {

/// Box-model shorthands for every element kind that carries a style sheet.
pub trait Tangled: Styleable {
    /// Appends a padding declaration.
    fn padding(self, padding: Edges<Length>) -> (r: Self)
        ensures
            r.sheet() == self.sheet().push(Style::Padding(padding)),
            r.same_apart_from_sheet(&self),
    {
        self.style(Style::Padding(padding))
    }

    /// Appends a border declaration.
    fn border(self, border: Edges<Length>) -> (r: Self)
        ensures
            r.sheet() == self.sheet().push(Style::Border(border)),
            r.same_apart_from_sheet(&self),
    {
        self.style(Style::Border(border))
    }

    /// Appends a margin declaration.
    fn margin(self, margin: Edges<Length>) -> (r: Self)
        ensures
            r.sheet() == self.sheet().push(Style::Margin(margin)),
            r.same_apart_from_sheet(&self),
    {
        self.style(Style::Margin(margin))
    }
}

impl<T: Styleable> Tangled for T {

}

} // verus!
