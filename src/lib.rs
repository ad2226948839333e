//! Typed markup trees: elements whose children are restricted by kind, style
//! declarations, and rendering to indented text.
pub mod elements;
pub mod style;
pub mod tangle;
pub mod text;

pub use crate::elements::{
    body, button, div, h1, h2, h3, h4, h5, h6, head, html, image, input, label, li, ol, p, script,
    title, ul, Attributes, Body, BodyChild, Button, Div, DivChild, Head, HeadChild, Html, HtmlChild,
    Image, Input, Label, Li, Ol, OlChild, Script, Title, Ul, UlChild, H1, H2, H3, H4, H5, H6, P,
};
use crate::text::{join_lines, join_text, string_views};
use vstd::prelude::*;

verus! {

/// A value that renders to markup text.
pub trait Renderable {
    /// The text that the value renders to.
    spec fn rendered(&self) -> Seq<char>;

    fn render(&self) -> (r: String)
        ensures
            r@ == self.rendered(),
    ;
}

/// The ordered children of a structural element, each one of the kinds
/// that `T` admits.
#[derive(Debug)]
pub struct Children<T>(pub Vec<T>);

impl<T> View for Children<T> {
    type V = Seq<T>;

    open spec fn view(&self) -> Seq<T> {
        self.0@
    }
}

/// The renderings of a sequence of values, in order.
pub open spec fn renderings<T: Renderable>(items: Seq<T>) -> Seq<Seq<char>> {
    items.map_values(|c: T| c.rendered())
}

impl<T: Renderable> Renderable for Children<T> {
    /// The children's renderings, one after the other, separated by newlines.
    open spec fn rendered(&self) -> Seq<char> {
        join_lines(renderings(self@))
    }

    fn render(&self) -> (r: String) {
        let mut parts: Vec<String> = Vec::new();
        let mut i: usize = 0;
        while i < self.0.len()
            invariant
                i <= self@.len(),
                parts@.len() == i,
                string_views(parts@) == renderings(self@.subrange(0, i as int)),
            decreases self@.len() - i,
        {
            let part = self.0[i].render();
            let ghost before = parts@;
            parts.push(part);
            proof {
                assert forall|j: int| 0 <= j < i implies string_views(parts@)[j] == renderings(
                    self@.subrange(0, i + 1),
                )[j] by {
                    assert(parts@[j] == before[j]);
                    assert(string_views(before)[j] == renderings(self@.subrange(0, i as int))[j]);
                }
                assert(string_views(parts@) =~= renderings(self@.subrange(0, i + 1)));
            }
            i = i + 1;
        }
        assert(self@.subrange(0, i as int) =~= self@);
        join_text(&parts)
    }
}

/// Text that renders exactly as it is.
#[derive(Debug)]
pub struct Raw {
    pub text: String,
}

impl Renderable for Raw {
    open spec fn rendered(&self) -> Seq<char> {
        self.text@
    }

    fn render(&self) -> (r: String) {
        self.text.clone()
    }
}

/// A pass-through node holding `text`.
pub fn raw(text: &str) -> (r: Raw)
    ensures
        r.text@ == text@,
{
    Raw { text: String::from_str(text) }
}


/// Values that compose into an ordered list of children of kind `T`.
pub trait IntoChildren<T>: Sized {
    /// The children that the value stands for, in order.
    spec fn flattened(&self) -> Seq<T>;

    fn into_children(self) -> (r: Children<T>)
        ensures
            r@ == self.flattened(),
    ;
}

/// The children of each item of `items`, concatenated in order.
pub open spec fn flatten_all<T, A: IntoChildren<T>>(items: Seq<A>) -> Seq<T>
    decreases items.len(),
{
    if items.len() == 0 {
        Seq::<T>::empty()
    } else {
        items[0].flattened() + flatten_all::<T, A>(items.subrange(1, items.len() as int))
    }
}

impl<T> IntoChildren<T> for Children<T> {
    open spec fn flattened(&self) -> Seq<T> {
        self@
    }

    fn into_children(self) -> (r: Children<T>) {
        self
    }
}

impl<T, A: IntoChildren<T>> IntoChildren<T> for Vec<A> {
    open spec fn flattened(&self) -> Seq<T> {
        flatten_all::<T, A>(self@)
    }

    fn into_children(self) -> (r: Children<T>) {
        let mut rest = self;
        let mut out: Vec<T> = Vec::new();
        while rest.len() > 0
            invariant
                flatten_all::<T, A>(self@) == out@ + flatten_all::<T, A>(rest@),
            decreases rest@.len(),
        {
            let ghost before = rest@;
            let item = rest.remove(0);
            assert(rest@ =~= before.subrange(1, before.len() as int));
            let mut more = item.into_children();
            out.append(&mut more.0);
        }
        assert(out@ + flatten_all::<T, A>(rest@) =~= out@);
        Children(out)
    }
}

impl<T, A: IntoChildren<T>> IntoChildren<T> for (A,) {
    open spec fn flattened(&self) -> Seq<T> {
        self.0.flattened()
    }

    fn into_children(self) -> (r: Children<T>) {
        self.0.into_children()
    }
}

impl<T, A: IntoChildren<T>, B: IntoChildren<T>> IntoChildren<T> for (A, B) {
    open spec fn flattened(&self) -> Seq<T> {
        self.0.flattened() + self.1.flattened()
    }

    fn into_children(self) -> (r: Children<T>) {
        let (a, b) = self;
        let mut data = a.into_children().0;
        let mut more = b.into_children().0;
        data.append(&mut more);
        Children(data)
    }
}

impl<T, A: IntoChildren<T>, B: IntoChildren<T>, C: IntoChildren<T>> IntoChildren<T> for (A, B, C) {
    open spec fn flattened(&self) -> Seq<T> {
        self.0.flattened() + self.1.flattened() + self.2.flattened()
    }

    fn into_children(self) -> (r: Children<T>) {
        let (a, b, c) = self;
        let mut data = a.into_children().0;
        let mut more = b.into_children().0;
        data.append(&mut more);
        let mut last = c.into_children().0;
        data.append(&mut last);
        Children(data)
    }
}

/// Composition keeps order and does not depend on grouping: `(a, (b, c))`,
/// `((a, b), c)`, `(a, b, c)` and the list `[a, b, c]` give the same children.
pub proof fn lemma_composition_associative<T, A: IntoChildren<T>>(a: A, b: A, c: A)
    ensures
        (a, (b, c)).flattened() == ((a, b), c).flattened(),
        ((a, b), c).flattened() == (a, b, c).flattened(),
        (a, b, c).flattened() == flatten_all::<T, A>(seq![a, b, c]),
        (a, b, c).flattened() == a.flattened() + b.flattened() + c.flattened(),
{
    let s = seq![a, b, c];
    let e = Seq::<A>::empty();
    assert(seq![c].subrange(1, 1) =~= e);
    assert(flatten_all::<T, A>(e) =~= Seq::<T>::empty());
    assert(seq![c][0] == c);
    assert(seq![b, c][0] == b);
    assert(s[0] == a);
    assert(flatten_all::<T, A>(seq![c]) =~= c.flattened());
    assert(seq![b, c].subrange(1, 2) =~= seq![c]);
    assert(flatten_all::<T, A>(seq![b, c]) =~= b.flattened() + c.flattened());
    assert(s.subrange(1, 3) =~= seq![b, c]);
    assert(flatten_all::<T, A>(s) =~= a.flattened() + b.flattened() + c.flattened());
    assert((a, (b, c)).flattened() =~= ((a, b), c).flattened());
}


/// Rendering is a function of the value alone: equal values render to the
/// same text, however often they are rendered.
pub proof fn lemma_render_deterministic<T: Renderable>(a: T, b: T)
    requires
        a == b,
    ensures
        a.rendered() == b.rendered(),
{
}

} // verus!
