//! The element kinds, what each may contain, and how each renders.
use crate::style::{sheet_text, Style, Styleable, Styles};
use crate::text::{
    attributes_text, content_text, field_views, join_lines, join_text, parent_text,
    render_attributes, render_content, render_parent, render_void, string_views, void_text,
};
use crate::{renderings, Children, IntoChildren, Renderable};
use vstd::prelude::*;
use vstd::string::*;

verus! {

/// The optional fields shared by most element kinds: a style sheet and the
/// request-trigger attributes, all empty unless set.
#[derive(Debug)]
pub struct Attributes {
    pub style: Styles,
    pub hx_get: String,
    pub hx_post: String,
    pub hx_put: String,
    pub hx_patch: String,
    pub hx_delete: String,
    pub hx_trigger: String,
    pub hx_swap: String,
    pub hx_target: String,
}

impl Attributes {
    /// Field names with their values as text, in declaration order.
    pub open spec fn fields(&self) -> Seq<(Seq<char>, Seq<char>)> {
        seq![
            ("style"@, sheet_text(self.style@)),
            ("hx_get"@, self.hx_get@),
            ("hx_post"@, self.hx_post@),
            ("hx_put"@, self.hx_put@),
            ("hx_patch"@, self.hx_patch@),
            ("hx_delete"@, self.hx_delete@),
            ("hx_trigger"@, self.hx_trigger@),
            ("hx_swap"@, self.hx_swap@),
            ("hx_target"@, self.hx_target@),
        ]
    }

    /// All fields empty.
    pub open spec fn unset(&self) -> bool {
        &&& self.style@.len() == 0
        &&& self.hx_get@.len() == 0
        &&& self.hx_post@.len() == 0
        &&& self.hx_put@.len() == 0
        &&& self.hx_patch@.len() == 0
        &&& self.hx_delete@.len() == 0
        &&& self.hx_trigger@.len() == 0
        &&& self.hx_swap@.len() == 0
        &&& self.hx_target@.len() == 0
    }

    /// Same request-trigger attributes as `other`.
    pub open spec fn same_triggers(&self, other: &Attributes) -> bool {
        &&& self.hx_get@ == other.hx_get@
        &&& self.hx_post@ == other.hx_post@
        &&& self.hx_put@ == other.hx_put@
        &&& self.hx_patch@ == other.hx_patch@
        &&& self.hx_delete@ == other.hx_delete@
        &&& self.hx_trigger@ == other.hx_trigger@
        &&& self.hx_swap@ == other.hx_swap@
        &&& self.hx_target@ == other.hx_target@
    }

    pub fn new() -> (r: Attributes)
        ensures
            r.unset(),
    {
        Attributes {
            style: Styles { styles: Vec::new() },
            hx_get: String::new(),
            hx_post: String::new(),
            hx_put: String::new(),
            hx_patch: String::new(),
            hx_delete: String::new(),
            hx_trigger: String::new(),
            hx_swap: String::new(),
            hx_target: String::new(),
        }
    }

    /// The fields as name and text, in declaration order.
    pub fn field_list(&self) -> (r: Vec<(&'static str, String)>)
        ensures
            field_views(r@) == self.fields(),
    {
        let r = vec![
            ("style", self.style.to_string()),
            ("hx_get", self.hx_get.clone()),
            ("hx_post", self.hx_post.clone()),
            ("hx_put", self.hx_put.clone()),
            ("hx_patch", self.hx_patch.clone()),
            ("hx_delete", self.hx_delete.clone()),
            ("hx_trigger", self.hx_trigger.clone()),
            ("hx_swap", self.hx_swap.clone()),
            ("hx_target", self.hx_target.clone()),
        ];
        assert(field_views(r@) =~= self.fields());
        r
    }

    /// Appends a declaration to the style sheet.
    pub fn push_style(&mut self, style: Style)
        ensures
            final(self).style@ == old(self).style@.push(style),
            final(self).same_triggers(old(self)),
    {
        self.style.push(style);
    }

    pub fn render(&self) -> (r: String)
        ensures
            r@ == attributes_text(self.fields()),
    {
        render_attributes(&self.field_list())
    }
}

/// The document root.
#[derive(Debug)]
pub struct Html {
    pub children: Children<HtmlChild>,
    pub attributes: Attributes,
}

/// The kinds of element that the document root may hold.
#[derive(Debug)]
pub enum HtmlChild {
    Head(Head),
    Body(Body),
}

impl IntoChildren<HtmlChild> for Head {
    open spec fn flattened(&self) -> Seq<HtmlChild> {
        seq![HtmlChild::Head(*self)]
    }

    fn into_children(self) -> (r: Children<HtmlChild>) {
        Children(vec![HtmlChild::Head(self)])
    }
}

impl IntoChildren<HtmlChild> for Body {
    open spec fn flattened(&self) -> Seq<HtmlChild> {
        seq![HtmlChild::Body(*self)]
    }

    fn into_children(self) -> (r: Children<HtmlChild>) {
        Children(vec![HtmlChild::Body(self)])
    }
}

impl Renderable for HtmlChild {
    open spec fn rendered(&self) -> Seq<char> {
        match self {
            HtmlChild::Head(x) => x.rendered(),
            HtmlChild::Body(x) => x.rendered(),
        }
    }

    fn render(&self) -> (r: String) {
        match self {
            HtmlChild::Head(x) => x.render(),
            HtmlChild::Body(x) => x.render(),
        }
    }
}

impl Renderable for Html {
    open spec fn rendered(&self) -> Seq<char> {
        parent_text("html"@, attributes_text(self.attributes.fields()), self.children.rendered())
    }

    fn render(&self) -> (r: String) {
        let inner = self.children.render();
        render_parent("html", self.attributes.render().as_str(), inner.as_str())
    }
}

/// The document root holding `children`, in order.
pub fn html<C: IntoChildren<HtmlChild>>(children: C) -> (r: Html)
    ensures
        r.children@ == children.flattened(),
        r.attributes.unset(),
{
    Html { children: children.into_children(), attributes: Attributes::new() }
}

impl Styleable for Html {
    open spec fn sheet(&self) -> Seq<Style> {
        self.attributes.style@
    }

    open spec fn same_apart_from_sheet(&self, other: &Self) -> bool {
        self.children@ == other.children@ && self.attributes.same_triggers(&other.attributes)
    }

    fn style(self, style: Style) -> (r: Self) {
        let mut r = self;
        r.attributes.push_style(style);
        r
    }
}

/// The document head.
#[derive(Debug)]
pub struct Head {
    pub children: Children<HeadChild>,
}

/// The kinds of element that the document head may hold.
#[derive(Debug)]
pub enum HeadChild {
    Title(Title),
    Script(Script),
}

impl IntoChildren<HeadChild> for Title {
    open spec fn flattened(&self) -> Seq<HeadChild> {
        seq![HeadChild::Title(*self)]
    }

    fn into_children(self) -> (r: Children<HeadChild>) {
        Children(vec![HeadChild::Title(self)])
    }
}

impl IntoChildren<HeadChild> for Script {
    open spec fn flattened(&self) -> Seq<HeadChild> {
        seq![HeadChild::Script(*self)]
    }

    fn into_children(self) -> (r: Children<HeadChild>) {
        Children(vec![HeadChild::Script(self)])
    }
}

impl Renderable for HeadChild {
    open spec fn rendered(&self) -> Seq<char> {
        match self {
            HeadChild::Title(x) => x.rendered(),
            HeadChild::Script(x) => x.rendered(),
        }
    }

    fn render(&self) -> (r: String) {
        match self {
            HeadChild::Title(x) => x.render(),
            HeadChild::Script(x) => x.render(),
        }
    }
}

impl Renderable for Head {
    open spec fn rendered(&self) -> Seq<char> {
        parent_text("head"@, Seq::<char>::empty(), self.children.rendered())
    }

    fn render(&self) -> (r: String) {
        let inner = self.children.render();
        render_parent("head", String::new().as_str(), inner.as_str())
    }
}

/// The document head holding `children`, in order.
pub fn head<C: IntoChildren<HeadChild>>(children: C) -> (r: Head)
    ensures
        r.children@ == children.flattened(),
{
    Head { children: children.into_children() }
}

/// The document body.
#[derive(Debug)]
pub struct Body {
    pub children: Children<BodyChild>,
    pub attributes: Attributes,
}

/// The kinds of element that the document body may hold.
#[derive(Debug)]
pub enum BodyChild {
    Div(Div),
    P(P),
    Input(Input),
    Label(Label),
    Image(Image),
    Script(Script),
}

impl IntoChildren<BodyChild> for Div {
    open spec fn flattened(&self) -> Seq<BodyChild> {
        seq![BodyChild::Div(*self)]
    }

    fn into_children(self) -> (r: Children<BodyChild>) {
        Children(vec![BodyChild::Div(self)])
    }
}

impl IntoChildren<BodyChild> for P {
    open spec fn flattened(&self) -> Seq<BodyChild> {
        seq![BodyChild::P(*self)]
    }

    fn into_children(self) -> (r: Children<BodyChild>) {
        Children(vec![BodyChild::P(self)])
    }
}

impl IntoChildren<BodyChild> for Input {
    open spec fn flattened(&self) -> Seq<BodyChild> {
        seq![BodyChild::Input(*self)]
    }

    fn into_children(self) -> (r: Children<BodyChild>) {
        Children(vec![BodyChild::Input(self)])
    }
}

impl IntoChildren<BodyChild> for Label {
    open spec fn flattened(&self) -> Seq<BodyChild> {
        seq![BodyChild::Label(*self)]
    }

    fn into_children(self) -> (r: Children<BodyChild>) {
        Children(vec![BodyChild::Label(self)])
    }
}

impl IntoChildren<BodyChild> for Image {
    open spec fn flattened(&self) -> Seq<BodyChild> {
        seq![BodyChild::Image(*self)]
    }

    fn into_children(self) -> (r: Children<BodyChild>) {
        Children(vec![BodyChild::Image(self)])
    }
}

impl IntoChildren<BodyChild> for Script {
    open spec fn flattened(&self) -> Seq<BodyChild> {
        seq![BodyChild::Script(*self)]
    }

    fn into_children(self) -> (r: Children<BodyChild>) {
        Children(vec![BodyChild::Script(self)])
    }
}

impl Renderable for BodyChild {
    open spec fn rendered(&self) -> Seq<char> {
        match self {
            BodyChild::Div(x) => x.rendered(),
            BodyChild::P(x) => x.rendered(),
            BodyChild::Input(x) => x.rendered(),
            BodyChild::Label(x) => x.rendered(),
            BodyChild::Image(x) => x.rendered(),
            BodyChild::Script(x) => x.rendered(),
        }
    }

    fn render(&self) -> (r: String) {
        match self {
            BodyChild::Div(x) => x.render(),
            BodyChild::P(x) => x.render(),
            BodyChild::Input(x) => x.render(),
            BodyChild::Label(x) => x.render(),
            BodyChild::Image(x) => x.render(),
            BodyChild::Script(x) => x.render(),
        }
    }
}

impl Renderable for Body {
    open spec fn rendered(&self) -> Seq<char> {
        parent_text("body"@, attributes_text(self.attributes.fields()), self.children.rendered())
    }

    fn render(&self) -> (r: String) {
        let inner = self.children.render();
        render_parent("body", self.attributes.render().as_str(), inner.as_str())
    }
}

/// The document body holding `children`, in order.
pub fn body<C: IntoChildren<BodyChild>>(children: C) -> (r: Body)
    ensures
        r.children@ == children.flattened(),
        r.attributes.unset(),
{
    Body { children: children.into_children(), attributes: Attributes::new() }
}

impl Styleable for Body {
    open spec fn sheet(&self) -> Seq<Style> {
        self.attributes.style@
    }

    open spec fn same_apart_from_sheet(&self, other: &Self) -> bool {
        self.children@ == other.children@ && self.attributes.same_triggers(&other.attributes)
    }

    fn style(self, style: Style) -> (r: Self) {
        let mut r = self;
        r.attributes.push_style(style);
        r
    }
}

/// A block container.
#[derive(Debug)]
pub struct Div {
    pub children: Children<DivChild>,
    pub attributes: Attributes,
}

/// The kinds of element that a block container may hold.
#[derive(Debug)]
pub enum DivChild {
    Div(Div),
    P(P),
    Input(Input),
    Label(Label),
    Ol(Ol),
    Ul(Ul),
    Image(Image),
}

impl IntoChildren<DivChild> for Div {
    open spec fn flattened(&self) -> Seq<DivChild> {
        seq![DivChild::Div(*self)]
    }

    fn into_children(self) -> (r: Children<DivChild>) {
        Children(vec![DivChild::Div(self)])
    }
}

impl IntoChildren<DivChild> for P {
    open spec fn flattened(&self) -> Seq<DivChild> {
        seq![DivChild::P(*self)]
    }

    fn into_children(self) -> (r: Children<DivChild>) {
        Children(vec![DivChild::P(self)])
    }
}

impl IntoChildren<DivChild> for Input {
    open spec fn flattened(&self) -> Seq<DivChild> {
        seq![DivChild::Input(*self)]
    }

    fn into_children(self) -> (r: Children<DivChild>) {
        Children(vec![DivChild::Input(self)])
    }
}

impl IntoChildren<DivChild> for Label {
    open spec fn flattened(&self) -> Seq<DivChild> {
        seq![DivChild::Label(*self)]
    }

    fn into_children(self) -> (r: Children<DivChild>) {
        Children(vec![DivChild::Label(self)])
    }
}

impl IntoChildren<DivChild> for Ol {
    open spec fn flattened(&self) -> Seq<DivChild> {
        seq![DivChild::Ol(*self)]
    }

    fn into_children(self) -> (r: Children<DivChild>) {
        Children(vec![DivChild::Ol(self)])
    }
}

impl IntoChildren<DivChild> for Ul {
    open spec fn flattened(&self) -> Seq<DivChild> {
        seq![DivChild::Ul(*self)]
    }

    fn into_children(self) -> (r: Children<DivChild>) {
        Children(vec![DivChild::Ul(self)])
    }
}

impl IntoChildren<DivChild> for Image {
    open spec fn flattened(&self) -> Seq<DivChild> {
        seq![DivChild::Image(*self)]
    }

    fn into_children(self) -> (r: Children<DivChild>) {
        Children(vec![DivChild::Image(self)])
    }
}

/// The rendering of a block container: its attributes, and its children
/// indented on the lines between its open and close tags.
pub open spec fn div_text(d: Div) -> Seq<char>
    decreases d,
{
    parent_text(
        "div"@,
        attributes_text(d.attributes.fields()),
        join_lines(div_children_lines(d.children.0@)),
    )
}

/// The renderings of the children of a block container, in order.
pub open spec fn div_children_lines(cs: Seq<DivChild>) -> Seq<Seq<char>>
    decreases cs,
{
    if cs.len() == 0 {
        Seq::<Seq<char>>::empty()
    } else {
        div_children_lines(cs.drop_last()).push(div_child_text(cs.last()))
    }
}

/// The rendering of one child of a block container.
pub open spec fn div_child_text(c: DivChild) -> Seq<char>
    decreases c,
{
    match c {
        DivChild::Div(x) => div_text(x),
        DivChild::P(x) => x.rendered(),
        DivChild::Input(x) => x.rendered(),
        DivChild::Label(x) => x.rendered(),
        DivChild::Ol(x) => x.rendered(),
        DivChild::Ul(x) => x.rendered(),
        DivChild::Image(x) => x.rendered(),
    }
}

/// Renders a block container, recursing into the containers it holds.
fn render_div(d: &Div) -> (r: String)
    ensures
        r@ == div_text(*d),
    decreases d,
{
    let mut parts: Vec<String> = Vec::new();
    let mut i: usize = 0;
    while i < d.children.0.len()
        invariant
            i <= d.children@.len(),
            string_views(parts@) == div_children_lines(d.children@.subrange(0, i as int)),
        decreases d.children@.len() - i,
    {
        let part = render_div_child(&d.children.0[i]);
        let ghost before = parts@;
        parts.push(part);
        assert(d.children@.subrange(0, i + 1).drop_last() =~= d.children@.subrange(0, i as int));
        assert(string_views(parts@) =~= string_views(before).push(part@));
        i = i + 1;
    }
    assert(d.children@.subrange(0, i as int) =~= d.children@);
    let inner = join_text(&parts);
    render_parent("div", d.attributes.render().as_str(), inner.as_str())
}

/// Renders one child of a block container.
fn render_div_child(c: &DivChild) -> (r: String)
    ensures
        r@ == div_child_text(*c),
    decreases c,
{
    match c {
        DivChild::Div(x) => render_div(x),
        DivChild::P(x) => x.render(),
        DivChild::Input(x) => x.render(),
        DivChild::Label(x) => x.render(),
        DivChild::Ol(x) => x.render(),
        DivChild::Ul(x) => x.render(),
        DivChild::Image(x) => x.render(),
    }
}

impl Renderable for DivChild {
    open spec fn rendered(&self) -> Seq<char> {
        div_child_text(*self)
    }

    fn render(&self) -> (r: String) {
        render_div_child(self)
    }
}

impl Renderable for Div {
    open spec fn rendered(&self) -> Seq<char> {
        div_text(*self)
    }

    fn render(&self) -> (r: String) {
        render_div(self)
    }
}

/// A block container holding `children`, in order.
pub fn div<C: IntoChildren<DivChild>>(children: C) -> (r: Div)
    ensures
        r.children@ == children.flattened(),
        r.attributes.unset(),
{
    Div { children: children.into_children(), attributes: Attributes::new() }
}

impl Styleable for Div {
    open spec fn sheet(&self) -> Seq<Style> {
        self.attributes.style@
    }

    open spec fn same_apart_from_sheet(&self, other: &Self) -> bool {
        self.children@ == other.children@ && self.attributes.same_triggers(&other.attributes)
    }

    fn style(self, style: Style) -> (r: Self) {
        let mut r = self;
        r.attributes.push_style(style);
        r
    }
}

/// An ordered list.
#[derive(Debug)]
pub struct Ol {
    pub children: Children<OlChild>,
    pub attributes: Attributes,
}

/// The kinds of element that an ordered list may hold.
#[derive(Debug)]
pub enum OlChild {
    Li(Li),
}

impl IntoChildren<OlChild> for Li {
    open spec fn flattened(&self) -> Seq<OlChild> {
        seq![OlChild::Li(*self)]
    }

    fn into_children(self) -> (r: Children<OlChild>) {
        Children(vec![OlChild::Li(self)])
    }
}

impl Renderable for OlChild {
    open spec fn rendered(&self) -> Seq<char> {
        match self {
            OlChild::Li(x) => x.rendered(),
        }
    }

    fn render(&self) -> (r: String) {
        match self {
            OlChild::Li(x) => x.render(),
        }
    }
}

impl Renderable for Ol {
    open spec fn rendered(&self) -> Seq<char> {
        parent_text("ol"@, attributes_text(self.attributes.fields()), self.children.rendered())
    }

    fn render(&self) -> (r: String) {
        let inner = self.children.render();
        render_parent("ol", self.attributes.render().as_str(), inner.as_str())
    }
}

/// An ordered list holding `children`, in order.
pub fn ol<C: IntoChildren<OlChild>>(children: C) -> (r: Ol)
    ensures
        r.children@ == children.flattened(),
        r.attributes.unset(),
{
    Ol { children: children.into_children(), attributes: Attributes::new() }
}

impl Styleable for Ol {
    open spec fn sheet(&self) -> Seq<Style> {
        self.attributes.style@
    }

    open spec fn same_apart_from_sheet(&self, other: &Self) -> bool {
        self.children@ == other.children@ && self.attributes.same_triggers(&other.attributes)
    }

    fn style(self, style: Style) -> (r: Self) {
        let mut r = self;
        r.attributes.push_style(style);
        r
    }
}

/// An unordered list.
#[derive(Debug)]
pub struct Ul {
    pub children: Children<UlChild>,
    pub attributes: Attributes,
}

/// The kinds of element that an unordered list may hold.
#[derive(Debug)]
pub enum UlChild {
    Li(Li),
}

impl IntoChildren<UlChild> for Li {
    open spec fn flattened(&self) -> Seq<UlChild> {
        seq![UlChild::Li(*self)]
    }

    fn into_children(self) -> (r: Children<UlChild>) {
        Children(vec![UlChild::Li(self)])
    }
}

impl Renderable for UlChild {
    open spec fn rendered(&self) -> Seq<char> {
        match self {
            UlChild::Li(x) => x.rendered(),
        }
    }

    fn render(&self) -> (r: String) {
        match self {
            UlChild::Li(x) => x.render(),
        }
    }
}

impl Renderable for Ul {
    open spec fn rendered(&self) -> Seq<char> {
        parent_text("ul"@, attributes_text(self.attributes.fields()), self.children.rendered())
    }

    fn render(&self) -> (r: String) {
        let inner = self.children.render();
        render_parent("ul", self.attributes.render().as_str(), inner.as_str())
    }
}

/// An unordered list holding `children`, in order.
pub fn ul<C: IntoChildren<UlChild>>(children: C) -> (r: Ul)
    ensures
        r.children@ == children.flattened(),
        r.attributes.unset(),
{
    Ul { children: children.into_children(), attributes: Attributes::new() }
}

impl Styleable for Ul {
    open spec fn sheet(&self) -> Seq<Style> {
        self.attributes.style@
    }

    open spec fn same_apart_from_sheet(&self, other: &Self) -> bool {
        self.children@ == other.children@ && self.attributes.same_triggers(&other.attributes)
    }

    fn style(self, style: Style) -> (r: Self) {
        let mut r = self;
        r.attributes.push_style(style);
        r
    }
}

/// The document title.
#[derive(Debug)]
pub struct Title {
    pub text: String,
}

impl Renderable for Title {
    open spec fn rendered(&self) -> Seq<char> {
        content_text("title"@, Seq::<char>::empty(), self.text@)
    }

    fn render(&self) -> (r: String) {
        render_content("title", String::new().as_str(), self.text.as_str())
    }
}

/// The document title holding `text`.
pub fn title(text: &str) -> (r: Title)
    ensures
        r.text@ == text@,
{
    Title { text: String::from_str(text) }
}

/// A paragraph.
#[derive(Debug)]
pub struct P {
    pub text: String,
    pub attributes: Attributes,
}

impl Renderable for P {
    open spec fn rendered(&self) -> Seq<char> {
        content_text("p"@, attributes_text(self.attributes.fields()), self.text@)
    }

    fn render(&self) -> (r: String) {
        render_content("p", self.attributes.render().as_str(), self.text.as_str())
    }
}

/// A paragraph holding `text`.
pub fn p(text: &str) -> (r: P)
    ensures
        r.text@ == text@,
        r.attributes.unset(),
{
    P { text: String::from_str(text), attributes: Attributes::new() }
}

impl Styleable for P {
    open spec fn sheet(&self) -> Seq<Style> {
        self.attributes.style@
    }

    open spec fn same_apart_from_sheet(&self, other: &Self) -> bool {
        self.text@ == other.text@ && self.attributes.same_triggers(&other.attributes)
    }

    fn style(self, style: Style) -> (r: Self) {
        let mut r = self;
        r.attributes.push_style(style);
        r
    }
}

/// An input field.
#[derive(Debug)]
pub struct Input {
    pub text: String,
    pub attributes: Attributes,
}

impl Renderable for Input {
    open spec fn rendered(&self) -> Seq<char> {
        content_text("input"@, attributes_text(self.attributes.fields()), self.text@)
    }

    fn render(&self) -> (r: String) {
        render_content("input", self.attributes.render().as_str(), self.text.as_str())
    }
}

/// An input field holding `text`.
pub fn input(text: &str) -> (r: Input)
    ensures
        r.text@ == text@,
        r.attributes.unset(),
{
    Input { text: String::from_str(text), attributes: Attributes::new() }
}

impl Styleable for Input {
    open spec fn sheet(&self) -> Seq<Style> {
        self.attributes.style@
    }

    open spec fn same_apart_from_sheet(&self, other: &Self) -> bool {
        self.text@ == other.text@ && self.attributes.same_triggers(&other.attributes)
    }

    fn style(self, style: Style) -> (r: Self) {
        let mut r = self;
        r.attributes.push_style(style);
        r
    }
}

/// A label.
#[derive(Debug)]
pub struct Label {
    pub text: String,
    pub attributes: Attributes,
}

impl Renderable for Label {
    open spec fn rendered(&self) -> Seq<char> {
        content_text("label"@, attributes_text(self.attributes.fields()), self.text@)
    }

    fn render(&self) -> (r: String) {
        render_content("label", self.attributes.render().as_str(), self.text.as_str())
    }
}

/// A label holding `text`.
pub fn label(text: &str) -> (r: Label)
    ensures
        r.text@ == text@,
        r.attributes.unset(),
{
    Label { text: String::from_str(text), attributes: Attributes::new() }
}

impl Styleable for Label {
    open spec fn sheet(&self) -> Seq<Style> {
        self.attributes.style@
    }

    open spec fn same_apart_from_sheet(&self, other: &Self) -> bool {
        self.text@ == other.text@ && self.attributes.same_triggers(&other.attributes)
    }

    fn style(self, style: Style) -> (r: Self) {
        let mut r = self;
        r.attributes.push_style(style);
        r
    }
}

/// A heading of level 1.
#[derive(Debug)]
pub struct H1 {
    pub text: String,
    pub attributes: Attributes,
}

impl Renderable for H1 {
    open spec fn rendered(&self) -> Seq<char> {
        content_text("h1"@, attributes_text(self.attributes.fields()), self.text@)
    }

    fn render(&self) -> (r: String) {
        render_content("h1", self.attributes.render().as_str(), self.text.as_str())
    }
}

/// A heading of level 1 holding `text`.
pub fn h1(text: &str) -> (r: H1)
    ensures
        r.text@ == text@,
        r.attributes.unset(),
{
    H1 { text: String::from_str(text), attributes: Attributes::new() }
}

impl Styleable for H1 {
    open spec fn sheet(&self) -> Seq<Style> {
        self.attributes.style@
    }

    open spec fn same_apart_from_sheet(&self, other: &Self) -> bool {
        self.text@ == other.text@ && self.attributes.same_triggers(&other.attributes)
    }

    fn style(self, style: Style) -> (r: Self) {
        let mut r = self;
        r.attributes.push_style(style);
        r
    }
}

/// A heading of level 2.
#[derive(Debug)]
pub struct H2 {
    pub text: String,
    pub attributes: Attributes,
}

impl Renderable for H2 {
    open spec fn rendered(&self) -> Seq<char> {
        content_text("h2"@, attributes_text(self.attributes.fields()), self.text@)
    }

    fn render(&self) -> (r: String) {
        render_content("h2", self.attributes.render().as_str(), self.text.as_str())
    }
}

/// A heading of level 2 holding `text`.
pub fn h2(text: &str) -> (r: H2)
    ensures
        r.text@ == text@,
        r.attributes.unset(),
{
    H2 { text: String::from_str(text), attributes: Attributes::new() }
}

impl Styleable for H2 {
    open spec fn sheet(&self) -> Seq<Style> {
        self.attributes.style@
    }

    open spec fn same_apart_from_sheet(&self, other: &Self) -> bool {
        self.text@ == other.text@ && self.attributes.same_triggers(&other.attributes)
    }

    fn style(self, style: Style) -> (r: Self) {
        let mut r = self;
        r.attributes.push_style(style);
        r
    }
}

/// A heading of level 3.
#[derive(Debug)]
pub struct H3 {
    pub text: String,
    pub attributes: Attributes,
}

impl Renderable for H3 {
    open spec fn rendered(&self) -> Seq<char> {
        content_text("h3"@, attributes_text(self.attributes.fields()), self.text@)
    }

    fn render(&self) -> (r: String) {
        render_content("h3", self.attributes.render().as_str(), self.text.as_str())
    }
}

/// A heading of level 3 holding `text`.
pub fn h3(text: &str) -> (r: H3)
    ensures
        r.text@ == text@,
        r.attributes.unset(),
{
    H3 { text: String::from_str(text), attributes: Attributes::new() }
}

impl Styleable for H3 {
    open spec fn sheet(&self) -> Seq<Style> {
        self.attributes.style@
    }

    open spec fn same_apart_from_sheet(&self, other: &Self) -> bool {
        self.text@ == other.text@ && self.attributes.same_triggers(&other.attributes)
    }

    fn style(self, style: Style) -> (r: Self) {
        let mut r = self;
        r.attributes.push_style(style);
        r
    }
}

/// A heading of level 4.
#[derive(Debug)]
pub struct H4 {
    pub text: String,
    pub attributes: Attributes,
}

impl Renderable for H4 {
    open spec fn rendered(&self) -> Seq<char> {
        content_text("h4"@, attributes_text(self.attributes.fields()), self.text@)
    }

    fn render(&self) -> (r: String) {
        render_content("h4", self.attributes.render().as_str(), self.text.as_str())
    }
}

/// A heading of level 4 holding `text`.
pub fn h4(text: &str) -> (r: H4)
    ensures
        r.text@ == text@,
        r.attributes.unset(),
{
    H4 { text: String::from_str(text), attributes: Attributes::new() }
}

impl Styleable for H4 {
    open spec fn sheet(&self) -> Seq<Style> {
        self.attributes.style@
    }

    open spec fn same_apart_from_sheet(&self, other: &Self) -> bool {
        self.text@ == other.text@ && self.attributes.same_triggers(&other.attributes)
    }

    fn style(self, style: Style) -> (r: Self) {
        let mut r = self;
        r.attributes.push_style(style);
        r
    }
}

/// A heading of level 5.
#[derive(Debug)]
pub struct H5 {
    pub text: String,
    pub attributes: Attributes,
}

impl Renderable for H5 {
    open spec fn rendered(&self) -> Seq<char> {
        content_text("h5"@, attributes_text(self.attributes.fields()), self.text@)
    }

    fn render(&self) -> (r: String) {
        render_content("h5", self.attributes.render().as_str(), self.text.as_str())
    }
}

/// A heading of level 5 holding `text`.
pub fn h5(text: &str) -> (r: H5)
    ensures
        r.text@ == text@,
        r.attributes.unset(),
{
    H5 { text: String::from_str(text), attributes: Attributes::new() }
}

impl Styleable for H5 {
    open spec fn sheet(&self) -> Seq<Style> {
        self.attributes.style@
    }

    open spec fn same_apart_from_sheet(&self, other: &Self) -> bool {
        self.text@ == other.text@ && self.attributes.same_triggers(&other.attributes)
    }

    fn style(self, style: Style) -> (r: Self) {
        let mut r = self;
        r.attributes.push_style(style);
        r
    }
}

/// A heading of level 6.
#[derive(Debug)]
pub struct H6 {
    pub text: String,
    pub attributes: Attributes,
}

impl Renderable for H6 {
    open spec fn rendered(&self) -> Seq<char> {
        content_text("h6"@, attributes_text(self.attributes.fields()), self.text@)
    }

    fn render(&self) -> (r: String) {
        render_content("h6", self.attributes.render().as_str(), self.text.as_str())
    }
}

/// A heading of level 6 holding `text`.
pub fn h6(text: &str) -> (r: H6)
    ensures
        r.text@ == text@,
        r.attributes.unset(),
{
    H6 { text: String::from_str(text), attributes: Attributes::new() }
}

impl Styleable for H6 {
    open spec fn sheet(&self) -> Seq<Style> {
        self.attributes.style@
    }

    open spec fn same_apart_from_sheet(&self, other: &Self) -> bool {
        self.text@ == other.text@ && self.attributes.same_triggers(&other.attributes)
    }

    fn style(self, style: Style) -> (r: Self) {
        let mut r = self;
        r.attributes.push_style(style);
        r
    }
}

/// A list item.
#[derive(Debug)]
pub struct Li {
    pub text: String,
    pub attributes: Attributes,
}

impl Renderable for Li {
    open spec fn rendered(&self) -> Seq<char> {
        content_text("li"@, attributes_text(self.attributes.fields()), self.text@)
    }

    fn render(&self) -> (r: String) {
        render_content("li", self.attributes.render().as_str(), self.text.as_str())
    }
}

/// A list item holding `text`.
pub fn li(text: &str) -> (r: Li)
    ensures
        r.text@ == text@,
        r.attributes.unset(),
{
    Li { text: String::from_str(text), attributes: Attributes::new() }
}

impl Styleable for Li {
    open spec fn sheet(&self) -> Seq<Style> {
        self.attributes.style@
    }

    open spec fn same_apart_from_sheet(&self, other: &Self) -> bool {
        self.text@ == other.text@ && self.attributes.same_triggers(&other.attributes)
    }

    fn style(self, style: Style) -> (r: Self) {
        let mut r = self;
        r.attributes.push_style(style);
        r
    }
}

/// A button.
#[derive(Debug)]
pub struct Button {
    pub text: String,
    pub attributes: Attributes,
}

impl Renderable for Button {
    open spec fn rendered(&self) -> Seq<char> {
        content_text("button"@, attributes_text(self.attributes.fields()), self.text@)
    }

    fn render(&self) -> (r: String) {
        render_content("button", self.attributes.render().as_str(), self.text.as_str())
    }
}

/// A button holding `text`.
pub fn button(text: &str) -> (r: Button)
    ensures
        r.text@ == text@,
        r.attributes.unset(),
{
    Button { text: String::from_str(text), attributes: Attributes::new() }
}

impl Styleable for Button {
    open spec fn sheet(&self) -> Seq<Style> {
        self.attributes.style@
    }

    open spec fn same_apart_from_sheet(&self, other: &Self) -> bool {
        self.text@ == other.text@ && self.attributes.same_triggers(&other.attributes)
    }

    fn style(self, style: Style) -> (r: Self) {
        let mut r = self;
        r.attributes.push_style(style);
        r
    }
}

/// An image.
#[derive(Debug)]
pub struct Image {
    pub src: String,
    pub alt: String,
    pub attributes: Attributes,
}

impl Image {
    /// Field names with their values as text: required fields, then optional ones.
    pub open spec fn fields(&self) -> Seq<(Seq<char>, Seq<char>)> {
        seq![("src"@, self.src@), ("alt"@, self.alt@)] + self.attributes.fields()
    }

    fn field_list(&self) -> (r: Vec<(&'static str, String)>)
        ensures
            field_views(r@) == self.fields(),
    {
        let mut fields = vec![("src", self.src.clone()), ("alt", self.alt.clone())];
        let mut optional = self.attributes.field_list();
        fields.append(&mut optional);
        assert(field_views(fields@) =~= self.fields());
        fields
    }
}

impl Renderable for Image {
    open spec fn rendered(&self) -> Seq<char> {
        void_text("image"@, attributes_text(self.fields()))
    }

    fn render(&self) -> (r: String) {
        let attributes = render_attributes(&self.field_list());
        render_void("image", attributes.as_str())
    }
}

/// An image with the required fields given.
pub fn image(src: String, alt: String) -> (r: Image)
    ensures
        r.src@ == src@,
        r.alt@ == alt@,
        r.attributes.unset(),
{
    Image { src, alt, attributes: Attributes::new() }
}

impl Styleable for Image {
    open spec fn sheet(&self) -> Seq<Style> {
        self.attributes.style@
    }

    open spec fn same_apart_from_sheet(&self, other: &Self) -> bool {
        self.src@ == other.src@ && self.alt@ == other.alt@ && self.attributes.same_triggers(&other.attributes)
    }

    fn style(self, style: Style) -> (r: Self) {
        let mut r = self;
        r.attributes.push_style(style);
        r
    }
}

/// An external script.
#[derive(Debug)]
pub struct Script {
    pub src: String,
}

impl Script {
    /// Field names with their values as text: required fields, then optional ones.
    pub open spec fn fields(&self) -> Seq<(Seq<char>, Seq<char>)> {
        seq![("src"@, self.src@)]
    }

    fn field_list(&self) -> (r: Vec<(&'static str, String)>)
        ensures
            field_views(r@) == self.fields(),
    {
        let mut fields = vec![("src", self.src.clone())];
        assert(field_views(fields@) =~= self.fields());
        fields
    }
}

impl Renderable for Script {
    open spec fn rendered(&self) -> Seq<char> {
        void_text("script"@, attributes_text(self.fields()))
    }

    fn render(&self) -> (r: String) {
        let attributes = render_attributes(&self.field_list());
        render_void("script", attributes.as_str())
    }
}

/// An external script with the required fields given.
pub fn script(src: String) -> (r: Script)
    ensures
        r.src@ == src@,
{
    Script { src }
}


/// The children of a block container render as the generic children list.
pub proof fn lemma_div_children_lines(cs: Seq<DivChild>)
    ensures
        div_children_lines(cs) == renderings(cs),
    decreases cs.len(),
{
    if cs.len() > 0 {
        lemma_div_children_lines(cs.drop_last());
        assert(renderings(cs.drop_last()).push(cs.last().rendered()) =~= renderings(cs));
    } else {
        assert(renderings(cs) =~= Seq::<Seq<char>>::empty());
    }
}

/// A block container renders as every structural element does: open tag,
/// its children's renderings indented, close tag.
pub proof fn lemma_div_rendered(d: Div)
    ensures
        d.rendered() == parent_text(
            "div"@,
            attributes_text(d.attributes.fields()),
            d.children.rendered(),
        ),
{
    lemma_div_children_lines(d.children@);
}

} // verus!
