use html::style::{Edges, Length, Style, Styleable};
use html::tangle::Tangled;
use html::text::attribute_name;
use html::{
    body, button, div, h1, head, html, image, input, label, li, ol, p, raw, script, title, ul,
    Renderable,
};

#[test]
fn body_with_one_paragraph() {
    assert_eq!(body(p("hi")).render(), "<body>\n  <p>hi</p>\n</body>");
}

#[test]
fn paragraph_with_padding() {
    let el = p("text").padding(Edges::all(Length::Rem(1000)));
    assert_eq!(
        el.render(),
        "<p style=\"padding: 1rem 1rem 1rem 1rem;\">text</p>"
    );
}

#[test]
fn image_with_empty_alt() {
    let el = image("a.png".to_string(), "".to_string());
    assert_eq!(el.render(), "<image src=\"a.png\"></image>");
}

#[test]
fn image_with_alt() {
    let el = image("a.png".to_string(), "logo".to_string());
    assert_eq!(el.render(), "<image src=\"a.png\" alt=\"logo\"></image>");
}

#[test]
fn rendering_twice_gives_same_text() {
    let tree = body((div((p("a"), p("b"))), image("x.png".to_string(), "x".to_string())));
    assert_eq!(tree.render(), tree.render());
}

#[test]
fn nested_children_are_indented_per_level() {
    let tree = body(div((p("a"), div(p("b")))));
    assert_eq!(
        tree.render(),
        "<body>\n  <div>\n    <p>a</p>\n    <div>\n      <p>b</p>\n    </div>\n  </div>\n</body>"
    );
}

#[test]
fn children_keep_their_order() {
    let tree = ol(vec![li("one"), li("two"), li("three")]);
    assert_eq!(
        tree.render(),
        "<ol>\n  <li>one</li>\n  <li>two</li>\n  <li>three</li>\n</ol>"
    );
}

#[test]
fn empty_children_leave_an_indented_blank_line() {
    let tree = ul(Vec::<html::Li>::new());
    assert_eq!(tree.render(), "<ul>\n  \n</ul>");
}

#[test]
fn multi_line_text_is_indented_line_by_line() {
    let tree = div(p("a\nb"));
    assert_eq!(tree.render(), "<div>\n  <p>a\n  b</p>\n</div>");
}

#[test]
fn empty_optional_fields_are_omitted() {
    let mut el = p("x");
    assert_eq!(el.render(), "<p>x</p>");
    el.attributes.hx_get = "/items".to_string();
    assert_eq!(el.render(), "<p hx-get=\"/items\">x</p>");
}

#[test]
fn attributes_follow_declaration_order() {
    let mut el = button("go");
    el.attributes.hx_target = "#out".to_string();
    el.attributes.hx_post = "/send".to_string();
    el.attributes.hx_swap = "innerHTML".to_string();
    let el = el.margin(Edges::all(Length::Px(2000)));
    assert_eq!(
        el.render(),
        "<button style=\"margin: 2px 2px 2px 2px;\" hx-post=\"/send\" hx-swap=\"innerHTML\" hx-target=\"#out\">go</button>"
    );
}

#[test]
fn required_fields_come_before_optional_ones() {
    let el = image("i.png".to_string(), "pic".to_string()).border(Edges::all(Length::Px(1000)));
    assert_eq!(
        el.render(),
        "<image src=\"i.png\" alt=\"pic\" style=\"border: 1px 1px 1px 1px;\"></image>"
    );
}

#[test]
fn attribute_name_replaces_underscores() {
    assert_eq!(attribute_name("hx_get"), "hx-get");
    assert_eq!(attribute_name("a_b_c"), "a-b-c");
    assert_eq!(attribute_name("src"), "src");
    assert_eq!(attribute_name(&attribute_name("hx_swap")), attribute_name("hx_swap"));
    assert_eq!(attribute_name(""), "");
}

#[test]
fn composition_does_not_depend_on_grouping() {
    let a = body((p("a"), (p("b"), p("c")))).render();
    let b = body(((p("a"), p("b")), p("c"))).render();
    let c = body(vec![p("a"), p("b"), p("c")]).render();
    let d = body((p("a"), p("b"), p("c"))).render();
    assert_eq!(a, b);
    assert_eq!(b, c);
    assert_eq!(c, d);
    assert_eq!(a, "<body>\n  <p>a</p>\n  <p>b</p>\n  <p>c</p>\n</body>");
}

#[test]
fn mixed_kinds_in_one_group() {
    let tree = div((input("name"), vec![label("l1"), label("l2")], (ul(li("x")),)));
    assert_eq!(
        tree.render(),
        "<div>\n  <input>name</input>\n  <label>l1</label>\n  <label>l2</label>\n  <ul>\n    <li>x</li>\n  </ul>\n</div>"
    );
}

#[test]
fn whole_page() {
    let page = html((
        head((title("Hello"), script("s.js".to_string()))),
        body(div(p("Top")).style(Style::Padding(Edges::all(Length::Rem(500))))),
    ));
    assert_eq!(
        page.render(),
        "<html>\n  <head>\n    <title>Hello</title>\n    <script src=\"s.js\"></script>\n  </head>\n  <body>\n    <div style=\"padding: 0.5rem 0.5rem 0.5rem 0.5rem;\">\n      <p>Top</p>\n    </div>\n  </body>\n</html>"
    );
}

#[test]
fn raw_renders_as_is() {
    assert_eq!(raw("<b>\"x\"</b>\n").render(), "<b>\"x\"</b>\n");
    assert_eq!(raw("").render(), "");
}

#[test]
fn text_is_not_escaped() {
    assert_eq!(p("a < b & c").render(), "<p>a < b & c</p>");
}

#[test]
fn heading_renders_its_level() {
    assert_eq!(h1("Top").render(), "<h1>Top</h1>");
}
