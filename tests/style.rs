use html::style::{Edges, Length, Style, Styles};

#[test]
fn edges_all_sets_every_side() {
    let e = Edges::all(Length::Px(3000));
    assert_eq!(e.top, Length::Px(3000));
    assert_eq!(e.right, Length::Px(3000));
    assert_eq!(e.bottom, Length::Px(3000));
    assert_eq!(e.left, Length::Px(3000));
}

#[test]
fn edges_setter_changes_one_side() {
    let e = Edges::all(1u32).top(7);
    assert_eq!((e.top, e.right, e.bottom, e.left), (7, 1, 1, 1));
    let e = Edges::all(1u32).right(2).bottom(3).left(4);
    assert_eq!((e.top, e.right, e.bottom, e.left), (1, 2, 3, 4));
}

#[test]
fn edges_print_clockwise_from_top() {
    let e = Edges::all(Length::Rem(0))
        .top(Length::Px(1000))
        .right(Length::Px(2000))
        .bottom(Length::Px(3000))
        .left(Length::Px(4000));
    assert_eq!(e.to_string(), "1px 2px 3px 4px");
}

#[test]
fn length_formats() {
    assert_eq!(Length::Rem(1000).to_string(), "1rem");
    assert_eq!(Length::Rem(1500).to_string(), "1.5rem");
    assert_eq!(Length::Px(250).to_string(), "0.25px");
    assert_eq!(Length::Px(10).to_string(), "0.01px");
    assert_eq!(Length::Px(-2500).to_string(), "-2.5px");
    assert_eq!(Length::Rem(0).to_string(), "0rem");
    assert_eq!(Length::Px(1234567).to_string(), "1234.567px");
    assert_eq!(Length::Px(i32::MIN).to_string(), "-2147483.648px");
    assert_eq!(Length::default(), Length::Rem(0));
}

#[test]
fn declarations_format() {
    let e = Edges::all(Length::Px(1000));
    assert_eq!(Style::Padding(e).to_string(), "padding: 1px 1px 1px 1px;");
    assert_eq!(Style::Margin(e).to_string(), "margin: 1px 1px 1px 1px;");
    assert_eq!(Style::Border(e).to_string(), "border: 1px 1px 1px 1px;");
}

#[test]
fn empty_sheet_prints_nothing() {
    assert_eq!(Styles::default().to_string(), "");
}

#[test]
fn sheet_keeps_insertion_order() {
    let mut s = Styles::default();
    s.push(Style::Margin(Edges::all(Length::Px(1000))));
    s.push(Style::Padding(Edges::all(Length::Rem(2000))));
    assert_eq!(
        s.to_string(),
        "margin: 1px 1px 1px 1px;padding: 2rem 2rem 2rem 2rem;"
    );
}
