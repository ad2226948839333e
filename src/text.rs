//! Text building blocks shared by the renderer: decimal numbers, attribute
//! names and lists, line joining and indentation, and the three element shapes.
use vstd::prelude::*;
use vstd::string::*;

verus! {

/// The character of a decimal digit `d < 10`.
pub open spec fn digit_char(d: nat) -> char {
    seq!['0', '1', '2', '3', '4', '5', '6', '7', '8', '9'][d as int]
}

/// The decimal digits of `n`, most significant first, without leading zeros.
pub open spec fn decimal(n: nat) -> Seq<char>
    decreases n,
{
    if n < 10 {
        seq![digit_char(n)]
    } else {
        decimal(n / 10).push(digit_char(n % 10))
    }
}

fn digit_str(d: u64) -> (r: &'static str)
    requires
        d < 10,
    ensures
        r@ == seq![digit_char(d as nat)],
{
    proof {
        reveal_strlit("0");
        reveal_strlit("1");
        reveal_strlit("2");
        reveal_strlit("3");
        reveal_strlit("4");
        reveal_strlit("5");
        reveal_strlit("6");
        reveal_strlit("7");
        reveal_strlit("8");
        reveal_strlit("9");
    }
    match d {
        0 => "0",
        1 => "1",
        2 => "2",
        3 => "3",
        4 => "4",
        5 => "5",
        6 => "6",
        7 => "7",
        8 => "8",
        _ => "9",
    }
}

/// Appends the decimal digits of `n` to `out`.
pub fn push_decimal(out: &mut String, n: u64)
    ensures
        final(out)@ == old(out)@ + decimal(n as nat),
    decreases n,
{
    if n < 10 {
        out.append(digit_str(n));
    } else {
        push_decimal(out, n / 10);
        out.append(digit_str(n % 10));
    }
}


/// The digits after the decimal point of `f` thousandths (`0 < f < 1000`),
/// without trailing zeros.
pub open spec fn fraction(f: nat) -> Seq<char> {
    let d1 = f / 100;
    let d2 = f / 10 % 10;
    let d3 = f % 10;
    if d3 != 0 {
        seq![digit_char(d1), digit_char(d2), digit_char(d3)]
    } else if d2 != 0 {
        seq![digit_char(d1), digit_char(d2)]
    } else {
        seq![digit_char(d1)]
    }
}

pub open spec fn abs(m: int) -> nat {
    if m < 0 { (-m) as nat } else { m as nat }
}

/// The shortest decimal text of the number `m / 1000`: a minus sign when
/// negative, the whole part, and the fraction only when it is not zero.
pub open spec fn thousandths_text(m: int) -> Seq<char> {
    let sign = if m < 0 { seq!['-'] } else { Seq::<char>::empty() };
    let a = abs(m);
    let frac = if a % 1000 == 0 { Seq::<char>::empty() } else { seq!['.'] + fraction(a % 1000) };
    sign + decimal(a / 1000) + frac
}

/// Appends the shortest decimal text of `m / 1000` to `out`.
pub fn push_thousandths(out: &mut String, m: i32)
    ensures
        final(out)@ == old(out)@ + thousandths_text(m as int),
{
    proof {
        reveal_strlit("-");
        reveal_strlit(".");
    }
    let a: u64 = if m < 0 { (0 - (m as i64)) as u64 } else { m as u64 };
    if m < 0 {
        out.append("-");
    }
    push_decimal(out, a / 1000);
    let f = a % 1000;
    if f != 0 {
        out.append(".");
        out.append(digit_str(f / 100));
        if f % 100 != 0 {
            out.append(digit_str(f / 10 % 10));
            if f % 10 != 0 {
                out.append(digit_str(f % 10));
            }
        }
    }
    assert(out@ =~= old(out)@ + thousandths_text(m as int));
}


/// The attribute name of a field name: every underscore becomes a hyphen.
pub open spec fn attribute_name_of(field: Seq<char>) -> Seq<char> {
    field.map_values(|c: char| if c == '_' { '-' } else { c })
}

/// The attribute name of the field name `field` (`hx_get` gives `hx-get`).
pub fn attribute_name(field: &str) -> (r: String)
    ensures
        r@ == attribute_name_of(field@),
{
    let n = field.unicode_len();
    let mut out = String::new();
    let mut i: usize = 0;
    while i < n
        invariant
            n == field@.len(),
            i <= n,
            out@ == attribute_name_of(field@.subrange(0, i as int)),
        decreases n - i,
    {
        let c = field.get_char(i);
        let ghost before = out@;
        if c == '_' {
            proof {
                reveal_strlit("-");
            }
            out.append("-");
            assert(out@ =~= before.push('-'));
        } else {
            out.append(field.substring_char(i, i + 1));
            assert(field@.subrange(i as int, i + 1) =~= seq![c]);
            assert(out@ =~= before.push(c));
        }
        proof {
            let mapped = if c == '_' { '-' } else { c };
            assert(attribute_name_of(field@.subrange(0, i + 1)) =~= attribute_name_of(
                field@.subrange(0, i as int),
            ).push(mapped));
        }
        i = i + 1;
    }
    assert(field@.subrange(0, n as int) =~= field@);
    out
}

/// One attribute as it is emitted: nothing when the value is empty, else a
/// space, the attribute name, `=` and the value in double quotes.
pub open spec fn attribute_text(field: Seq<char>, value: Seq<char>) -> Seq<char> {
    if value.len() == 0 {
        Seq::<char>::empty()
    } else {
        " "@ + attribute_name_of(field) + "=\""@ + value + "\""@
    }
}

/// The attributes of `fields` (pairs of field name and value), in order.
pub open spec fn attributes_text(fields: Seq<(Seq<char>, Seq<char>)>) -> Seq<char>
    decreases fields.len(),
{
    if fields.len() == 0 {
        Seq::<char>::empty()
    } else {
        attributes_text(fields.drop_last()) + attribute_text(fields.last().0, fields.last().1)
    }
}

/// The views of a list of fields.
pub open spec fn field_views(fields: Seq<(&'static str, String)>) -> Seq<(Seq<char>, Seq<char>)> {
    fields.map_values(|f: (&'static str, String)| (f.0@, f.1@))
}

/// Renders the attribute list of `fields`, given in declaration order.
pub fn render_attributes(fields: &Vec<(&'static str, String)>) -> (r: String)
    ensures
        r@ == attributes_text(field_views(fields@)),
{
    let mut out = String::new();
    let mut i: usize = 0;
    while i < fields.len()
        invariant
            i <= fields@.len(),
            out@ == attributes_text(field_views(fields@.subrange(0, i as int))),
        decreases fields@.len() - i,
    {
        let field = &fields[i];
        if field.1.unicode_len() != 0 {
            out.append(" ");
            let name = attribute_name(field.0);
            out.append(name.as_str());
            out.append("=\"");
            out.append(field.1.as_str());
            out.append("\"");
        }
        proof {
            let prefix = field_views(fields@.subrange(0, i + 1));
            assert(prefix.drop_last() =~= field_views(fields@.subrange(0, i as int)));
        }
        i = i + 1;
    }
    assert(fields@.subrange(0, i as int) =~= fields@);
    out
}

/// Lines joined by newlines.
pub open spec fn join_lines(lines: Seq<Seq<char>>) -> Seq<char>
    decreases lines.len(),
{
    if lines.len() == 0 {
        Seq::<char>::empty()
    } else if lines.len() == 1 {
        lines[0]
    } else {
        join_lines(lines.drop_last()) + "\n"@ + lines.last()
    }
}

/// `s` with two spaces after every newline.
pub open spec fn indent_breaks(s: Seq<char>) -> Seq<char>
    decreases s.len(),
{
    if s.len() == 0 {
        Seq::<char>::empty()
    } else {
        indent_breaks(s.drop_last()) + if s.last() == '\n' {
            "\n  "@
        } else {
            seq![s.last()]
        }
    }
}

/// `s` with every line, the first included, indented by two spaces.
pub open spec fn indent(s: Seq<char>) -> Seq<char> {
    "  "@ + indent_breaks(s)
}


/// Indents every line of `s`, the first included, by two spaces.
pub fn indent_text(s: &str) -> (r: String)
    ensures
        r@ == indent(s@),
{
    let n = s.unicode_len();
    let mut out = String::from_str("  ");
    let mut i: usize = 0;
    while i < n
        invariant
            n == s@.len(),
            i <= n,
            out@ == indent(s@.subrange(0, i as int)),
        decreases n - i,
    {
        let c = s.get_char(i);
        let ghost before = out@;
        if c == '\n' {
            out.append("\n  ");
        } else {
            out.append(s.substring_char(i, i + 1));
            assert(s@.subrange(i as int, i + 1) =~= seq![c]);
        }
        assert(s@.subrange(0, i + 1).drop_last() =~= s@.subrange(0, i as int));
        i = i + 1;
        assert(out@ =~= indent(s@.subrange(0, i as int)));
    }
    assert(s@.subrange(0, n as int) =~= s@);
    out
}

/// The views of a list of strings.
pub open spec fn string_views(parts: Seq<String>) -> Seq<Seq<char>> {
    parts.map_values(|p: String| p@)
}

/// Joins `parts` with newlines.
pub fn join_text(parts: &Vec<String>) -> (r: String)
    ensures
        r@ == join_lines(string_views(parts@)),
{
    let mut out = String::new();
    let mut i: usize = 0;
    while i < parts.len()
        invariant
            i <= parts@.len(),
            out@ == join_lines(string_views(parts@.subrange(0, i as int))),
        decreases parts@.len() - i,
    {
        if i > 0 {
            out.append("\n");
        }
        out.append(parts[i].as_str());
        assert(string_views(parts@.subrange(0, i + 1)).drop_last() =~= string_views(
            parts@.subrange(0, i as int),
        ));
        i = i + 1;
    }
    assert(parts@.subrange(0, i as int) =~= parts@);
    out
}

/// A structural element: open tag, the indented body on the lines between,
/// and the close tag on a line of its own.
pub open spec fn parent_text(tag: Seq<char>, attributes: Seq<char>, inner: Seq<char>) -> Seq<char> {
    "<"@ + tag + attributes + ">\n"@ + indent(inner) + "\n</"@ + tag + ">"@
}

/// A content element: open tag, the text as it is, close tag, on one line.
pub open spec fn content_text(tag: Seq<char>, attributes: Seq<char>, text: Seq<char>) -> Seq<char> {
    "<"@ + tag + attributes + ">"@ + text + "</"@ + tag + ">"@
}

/// A self-closing element: open tag directly followed by its close tag.
pub open spec fn void_text(tag: Seq<char>, attributes: Seq<char>) -> Seq<char> {
    "<"@ + tag + attributes + "></"@ + tag + ">"@
}

pub fn render_parent(tag: &str, attributes: &str, inner: &str) -> (r: String)
    ensures
        r@ == parent_text(tag@, attributes@, inner@),
{
    let mut out = String::from_str("<");
    out.append(tag);
    out.append(attributes);
    out.append(">\n");
    let body = indent_text(inner);
    out.append(body.as_str());
    out.append("\n</");
    out.append(tag);
    out.append(">");
    out
}

pub fn render_content(tag: &str, attributes: &str, text: &str) -> (r: String)
    ensures
        r@ == content_text(tag@, attributes@, text@),
{
    let mut out = String::from_str("<");
    out.append(tag);
    out.append(attributes);
    out.append(">");
    out.append(text);
    out.append("</");
    out.append(tag);
    out.append(">");
    out
}

pub fn render_void(tag: &str, attributes: &str) -> (r: String)
    ensures
        r@ == void_text(tag@, attributes@),
{
    let mut out = String::from_str("<");
    out.append(tag);
    out.append(attributes);
    out.append("></");
    out.append(tag);
    out.append(">");
    out
}


/// Turning a field name into an attribute name replaces each underscore by a
/// hyphen and keeps every other character; it leaves a name without
/// underscores as it is, so applying it twice gives what applying it once does.
pub proof fn lemma_attribute_name(field: Seq<char>)
    ensures
        attribute_name_of(field).len() == field.len(),
        forall|i: int|
            0 <= i < field.len() ==> #[trigger] attribute_name_of(field)[i] == if field[i] == '_' {
                '-'
            } else {
                field[i]
            },
        !attribute_name_of(field).contains('_'),
        !field.contains('_') ==> attribute_name_of(field) == field,
        attribute_name_of(attribute_name_of(field)) == attribute_name_of(field),
{
    let once = attribute_name_of(field);
    assert(!once.contains('_')) by {
        assert forall|i: int| 0 <= i < once.len() implies once[i] != '_' by {}
    }
    if !field.contains('_') {
        assert forall|i: int| 0 <= i < field.len() implies field[i] != '_' by {
            if field[i] == '_' {
                assert(field.contains('_'));
            }
        }
        assert(once =~= field);
    }
    assert(attribute_name_of(once) =~= once) by {
        assert forall|i: int| 0 <= i < once.len() implies once[i] != '_' by {}
    }
}

/// A field whose value is empty adds nothing to the attribute list, and a
/// field with a value adds exactly its own attribute at the end: the list
/// is that of the fields with values, each once, in declaration order.
pub proof fn lemma_empty_values_omitted(fields: Seq<(Seq<char>, Seq<char>)>, field: Seq<char>, value: Seq<char>)
    ensures
        value.len() == 0 ==> attributes_text(fields.push((field, value))) == attributes_text(fields),
        value.len() > 0 ==> attributes_text(fields.push((field, value))) == attributes_text(fields)
            + " "@ + attribute_name_of(field) + "=\""@ + value + "\""@,
        attributes_text(fields) == attributes_text(
            fields.filter(|f: (Seq<char>, Seq<char>)| f.1.len() > 0),
        ),
    decreases fields.len(),
{
    assert(fields.push((field, value)).drop_last() =~= fields);
    if fields.len() > 0 {
        let rest = fields.drop_last();
        let last = fields.last();
        lemma_empty_values_omitted(rest, last.0, last.1);
        assert(rest.push(last) =~= fields);
        let keep = |f: (Seq<char>, Seq<char>)| f.1.len() > 0;
        reveal(Seq::filter);
        assert(fields.filter(keep) == if last.1.len() > 0 {
            rest.filter(keep).push(last)
        } else {
            rest.filter(keep)
        });
        if last.1.len() > 0 {
            assert(rest.filter(keep).push(last).drop_last() =~= rest.filter(keep));
        }
    } else {
        reveal(Seq::filter);
        assert(fields.filter(|f: (Seq<char>, Seq<char>)| f.1.len() > 0) =~= fields);
    }
}

/// Indenting the breaks of a concatenation indents those of each part.
pub proof fn lemma_indent_breaks_concat(a: Seq<char>, b: Seq<char>)
    ensures
        indent_breaks(a + b) == indent_breaks(a) + indent_breaks(b),
    decreases b.len(),
{
    if b.len() == 0 {
        assert(a + b =~= a);
    } else {
        lemma_indent_breaks_concat(a, b.drop_last());
        assert((a + b).drop_last() =~= a + b.drop_last());
    }
}

/// Indenting one or more lines joined by newlines indents each line on its
/// own and keeps their order.
pub proof fn lemma_indent_join(lines: Seq<Seq<char>>)
    requires
        lines.len() > 0,
    ensures
        indent(join_lines(lines)) == join_lines(lines.map_values(|l: Seq<char>| indent(l))),
    decreases lines.len(),
{
    let indented = lines.map_values(|l: Seq<char>| indent(l));
    if lines.len() == 1 {
    } else {
        let prev = lines.drop_last();
        lemma_indent_join(prev);
        assert(indented.drop_last() =~= prev.map_values(|l: Seq<char>| indent(l)));
        lemma_indent_breaks_concat(join_lines(prev) + "\n"@, lines.last());
        lemma_indent_breaks_concat(join_lines(prev), "\n"@);
        reveal_strlit("\n");
        assert("\n"@.drop_last() =~= Seq::<char>::empty());
        assert(indent_breaks("\n"@) =~= "\n  "@) by {
            assert("\n"@.len() == 1);
            assert("\n"@.last() == '\n');
            assert(indent_breaks(Seq::<char>::empty()) =~= Seq::<char>::empty());
            assert(indent_breaks("\n"@) == indent_breaks("\n"@.drop_last()) + "\n  "@);
        }
        assert(indent(join_lines(lines)) =~= join_lines(indented)) by {
            reveal_strlit("  ");
            reveal_strlit("\n  ");
        }
    }
}


/// The body of a structural element with one or more children is their
/// renderings in order, each line of each indented by two spaces.
pub proof fn lemma_structural_body(tag: Seq<char>, attributes: Seq<char>, children: Seq<Seq<char>>)
    requires
        children.len() > 0,
    ensures
        parent_text(tag, attributes, join_lines(children)) == "<"@ + tag + attributes + ">\n"@
            + join_lines(children.map_values(|l: Seq<char>| indent(l))) + "\n</"@ + tag + ">"@,
{
    lemma_indent_join(children);
}

} // verus!
