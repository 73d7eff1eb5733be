use latex::{
    Area, Container, Document, DocumentType, Element, LaTeX, Macros, Node, Parameter, Preambule,
    Text,
};

#[test]
fn it_works() {
    let expected = r"\documentclass{article}
\title{\LaTeX}
\author{Maxim Zhiburt}

\begin{document}
something
\end{document}
";

    let mut doc = Document::new();
    doc.preambule().tittle(LaTeX()).author("Maxim Zhiburt");

    let doc = doc.with(Text("something"));

    let rendered = doc.render();
    assert_eq!(expected, rendered)
}

#[test]
fn empty_document() {
    let doc = Document::new();
    assert_eq!(
        doc.render(),
        "\\documentclass{article}\n\n\\begin{document}\n\n\\end{document}\n"
    );
}

#[test]
fn area_keeps_append_order() {
    let area = Area::new()
        .with(Text("one"))
        .with(Macros::new("two"))
        .with(Text(String::from("three")))
        .with(Macros::new("four").param("x"));
    assert_eq!(area.render(), "one\\twothree\\four{x}");
}

#[test]
fn area_renders_each_child_as_alone() {
    let first = Macros::new("a").param("1");
    let second = Text("b");
    let expected = first.render() + &second.render();
    let area = Area::new().with(first).with(second);
    assert_eq!(area.render(), expected);
}

#[test]
fn empty_area_renders_empty() {
    assert_eq!(Area::new().render(), "");
}

#[test]
fn document_body_keeps_append_order() {
    let doc = Document::new()
        .with(Text("a"))
        .with(Macros::new("b"))
        .with(Text("c"));
    assert_eq!(
        doc.render(),
        "\\documentclass{article}\n\n\\begin{document}\na\\bc\n\\end{document}\n"
    );
}

#[test]
fn render_twice_is_identical() {
    let mut doc = Document::new();
    doc.preambule().tittle("T").author("A");
    let doc = doc.with(Macros::new("section").param("Intro"));
    let first = doc.render();
    let second = doc.render();
    assert_eq!(first, second);
}

#[test]
fn title_last_write_wins() {
    let mut p = Preambule::new();
    p.tittle("first").tittle("second");
    assert_eq!(p.render(), "\\documentclass{article}\n\\title{second}");
}

#[test]
fn author_last_write_wins() {
    let mut p = Preambule::new();
    p.author("first").author("second");
    assert_eq!(p.render(), "\\documentclass{article}\n\\author{second}");
}

#[test]
fn type_last_write_wins() {
    let mut p = Preambule::new();
    p.document_type(DocumentType::Article).document_type(DocumentType::Article);
    assert_eq!(p.render(), "\\documentclass{article}");
    assert_eq!(DocumentType::Article.name(), "article");
}

#[test]
fn preamble_orders_title_before_author() {
    let mut p = Preambule::new();
    p.author("A").tittle("T");
    assert_eq!(p.render(), "\\documentclass{article}\n\\title{T}\n\\author{A}");
}

#[test]
fn command_without_parameters_has_no_braces() {
    assert_eq!(Macros::new("LaTeX").render(), "\\LaTeX");
    assert_eq!(LaTeX().render(), "\\LaTeX");
}

#[test]
fn command_with_parameters_has_one_brace_pair() {
    assert_eq!(Macros::new("x").param("a").render(), "\\x{a}");
    assert_eq!(
        Macros::new("x").param("a").param("b").param("c").render(),
        "\\x{abc}"
    );
}

#[test]
fn empty_literal_parameter_keeps_braces() {
    assert_eq!(Macros::new("x").param("").render(), "\\x{}");
}

#[test]
fn parameters_have_no_separator() {
    assert_eq!(Macros::new("cmd").param("a").param("b").render(), "\\cmd{ab}");
}

#[test]
fn nested_command_parameter() {
    let inner = Macros::new("textbf").param("bold");
    let outer = Macros::new("emph").param(inner).param(String::from("!"));
    assert_eq!(outer.render(), "\\emph{\\textbf{bold}!}");
}

#[test]
fn parameter_renders_its_case() {
    assert_eq!(Parameter::Literal(String::from("t")).render(), "t");
    assert_eq!(Parameter::Macros(LaTeX()).render(), "\\LaTeX");
}

#[test]
fn node_renders_its_content() {
    let n = Text("in").into_node();
    assert_eq!(n.render(), "in");
    let area = Area::new().with(Area::new().with(Text("x")).with(Text("y")));
    assert_eq!(area.render(), "xy");
}

#[test]
fn document_nested_in_area() {
    let doc = Document::new().with(Text("z"));
    let expected = doc.render();
    let area = Area::new().with(doc).with(Text("!"));
    assert_eq!(area.render(), expected + "!");
}

#[test]
fn node_wraps_any_kind() {
    let n = Node::Text(String::from("raw"));
    assert_eq!(n.render(), "raw");
}
