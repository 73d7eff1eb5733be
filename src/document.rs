//! The node tree: text, areas, the boxed body, the preamble and the document.
use vstd::prelude::*;
use vstd::seq_lib::lemma_flatten_concat;

use crate::command::{
    command_text, lemma_macros_text, macros_text, parameter_text, IntoParameter, Macros, Parameter,
};
use crate::element::{Container, Element};

verus! {

/// Raw text, rendered as it is.
pub struct Text<S>(pub S);

/// Every kind of node that a container can hold.
pub enum Node {
    Text(String),
    Macros(Macros),
    Parameter(Parameter),
    Area(Area),
    Boxed(Boxed),
    Preambule(Preambule),
    Document(Document),
}

/// The text of a node.
pub open spec fn node_text(n: Node) -> Seq<char>
    decreases n, 0int,
{
    match n {
        Node::Text(s) => s@,
        Node::Macros(m) => macros_text(m),
        Node::Parameter(p) => parameter_text(p),
        Node::Area(a) => area_text(a),
        Node::Boxed(b) => boxed_text(b),
        Node::Preambule(p) => preambule_text(p@),
        Node::Document(d) => doc_text(d),
    }
}

/// The concatenated text of the first `i` nodes of `ns`.
closed spec fn nodes_prefix_text(ns: Seq<Node>, i: int) -> Seq<char>
    decreases ns, i,
{
    if i <= 0 || i > ns.len() {
        Seq::empty()
    } else {
        nodes_prefix_text(ns, i - 1) + node_text(ns[i - 1])
    }
}

/// The text of an area, over its nodes; `Area::lemma_text` states it over the view.
pub closed spec fn area_text(a: Area) -> Seq<char>
    decreases a, 0int,
{
    nodes_prefix_text(a.objs@, a.objs@.len() as int)
}

/// The text of a boxed body, over its areas.
pub closed spec fn boxed_text(b: Boxed) -> Seq<char>
    decreases b, 0int,
{
    area_text(b.prep) + "\n"@ + area_text(b.middle) + "\n"@ + area_text(b.after)
}

/// The text of a document, over its parts.
pub closed spec fn doc_text(d: Document) -> Seq<char>
    decreases d, 0int,
{
    preambule_text(d.preambule@) + "\n\n"@ + boxed_text(d.body) + "\n"@
}

/// The rendered texts of a sequence of nodes.
pub open spec fn texts_of(ns: Seq<Node>) -> Seq<Seq<char>> {
    Seq::new(ns.len(), |i: int| node_text(ns[i]))
}

proof fn lemma_nodes_prefix_text(ns: Seq<Node>, i: int)
    requires
        0 <= i <= ns.len(),
    ensures
        nodes_prefix_text(ns, i) == texts_of(ns).take(i).flatten(),
    decreases i,
{
    if i > 0 {
        lemma_nodes_prefix_text(ns, i - 1);
        assert(texts_of(ns).take(i) =~= texts_of(ns).take(i - 1).push(node_text(ns[i - 1])));
        texts_of(ns).take(i - 1).lemma_flatten_push(node_text(ns[i - 1]));
    } else {
        assert(texts_of(ns).take(i) =~= Seq::<Seq<char>>::empty());
    }
}

/// An ordered, append-only sequence of nodes, rendered one after the other.
pub struct Area {
    objs: Vec<Node>,
}

impl View for Area {
    type V = Seq<Seq<char>>;

    /// The rendered children, in the order in which they were appended.
    closed spec fn view(&self) -> Seq<Seq<char>> {
        texts_of(self.objs@)
    }
}

impl Area {
    /// An area without children.
    pub fn new() -> (r: Self)
        ensures
            r@ == Seq::<Seq<char>>::empty(),
    {
        let r = Area { objs: Vec::new() };
        assert(r@ =~= Seq::<Seq<char>>::empty());
        r
    }

    /// The text of an area is the concatenation of its children's texts.
    pub proof fn lemma_text(a: Area)
        ensures
            area_text(a) == a@.flatten(),
    {
        let ns = a.objs@;
        lemma_nodes_prefix_text(ns, ns.len() as int);
        assert(texts_of(ns).take(ns.len() as int) =~= texts_of(ns));
    }
}

/// What a boxed body holds: the rendered children of each of its three regions.
pub struct BoxedView {
    pub prep: Seq<Seq<char>>,
    pub middle: Seq<Seq<char>>,
    pub after: Seq<Seq<char>>,
}

/// The text of a boxed body: its three regions, one line break between each.
pub open spec fn boxed_view_text(v: BoxedView) -> Seq<char> {
    v.prep.flatten() + "\n"@ + v.middle.flatten() + "\n"@ + v.after.flatten()
}

/// Three areas: one before, one in the middle that takes the content, one after.
pub struct Boxed {
    prep: Area,
    middle: Area,
    after: Area,
}

impl View for Boxed {
    type V = BoxedView;

    closed spec fn view(&self) -> BoxedView {
        BoxedView { prep: self.prep@, middle: self.middle@, after: self.after@ }
    }
}

impl Boxed {
    /// A body whose three regions are empty.
    fn new() -> (r: Self)
        ensures
            r@ == (BoxedView {
                prep: Seq::empty(),
                middle: Seq::empty(),
                after: Seq::empty(),
            }),
    {
        Boxed { prep: Area::new(), middle: Area::new(), after: Area::new() }
    }

    /// The text of a boxed body, over its view.
    pub proof fn lemma_text(b: Boxed)
        ensures
            boxed_text(b) == boxed_view_text(b@),
    {
        Area::lemma_text(b.prep);
        Area::lemma_text(b.middle);
        Area::lemma_text(b.after);
    }
}

/// The kind of document, named in its class declaration.
pub enum DocumentType {
    Article,
}

/// The name of a kind of document.
pub open spec fn document_type_name(t: DocumentType) -> Seq<char> {
    match t {
        DocumentType::Article => "article"@,
    }
}

impl DocumentType {
    /// The name written in the class declaration.
    pub fn name(&self) -> (r: &'static str)
        ensures
            r@ == document_type_name(*self),
    {
        match self {
            DocumentType::Article => "article",
        }
    }
}

/// What a preamble declares: the kind of document, and the title and author
/// lines where they are set.
pub struct PreambuleView {
    pub kind: DocumentType,
    pub title: Option<Seq<char>>,
    pub author: Option<Seq<char>>,
}

/// The line that declares `arg` under the command `name`.
pub open spec fn declaration(name: Seq<char>, arg: Seq<char>) -> Seq<char> {
    command_text(name, seq![arg])
}

/// The text of a preamble: the class declaration, then the title line if set,
/// then the author line if set, one line break between each.
pub open spec fn preambule_text(v: PreambuleView) -> Seq<char> {
    let head = "\\documentclass{"@ + document_type_name(v.kind) + "}"@;
    let titled = match v.title {
        Some(t) => head + "\n"@ + t,
        None => head,
    };
    match v.author {
        Some(a) => titled + "\n"@ + a,
        None => titled,
    }
}

/// Document metadata: the kind of document, a title and an author.
pub struct Preambule {
    kind: DocumentType,
    author: Option<Parameter>,
    tittle: Option<Parameter>,
}

/// The text of a declaration line, if there is one.
pub open spec fn line_text(p: Option<Parameter>) -> Option<Seq<char>> {
    match p {
        Some(p) => Some(parameter_text(p)),
        None => None,
    }
}

impl View for Preambule {
    type V = PreambuleView;

    closed spec fn view(&self) -> PreambuleView {
        PreambuleView { kind: self.kind, title: line_text(self.tittle), author: line_text(self.author) }
    }
}

impl Preambule {
    /// An article without title or author.
    pub fn new() -> (r: Self)
        ensures
            r@ == (PreambuleView { kind: DocumentType::Article, title: None, author: None }),
    {
        Preambule { kind: DocumentType::Article, author: None, tittle: None }
    }

    /// Sets the kind of document, in place of the one before.
    pub fn document_type(&mut self, t: DocumentType) -> (r: &mut Self)
        ensures
            r@ == (PreambuleView { kind: t, ..old(self)@ }),
            *final(self) == *final(r),
    {
        self.kind = t;
        self
    }

    /// Sets the title line, `\title{..}` around the given parameter, in place of
    /// the one before.
    pub fn tittle<P: IntoParameter>(&mut self, parameter: P) -> (r: &mut Self)
        ensures
            r@ == (PreambuleView {
                title: Some(declaration("title"@, parameter.arg_text())),
                ..old(self)@
            }),
            *final(self) == *final(r),
    {
        let m = Macros::new("title").param(parameter);
        proof {
            lemma_macros_text(m);
        }
        self.tittle = Some(Parameter::Macros(m));
        self
    }

    /// Sets the author line, `\author{..}` around the given text, in place of
    /// the one before.
    pub fn author(&mut self, author: &str) -> (r: &mut Self)
        ensures
            r@ == (PreambuleView { author: Some(declaration("author"@, author@)), ..old(self)@ }),
            *final(self) == *final(r),
    {
        let m = Macros::new("author").param(author);
        proof {
            lemma_macros_text(m);
        }
        self.author = Some(Parameter::Macros(m));
        self
    }
}

/// What a document holds: its preamble and its boxed body.
pub struct DocumentView {
    pub preamble: PreambuleView,
    pub body: BoxedView,
}

/// The text of a document: the preamble, two line breaks, the body and a
/// final line break.
pub open spec fn document_text(v: DocumentView) -> Seq<char> {
    preambule_text(v.preamble) + "\n\n"@ + boxed_view_text(v.body) + "\n"@
}

/// The root node: a preamble and a body between `\begin{document}` and
/// `\end{document}`.
pub struct Document {
    preambule: Preambule,
    body: Boxed,
}

impl View for Document {
    type V = DocumentView;

    closed spec fn view(&self) -> DocumentView {
        DocumentView { preamble: self.preambule@, body: self.body@ }
    }
}

impl Document {
    /// An empty article: default preamble, the body's first region holding
    /// `\begin{document}`, its last `\end{document}`, its middle empty.
    pub fn new() -> (r: Self)
        ensures
            r@.preamble == (PreambuleView { kind: DocumentType::Article, title: None, author: None }),
            r@.body.prep == seq![declaration("begin"@, "document"@)],
            r@.body.middle == Seq::<Seq<char>>::empty(),
            r@.body.after == seq![declaration("end"@, "document"@)],
    {
        let mut body = Boxed::new();
        body.prep = body.prep.with(Macros::new("begin").param("document"));
        body.after = body.after.with(Macros::new("end").param("document"));
        Document { preambule: Preambule::new(), body }
    }

    /// The preamble, to be changed in place.
    pub fn preambule(&mut self) -> (r: &mut Preambule)
        ensures
            r@ == old(self)@.preamble,
            final(self)@ == (DocumentView { preamble: final(r)@, ..old(self)@ }),
    {
        &mut self.preambule
    }

    /// The text of a document, over its view.
    pub proof fn lemma_text(d: Document)
        ensures
            doc_text(d) == document_text(d@),
    {
        Boxed::lemma_text(d.body);
    }
}

/// Where the `i`-th of the texts `ts` starts in their concatenation.
pub open spec fn offset(ts: Seq<Seq<char>>, i: int) -> int {
    ts.take(i).flatten().len() as int
}

/// The `i`-th of the texts `ts` stands whole at its offset in their concatenation.
proof fn lemma_piece_at(ts: Seq<Seq<char>>, i: int)
    requires
        0 <= i < ts.len(),
    ensures
        0 <= offset(ts, i) <= offset(ts, i) + ts[i].len() <= ts.flatten().len(),
        ts.flatten().subrange(offset(ts, i), offset(ts, i) + ts[i].len()) == ts[i],
        i + 1 < ts.len() ==> offset(ts, i + 1) == offset(ts, i) + ts[i].len(),
{
    let before = ts.take(i);
    let rest = ts.skip(i + 1);
    assert(ts =~= before + seq![ts[i]] + rest);
    lemma_flatten_concat(before + seq![ts[i]], rest);
    lemma_flatten_concat(before, seq![ts[i]]);
    seq![ts[i]].lemma_flatten_one_element();
    assert(ts.take(i + 1) =~= before + seq![ts[i]]);
    assert((before.flatten() + ts[i] + rest.flatten()).subrange(
        before.flatten().len() as int,
        (before.flatten().len() + ts[i].len()) as int,
    ) =~= ts[i]);
}

/// Order is kept: an area renders as the concatenation of its children's
/// renders, each whole and at its place, in the order in which they were
/// appended.
pub proof fn law_order_preserved(a: Area, i: int)
    requires
        0 <= i < a@.len(),
    ensures
        a.text() == a@.flatten(),
        0 <= offset(a@, i) <= offset(a@, i) + a@[i].len() <= a.text().len(),
        a.text().subrange(offset(a@, i), offset(a@, i) + a@[i].len()) == a@[i],
        i + 1 < a@.len() ==> offset(a@, i + 1) == offset(a@, i) + a@[i].len(),
{
    lemma_piece_at(a@, i);
}

/// Order is kept in a document's body too: the content appended to a document
/// renders after the preamble and the opening region, each piece whole and at
/// its place, in the order in which it was appended.
pub proof fn law_body_order_preserved(d: Document, i: int)
    requires
        0 <= i < d@.body.middle.len(),
    ensures
        ({
            let start = preambule_text(d@.preamble).len() + 2 + d@.body.prep.flatten().len() + 1;
            let m = d@.body.middle;
            &&& start + offset(m, i) + m[i].len() <= d.text().len()
            &&& d.text().subrange(start + offset(m, i), start + offset(m, i) + m[i].len()) == m[i]
            &&& i + 1 < m.len() ==> offset(m, i + 1) == offset(m, i) + m[i].len()
        }),
{
    let m = d@.body.middle;
    lemma_piece_at(m, i);
    reveal_strlit("\n");
    reveal_strlit("\n\n");
    let head = preambule_text(d@.preamble) + "\n\n"@ + d@.body.prep.flatten() + "\n"@;
    let tail = "\n"@ + d@.body.after.flatten() + "\n"@;
    assert(d.text() =~= head + m.flatten() + tail);
    let lo = offset(m, i);
    let hi = offset(m, i) + m[i].len();
    assert((head + m.flatten() + tail).subrange(head.len() + lo, head.len() + hi)
        =~= m.flatten().subrange(lo, hi));
}

/// Rendering is pure: two renders of one unchanged node give the same text.
pub proof fn law_render_is_pure<E: Element>(e: E, first: String, second: String)
    requires
        first@ == e.text(),
        second@ == e.text(),
    ensures
        first@ == second@,
{
}

/// The last write wins: setting the title twice leaves only the second title.
pub proof fn law_last_title_wins(p: PreambuleView, first: Seq<char>, second: Seq<char>)
    ensures
        ({
            let once = PreambuleView { title: Some(declaration("title"@, second)), ..p };
            let twice = PreambuleView {
                title: Some(declaration("title"@, second)),
                ..PreambuleView { title: Some(declaration("title"@, first)), ..p }
            };
            twice == once && preambule_text(twice) == preambule_text(once)
        }),
{
}

/// The last write wins: setting the author twice leaves only the second author.
pub proof fn law_last_author_wins(p: PreambuleView, first: Seq<char>, second: Seq<char>)
    ensures
        ({
            let once = PreambuleView { author: Some(declaration("author"@, second)), ..p };
            let twice = PreambuleView {
                author: Some(declaration("author"@, second)),
                ..PreambuleView { author: Some(declaration("author"@, first)), ..p }
            };
            twice == once && preambule_text(twice) == preambule_text(once)
        }),
{
}

/// The last write wins: setting the kind of document twice leaves only the second.
pub proof fn law_last_type_wins(p: PreambuleView, first: DocumentType, second: DocumentType)
    ensures
        ({
            let once = PreambuleView { kind: second, ..p };
            let twice = PreambuleView { kind: second, ..PreambuleView { kind: first, ..p } };
            twice == once && preambule_text(twice) == preambule_text(once)
        }),
{
}

/// Renders a node by its kind.
fn render_node(n: &Node) -> (r: String)
    ensures
        r@ == node_text(*n),
    decreases *n, 1int,
{
    match n {
        Node::Text(s) => s.clone(),
        Node::Macros(m) => {
            proof {
                lemma_macros_text(*m);
            }
            m.render()
        },
        Node::Parameter(p) => p.render(),
        Node::Area(a) => render_area(a),
        Node::Boxed(b) => render_boxed(b),
        Node::Preambule(p) => p.render(),
        Node::Document(d) => render_document(d),
    }
}

/// Renders the children of an area one after the other, with no separator.
fn render_area(a: &Area) -> (r: String)
    ensures
        r@ == area_text(*a),
    decreases *a, 1int,
{
    let mut r = String::new();
    let mut i: usize = 0;
    while i < a.objs.len()
        invariant
            0 <= i <= a.objs@.len(),
            r@ == nodes_prefix_text(a.objs@, i as int),
        decreases a.objs@.len() - i,
    {
        let t = render_node(&a.objs[i]);
        r.append(t.as_str());
        i = i + 1;
    }
    r
}

/// Renders the three regions of a boxed body, one line break between each.
fn render_boxed(b: &Boxed) -> (r: String)
    ensures
        r@ == boxed_text(*b),
    decreases *b, 1int,
{
    let mut r = render_area(&b.prep);
    r.append("\n");
    let middle = render_area(&b.middle);
    r.append(middle.as_str());
    r.append("\n");
    let after = render_area(&b.after);
    r.append(after.as_str());
    r
}

/// Renders the preamble, two line breaks, the body and a final line break.
fn render_document(d: &Document) -> (r: String)
    ensures
        r@ == doc_text(*d),
    decreases *d, 1int,
{
    let mut r = d.preambule.render();
    r.append("\n\n");
    let body = render_boxed(&d.body);
    r.append(body.as_str());
    r.append("\n");
    r
}

impl Area {
    fn push_node(&mut self, n: Node)
        ensures
            final(self)@ == old(self)@.push(node_text(n)),
    {
        self.objs.push(n);
        assert(final(self)@ =~= old(self)@.push(node_text(n)));
    }
}

impl Container for Area {
    open spec fn children(&self) -> Seq<Seq<char>> {
        self@
    }

    /// Appends `e` after the children already there.
    fn with<E: Element>(self, e: E) -> (r: Self)
        ensures
            r@ == self@.push(e.text()),
    {
        let mut a = self;
        a.push_node(e.into_node());
        a
    }
}

impl Container for Boxed {
    open spec fn children(&self) -> Seq<Seq<char>> {
        self@.middle
    }

    /// Appends `e` to the middle region; the first and last regions keep what
    /// they were built with.
    fn with<E: Element>(self, e: E) -> (r: Self)
        ensures
            r@ == (BoxedView { middle: self@.middle.push(e.text()), ..self@ }),
    {
        let mut b = self;
        b.middle = b.middle.with(e);
        b
    }
}

impl Container for Document {
    open spec fn children(&self) -> Seq<Seq<char>> {
        self@.body.middle
    }

    /// Appends `e` to the middle of the body.
    fn with<E: Element>(self, e: E) -> (r: Self)
        ensures
            r@ == (DocumentView {
                body: BoxedView { middle: self@.body.middle.push(e.text()), ..self@.body },
                ..self@
            }),
    {
        let mut d = self;
        d.body = d.body.with(e);
        d
    }
}

impl<'s> Element for Text<&'s str> {
    open spec fn text(&self) -> Seq<char> {
        self.0@
    }

    fn render(&self) -> (r: String) {
        self.0.to_owned()
    }

    fn into_node(self) -> (n: Node) {
        Node::Text(self.0.to_owned())
    }
}

impl Element for Text<String> {
    open spec fn text(&self) -> Seq<char> {
        self.0@
    }

    fn render(&self) -> (r: String) {
        self.0.clone()
    }

    fn into_node(self) -> (n: Node) {
        Node::Text(self.0)
    }
}

impl Element for Node {
    open spec fn text(&self) -> Seq<char> {
        node_text(*self)
    }

    fn render(&self) -> (r: String) {
        render_node(self)
    }

    fn into_node(self) -> (n: Node) {
        self
    }
}

impl Element for Area {
    open spec fn text(&self) -> Seq<char> {
        self@.flatten()
    }

    fn render(&self) -> (r: String) {
        proof {
            Area::lemma_text(*self);
        }
        render_area(self)
    }

    fn into_node(self) -> (n: Node) {
        proof {
            Area::lemma_text(self);
        }
        Node::Area(self)
    }
}

impl Element for Boxed {
    open spec fn text(&self) -> Seq<char> {
        boxed_view_text(self@)
    }

    fn render(&self) -> (r: String) {
        proof {
            Boxed::lemma_text(*self);
        }
        render_boxed(self)
    }

    fn into_node(self) -> (n: Node) {
        proof {
            Boxed::lemma_text(self);
        }
        Node::Boxed(self)
    }
}

impl Element for Preambule {
    open spec fn text(&self) -> Seq<char> {
        preambule_text(self@)
    }

    /// The class declaration, then the title and author lines that are set.
    fn render(&self) -> (r: String) {
        let mut r = String::new();
        r.append("\\documentclass{");
        r.append(self.kind.name());
        r.append("}");
        match &self.tittle {
            Some(t) => {
                r.append("\n");
                let line = t.render();
                r.append(line.as_str());
            },
            None => {},
        }
        match &self.author {
            Some(a) => {
                r.append("\n");
                let line = a.render();
                r.append(line.as_str());
            },
            None => {},
        }
        r
    }

    fn into_node(self) -> (n: Node) {
        Node::Preambule(self)
    }
}

impl Element for Document {
    open spec fn text(&self) -> Seq<char> {
        document_text(self@)
    }

    fn render(&self) -> (r: String) {
        proof {
            Document::lemma_text(*self);
        }
        render_document(self)
    }

    fn into_node(self) -> (n: Node) {
        proof {
            Document::lemma_text(self);
        }
        Node::Document(self)
    }
}

} // verus!
