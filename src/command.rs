//! Commands (`\name{..}`) and their parameters.
use vstd::prelude::*;

use crate::document::{node_text, Node};
use crate::element::Element;

verus! {

/// The text of a command named `name` whose parameters render to `args`:
/// `\name` without parameters, else `\name{` and the parameters, with no
/// separator, and `}`.
pub open spec fn command_text(name: Seq<char>, args: Seq<Seq<char>>) -> Seq<char> {
    if args.len() == 0 {
        seq!['\\'] + name
    } else {
        seq!['\\'] + name + seq!['{'] + args.flatten() + seq!['}']
    }
}

/// The argument of a command: plain text, or a nested command.
pub enum Parameter {
    Literal(String),
    Macros(Macros),
}

/// The text of a parameter.
pub open spec fn parameter_text(p: Parameter) -> Seq<char>
    decreases p, 0int,
{
    match p {
        Parameter::Literal(s) => s@,
        Parameter::Macros(m) => macros_text(m),
    }
}

/// The concatenated text of the first `i` parameters of `ps`.
closed spec fn params_prefix_text(ps: Seq<Parameter>, i: int) -> Seq<char>
    decreases ps, i,
{
    if i <= 0 || i > ps.len() {
        Seq::empty()
    } else {
        params_prefix_text(ps, i - 1) + parameter_text(ps[i - 1])
    }
}

/// The text of a command; `lemma_macros_text` states it over the command's view.
pub closed spec fn macros_text(m: Macros) -> Seq<char>
    decreases m, 0int,
{
    if m.params@.len() == 0 {
        seq!['\\'] + m.m@
    } else {
        seq!['\\'] + m.m@ + seq!['{'] + params_prefix_text(m.params@, m.params@.len() as int)
            + seq!['}']
    }
}

/// The rendered texts of a sequence of parameters.
pub open spec fn args_of(ps: Seq<Parameter>) -> Seq<Seq<char>> {
    Seq::new(ps.len(), |i: int| parameter_text(ps[i]))
}

/// A named command with its ordered parameters.
pub struct Macros {
    m: String,
    params: Vec<Parameter>,
}

/// What a command is made of: its name and the text of each parameter, in order.
pub struct MacrosView {
    pub name: Seq<char>,
    pub args: Seq<Seq<char>>,
}

impl View for Macros {
    type V = MacrosView;

    closed spec fn view(&self) -> MacrosView {
        MacrosView { name: self.m@, args: args_of(self.params@) }
    }
}

proof fn lemma_params_prefix_text(ps: Seq<Parameter>, i: int)
    requires
        0 <= i <= ps.len(),
    ensures
        params_prefix_text(ps, i) == args_of(ps).take(i).flatten(),
    decreases i,
{
    if i > 0 {
        lemma_params_prefix_text(ps, i - 1);
        assert(args_of(ps).take(i) =~= args_of(ps).take(i - 1).push(parameter_text(ps[i - 1])));
        args_of(ps).take(i - 1).lemma_flatten_push(parameter_text(ps[i - 1]));
    } else {
        assert(args_of(ps).take(i) =~= Seq::<Seq<char>>::empty());
    }
}

/// The text of a command is fixed by its name and the texts of its parameters.
pub proof fn lemma_macros_text(m: Macros)
    ensures
        macros_text(m) == command_text(m@.name, m@.args),
{
    let ps = m.params@;
    lemma_params_prefix_text(ps, ps.len() as int);
    assert(args_of(ps).take(ps.len() as int) =~= args_of(ps));
}

impl Macros {
    /// A command named `m`, without parameters.
    pub fn new(m: &str) -> (r: Self)
        ensures
            r@.name == m@,
            r@.args == Seq::<Seq<char>>::empty(),
    {
        let r = Macros { m: m.to_owned(), params: Vec::new() };
        assert(r@.args =~= Seq::<Seq<char>>::empty());
        r
    }

    /// Appends one parameter after those already given.
    pub fn param<P: IntoParameter>(self, parameter: P) -> (r: Self)
        ensures
            r@.name == self@.name,
            r@.args == self@.args.push(parameter.arg_text()),
    {
        let mut s = self;
        let p = parameter.into_parameter();
        let ghost old_params = s.params@;
        s.params.push(p);
        assert(s@.args =~= args_of(old_params).push(parameter_text(p)));
        s
    }
}

/// A command named `LaTeX`, without parameters.
#[allow(non_snake_case)]
pub fn LaTeX() -> (r: Macros)
    ensures
        r@.name == "LaTeX"@,
        r@.args == Seq::<Seq<char>>::empty(),
{
    Macros::new("LaTeX")
}

/// A command without parameters renders as `\name`, with no braces; one with
/// any number of parameters renders its parameters inside one pair of braces.
pub proof fn law_braces_only_with_parameters(m: Macros)
    ensures
        m@.args.len() == 0 ==> m.text() == seq!['\\'] + m@.name,
        m@.args.len() > 0 ==> m.text() == seq!['\\'] + m@.name + seq!['{'] + m@.args.flatten()
            + seq!['}'],
{
}

/// How many times `c` occurs in `s`.
pub open spec fn occurrences(s: Seq<char>, c: char) -> nat
    decreases s.len(),
{
    if s.len() == 0 {
        0
    } else {
        occurrences(s.drop_last(), c) + if s.last() == c {
            1nat
        } else {
            0nat
        }
    }
}

proof fn lemma_occurrences_add(a: Seq<char>, b: Seq<char>, c: char)
    ensures
        occurrences(a + b, c) == occurrences(a, c) + occurrences(b, c),
    decreases b.len(),
{
    if b.len() == 0 {
        assert(a + b =~= a);
    } else {
        assert((a + b).drop_last() =~= a + b.drop_last());
        lemma_occurrences_add(a, b.drop_last(), c);
    }
}

proof fn lemma_occurrences_flatten(ts: Seq<Seq<char>>, c: char)
    requires
        forall|i: int| 0 <= i < ts.len() ==> occurrences(#[trigger] ts[i], c) == 0,
    ensures
        occurrences(ts.flatten(), c) == 0,
    decreases ts.len(),
{
    if ts.len() > 0 {
        assert forall|i: int| 0 <= i < ts.drop_first().len() implies occurrences(
            #[trigger] ts.drop_first()[i],
            c,
        ) == 0 by {
            assert(ts.drop_first()[i] == ts[i + 1]);
        }
        lemma_occurrences_flatten(ts.drop_first(), c);
        lemma_occurrences_add(ts.first(), ts.drop_first().flatten(), c);
    }
}

proof fn lemma_occurrences_of_one(x: char, c: char)
    ensures
        occurrences(seq![x], c) == if x == c {
            1nat
        } else {
            0nat
        },
{
    assert(seq![x].drop_last() =~= Seq::<char>::empty());
    assert(occurrences(Seq::<char>::empty(), c) == 0);
}

/// Braces come from parameters alone: where the name and the parameters hold
/// no brace, a command without parameters renders with none, and one with
/// any number of parameters with exactly one `{` and one `}`.
pub proof fn law_one_brace_pair(m: Macros)
    requires
        occurrences(m@.name, '{') == 0,
        occurrences(m@.name, '}') == 0,
        forall|i: int|
            0 <= i < m@.args.len() ==> occurrences(#[trigger] m@.args[i], '{') == 0
                && occurrences(m@.args[i], '}') == 0,
    ensures
        m@.args.len() == 0 ==> occurrences(m.text(), '{') == 0 && occurrences(m.text(), '}') == 0,
        m@.args.len() > 0 ==> occurrences(m.text(), '{') == 1 && occurrences(m.text(), '}') == 1,
{
    let name = m@.name;
    let args = m@.args;
    lemma_occurrences_of_one('\\', '{');
    lemma_occurrences_of_one('\\', '}');
    lemma_occurrences_of_one('{', '{');
    lemma_occurrences_of_one('{', '}');
    lemma_occurrences_of_one('}', '{');
    lemma_occurrences_of_one('}', '}');
    lemma_occurrences_add(seq!['\\'], name, '{');
    lemma_occurrences_add(seq!['\\'], name, '}');
    if args.len() > 0 {
        lemma_occurrences_flatten(args, '{');
        lemma_occurrences_flatten(args, '}');
        let a = seq!['\\'] + name;
        let b = a + seq!['{'];
        let c = b + args.flatten();
        lemma_occurrences_add(a, seq!['{'], '{');
        lemma_occurrences_add(a, seq!['{'], '}');
        lemma_occurrences_add(b, args.flatten(), '{');
        lemma_occurrences_add(b, args.flatten(), '}');
        lemma_occurrences_add(c, seq!['}'], '{');
        lemma_occurrences_add(c, seq!['}'], '}');
    }
}

/// Parameters are written one after the other with no separator: two
/// parameters with texts `a` and `b` give `\name{ab}`.
pub proof fn law_no_parameter_separator(m: Macros, a: Seq<char>, b: Seq<char>)
    requires
        m@.args == seq![a, b],
    ensures
        m.text() == seq!['\\'] + m@.name + seq!['{'] + a + b + seq!['}'],
{
    assert(seq![a, b].drop_first() =~= seq![b]);
    seq![b].lemma_flatten_one_element();
    assert(seq![a, b].flatten() =~= a + b);
}

/// Renders a parameter: its text, or the nested command.
fn render_parameter(p: &Parameter) -> (r: String)
    ensures
        r@ == parameter_text(*p),
    decreases *p, 0int,
{
    match p {
        Parameter::Literal(s) => s.clone(),
        Parameter::Macros(m) => render_macros(m),
    }
}

/// Renders a command: `\name`, then the braced parameters if there are any.
fn render_macros(m: &Macros) -> (r: String)
    ensures
        r@ == macros_text(*m),
    decreases *m, 1int,
{
    let mut r = String::new();
    r.append("\\");
    r.append(m.m.as_str());
    if m.params.len() == 0 {
        proof {
            reveal_strlit("\\");
        }
        assert(r@ =~= macros_text(*m));
        return r;
    }
    r.append("{");
    let ghost head = r@;
    let mut i: usize = 0;
    while i < m.params.len()
        invariant
            0 <= i <= m.params@.len(),
            r@ == head + params_prefix_text(m.params@, i as int),
        decreases m.params@.len() - i,
    {
        let t = render_parameter(&m.params[i]);
        r.append(t.as_str());
        i = i + 1;
        assert(r@ =~= head + params_prefix_text(m.params@, i as int));
    }
    r.append("}");
    proof {
        reveal_strlit("\\");
        reveal_strlit("{");
        reveal_strlit("}");
    }
    assert(r@ =~= macros_text(*m));
    r
}

/// A value that can stand as a command parameter: text becomes a literal
/// parameter, a command a nested one.
pub trait IntoParameter: Sized {
    /// The text of the parameter that the value becomes.
    spec fn arg_text(&self) -> Seq<char>;

    fn into_parameter(self) -> (r: Parameter)
        ensures
            parameter_text(r) == self.arg_text(),
    ;
}

impl<'s> IntoParameter for &'s str {
    open spec fn arg_text(&self) -> Seq<char> {
        self@
    }

    fn into_parameter(self) -> (r: Parameter) {
        Parameter::Literal(self.to_owned())
    }
}

impl IntoParameter for String {
    open spec fn arg_text(&self) -> Seq<char> {
        self@
    }

    fn into_parameter(self) -> (r: Parameter) {
        Parameter::Literal(self)
    }
}

impl IntoParameter for Macros {
    open spec fn arg_text(&self) -> Seq<char> {
        command_text(self@.name, self@.args)
    }

    fn into_parameter(self) -> (r: Parameter) {
        proof {
            lemma_macros_text(self);
        }
        Parameter::Macros(self)
    }
}

impl IntoParameter for Parameter {
    open spec fn arg_text(&self) -> Seq<char> {
        parameter_text(*self)
    }

    fn into_parameter(self) -> (r: Parameter) {
        self
    }
}

impl Element for Parameter {
    open spec fn text(&self) -> Seq<char> {
        parameter_text(*self)
    }

    fn render(&self) -> (r: String) {
        render_parameter(self)
    }

    fn into_node(self) -> (n: Node) {
        Node::Parameter(self)
    }
}

impl Element for Macros {
    open spec fn text(&self) -> Seq<char> {
        command_text(self@.name, self@.args)
    }

    fn render(&self) -> (r: String) {
        proof {
            lemma_macros_text(*self);
        }
        render_macros(self)
    }

    fn into_node(self) -> (n: Node) {
        proof {
            lemma_macros_text(self);
        }
        Node::Macros(self)
    }
}

} // verus!
