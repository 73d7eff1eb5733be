//! The two capabilities shared by every kind of node.
use vstd::prelude::*;

use crate::document::{node_text, Node};

verus! {

/// A node that can produce its own markup text.
pub trait Element: Sized {
    /// The exact text that `render` produces for this node.
    spec fn text(&self) -> Seq<char>;

    /// Renders the node; rendering is pure, so a node renders the same every time.
    fn render(&self) -> (r: String)
        ensures
            r@ == self.text(),
    ;

    /// Moves the node into the closed set of node kinds that containers hold.
    fn into_node(self) -> (n: Node)
        ensures
            node_text(n) == self.text(),
    ;
}

/// A node that takes ownership of a child element and hands itself back.
pub trait Container: Sized {
    /// The rendered children, in the order in which they were added.
    spec fn children(&self) -> Seq<Seq<char>>;

    /// Takes `e` as the last child; appending always succeeds.
    fn with<E: Element>(self, e: E) -> (r: Self)
        ensures
            r.children() == self.children().push(e.text()),
    ;
}

} // verus!
