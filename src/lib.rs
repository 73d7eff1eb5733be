//! Builds LaTeX-like markup as a tree of elements and renders it to one string.
pub mod command;
pub mod document;
pub mod element;

pub use command::{IntoParameter, LaTeX, Macros, MacrosView, Parameter};
pub use document::{
    Area, Boxed, BoxedView, Document, DocumentType, DocumentView, Node, Preambule, PreambuleView,
    Text,
};
pub use element::{Container, Element};
