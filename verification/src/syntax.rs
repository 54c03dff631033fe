//! The syntax of an `impl` block, as far as weaving reads it.
//!
//! Everything that weaving only carries along is kept as verbatim source text.
//! Each type has a view in which the text is a sequence of characters.

use vstd::prelude::*;

verus! {

/// The brackets around the arguments of a list attribute.
#[derive(Clone, Copy, PartialEq, Eq, Debug, Structural)]
pub enum Delimiter {
    /// `( .. )`
    Paren,
    /// `{ .. }`
    Brace,
    /// `[ .. ]`
    Bracket,
}

/// Whether an attribute stands before its item or inside it.
#[derive(Clone, Copy, PartialEq, Eq, Debug, Structural)]
pub enum AttrStyle {
    /// `#[..]`
    Outer,
    /// `#![..]`
    Inner,
}

/// A place in the source: a line, counted from 1, and a column, counted from 0.
#[derive(Clone, Copy, PartialEq, Eq, Debug, Structural)]
pub struct LineColumn {
    pub line: usize,
    pub column: usize,
}

/// A stretch of the source, from where it starts to where it ends.
#[derive(Clone, Copy, PartialEq, Eq, Debug, Structural)]
pub struct Span {
    pub start: LineColumn,
    pub end: LineColumn,
}

/// The brackets around the arguments of a list attribute, with their place in the
/// source: the stretch from the opening bracket to the closing one.
#[derive(Clone, Copy, PartialEq, Eq, Debug, Structural)]
pub struct MacroDelimiter {
    pub kind: Delimiter,
    pub span: Span,
}

/// What follows the path of an attribute.
#[derive(Clone, Debug, PartialEq, Eq)]
pub enum Meta {
    /// Nothing, as in `#[name]`.
    Path,
    /// Delimited tokens, as in `#[name(a, b)]`.
    List { delimiter: MacroDelimiter, tokens: String },
    /// A value, as in `#[name = value]`.
    NameValue { value: String },
}

/// The view of a [`Meta`].
pub enum MetaView {
    Path,
    List { delimiter: MacroDelimiter, tokens: Seq<char> },
    NameValue { value: Seq<char> },
}

/// Tokens as a parser is given them: their text, and the place of the group in the source
/// where the tokens are one delimited group.
#[derive(Clone, Debug, PartialEq, Eq)]
pub struct Tokens {
    pub text: String,
    pub span: Option<Span>,
}

/// The view of [`Tokens`].
pub struct TokensView {
    pub text: Seq<char>,
    pub span: Option<Span>,
}

impl View for Tokens {
    type V = TokensView;

    open spec fn view(&self) -> TokensView {
        TokensView { text: self.text@, span: self.span }
    }
}

impl View for Meta {
    type V = MetaView;

    open spec fn view(&self) -> MetaView {
        match *self {
            Meta::Path => MetaView::Path,
            Meta::List { delimiter, tokens } => MetaView::List { delimiter, tokens: tokens@ },
            Meta::NameValue { value } => MetaView::NameValue { value: value@ },
        }
    }
}

/// A segment of a path: an identifier, and the generic or parenthesized arguments that
/// follow it, verbatim, if any do.
#[derive(Clone, Debug, PartialEq, Eq)]
pub struct PathSegment {
    pub ident: String,
    pub arguments: Option<String>,
}

/// The view of a [`PathSegment`].
pub struct PathSegmentView {
    pub ident: Seq<char>,
    pub arguments: Option<Seq<char>>,
}

impl View for PathSegment {
    type V = PathSegmentView;

    open spec fn view(&self) -> PathSegmentView {
        PathSegmentView {
            ident: self.ident@,
            arguments: match self.arguments {
                Some(text) => Some(text@),
                None => None,
            },
        }
    }
}

/// A path such as `inline` or `::tracing::instrument`.
#[derive(Clone, Debug, PartialEq, Eq)]
pub struct Path {
    /// Whether the path begins with `::`.
    pub leading_colon: bool,
    pub segments: Vec<PathSegment>,
}

/// The view of a [`Path`].
pub struct PathView {
    pub leading_colon: bool,
    pub segments: Seq<PathSegmentView>,
}

impl View for Path {
    type V = PathView;

    open spec fn view(&self) -> PathView {
        PathView {
            leading_colon: self.leading_colon,
            segments: self.segments@.map_values(|s: PathSegment| s@),
        }
    }
}

/// One attribute of an `impl` block or of a method.
#[derive(Clone, Debug, PartialEq, Eq)]
pub struct Attribute {
    pub style: AttrStyle,
    pub path: Path,
    pub meta: Meta,
}

/// The view of an [`Attribute`].
pub struct AttributeView {
    pub style: AttrStyle,
    pub path: PathView,
    pub meta: MetaView,
}

impl View for Attribute {
    type V = AttributeView;

    open spec fn view(&self) -> AttributeView {
        AttributeView { style: self.style, path: self.path@, meta: self.meta@ }
    }
}

/// The views of a sequence of attributes, in the same order.
pub open spec fn attribute_views(attrs: Seq<Attribute>) -> Seq<AttributeView> {
    attrs.map_values(|a: Attribute| a@)
}

/// A method of an `impl` block.
#[derive(Clone, Debug, PartialEq, Eq)]
pub struct Method {
    pub attrs: Vec<Attribute>,
    /// Visibility, qualifiers and signature, verbatim.
    pub signature: String,
    /// The name of the method.
    pub name: String,
    /// The body, braces included.
    pub block: String,
}

/// The view of a [`Method`].
pub struct MethodView {
    pub attrs: Seq<AttributeView>,
    pub signature: Seq<char>,
    pub name: Seq<char>,
    pub block: Seq<char>,
}

impl View for Method {
    type V = MethodView;

    open spec fn view(&self) -> MethodView {
        MethodView {
            attrs: attribute_views(self.attrs@),
            signature: self.signature@,
            name: self.name@,
            block: self.block@,
        }
    }
}

/// An item of an `impl` block.
#[derive(Clone, Debug, PartialEq, Eq)]
pub enum ImplItem {
    /// A method.
    Fn(Method),
    /// Any other item, verbatim with its attributes.
    Other(String),
}

/// The view of an [`ImplItem`].
pub enum ImplItemView {
    Fn(MethodView),
    Other(Seq<char>),
}

impl View for ImplItem {
    type V = ImplItemView;

    open spec fn view(&self) -> ImplItemView {
        match *self {
            ImplItem::Fn(method) => ImplItemView::Fn(method@),
            ImplItem::Other(text) => ImplItemView::Other(text@),
        }
    }
}

/// The views of a sequence of items, in the same order.
pub open spec fn item_views(items: Seq<ImplItem>) -> Seq<ImplItemView> {
    items.map_values(|i: ImplItem| i@)
}

/// An `impl` block.
#[derive(Clone, Debug, PartialEq, Eq)]
pub struct ImplBlock {
    pub attrs: Vec<Attribute>,
    /// The block without its attributes and items, verbatim.
    pub header: String,
    pub items: Vec<ImplItem>,
}

/// The view of an [`ImplBlock`].
pub struct ImplBlockView {
    pub attrs: Seq<AttributeView>,
    pub header: Seq<char>,
    pub items: Seq<ImplItemView>,
}

impl View for ImplBlock {
    type V = ImplBlockView;

    open spec fn view(&self) -> ImplBlockView {
        ImplBlockView {
            attrs: attribute_views(self.attrs@),
            header: self.header@,
            items: item_views(self.items@),
        }
    }
}

/// A failure of weaving: a message for the reader and the stretch of source it is about.
#[derive(Clone, Debug, PartialEq, Eq)]
pub struct WeaveError {
    pub message: String,
    pub span: Span,
}

/// The view of a [`WeaveError`].
pub struct WeaveErrorView {
    pub message: Seq<char>,
    pub span: Span,
}

impl View for WeaveError {
    type V = WeaveErrorView;

    open spec fn view(&self) -> WeaveErrorView {
        WeaveErrorView { message: self.message@, span: self.span }
    }
}

/// A result with its failure by its view.
pub open spec fn failure_view<T>(result: Result<T, WeaveError>) -> Result<T, WeaveErrorView> {
    match result {
        Ok(value) => Ok(value),
        Err(e) => Err(e@),
    }
}

} // verus!
