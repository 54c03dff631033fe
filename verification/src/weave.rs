//! Weaving an `impl` block: the body of each method that carries an intercepted attribute
//! is rewritten, and the intercepted attributes are taken out of the block.

use crate::syntax::{
    attribute_views, failure_view, item_views, Attribute, AttributeView, Delimiter, ImplBlock,
    ImplBlockView, ImplItem, ImplItemView, MacroDelimiter, Meta, MetaView, Method, MethodView,
    Path, PathView, Tokens, TokensView, WeaveError, WeaveErrorView,
};
use crate::shared::{share_all, values};
use crate::woven_fns::{record, WovenFns};
use std::rc::Rc;
use vstd::prelude::*;

verus! {

/// Whether a path is the identifier `name` and nothing else: it has no leading colons and
/// one segment, that segment has no arguments, and its identifier is `name`.
pub open spec fn path_is_ident(path: PathView, name: Seq<char>) -> bool {
    &&& !path.leading_colon
    &&& path.segments.len() == 1
    &&& path.segments[0].arguments is None
    &&& path.segments[0].ident == name
}

/// Whether an attribute is one of those that a weaver with this attribute name intercepts:
/// its path is the name and nothing else.
pub open spec fn recognizes(name: Seq<char>, attr: AttributeView) -> bool {
    path_is_ident(attr.path, name)
}

/// Tells whether a path is the identifier `name` and nothing else.
pub fn is_ident(path: &Path, name: &String) -> (is: bool)
    ensures
        is == path_is_ident(path@, name@),
{
    if path.leading_colon || path.segments.len() != 1 {
        return false;
    }
    let segment = &path.segments[0];
    assert(path@.segments[0] == segment@);
    segment.arguments.is_none() && segment.ident == *name
}

/// The intercepted attributes among `attrs`, in their order.
pub open spec fn ours(name: Seq<char>, attrs: Seq<AttributeView>) -> Seq<AttributeView> {
    attrs.filter(|a: AttributeView| recognizes(name, a))
}

/// The attributes among `attrs` that are not intercepted, in their order.
pub open spec fn theirs(name: Seq<char>, attrs: Seq<AttributeView>) -> Seq<AttributeView> {
    attrs.filter(|a: AttributeView| !recognizes(name, a))
}

/// The opening bracket of a delimiter.
pub open spec fn opening(delimiter: Delimiter) -> char {
    match delimiter {
        Delimiter::Paren => '(',
        Delimiter::Brace => '{',
        Delimiter::Bracket => '[',
    }
}

/// The closing bracket of a delimiter.
pub open spec fn closing(delimiter: Delimiter) -> char {
    match delimiter {
        Delimiter::Paren => ')',
        Delimiter::Brace => '}',
        Delimiter::Bracket => ']',
    }
}

/// `inner` between the brackets of `delimiter`.
pub open spec fn surrounded(delimiter: Delimiter, inner: Seq<char>) -> Seq<char> {
    seq![opening(delimiter)] + inner + seq![closing(delimiter)]
}

/// The tokens that the attribute parser is given for an attribute: nothing for a bare path,
/// the delimited list for a list, and `= value` for a name with a value. The group of a
/// list stands where the attribute's brackets stand, from the opening one to the closing
/// one.
pub open spec fn attribute_tokens(meta: MetaView) -> TokensView {
    match meta {
        MetaView::Path => TokensView { text: Seq::empty(), span: None },
        MetaView::List { delimiter, tokens } => TokensView {
            text: surrounded(delimiter.kind, tokens),
            span: Some(delimiter.span),
        },
        MetaView::NameValue { value } => TokensView { text: seq!['=', ' '] + value, span: None },
    }
}

/// What a weaver supplies: the attribute it intercepts, the parsers of its attributes, and
/// the rewriting of a method's body.
///
/// Each method is taken to be a function of its arguments, and the spec function beside
/// it names that function: weaving is stated over these names. A weaver that is verified
/// gives each spec function its body and proves its methods against it; for any other
/// weaver the names stand for whatever its methods compute.
pub trait Weave {
    /// The arguments of the macro attribute that triggers the weaving, parsed.
    type MacroAttributes;

    /// An intercepted attribute, parsed.
    type Type;

    /// What `fn_attr_name` returns.
    open spec fn attr_name() -> Seq<char> {
        arbitrary()
    }

    /// What `parse_macro_attributes` returns for `attrs`.
    open spec fn parsed_macro_attributes(attrs: Seq<char>) -> Result<
        Self::MacroAttributes,
        WeaveErrorView,
    > {
        arbitrary()
    }

    /// What `parse_attributes` returns for `tokens`.
    open spec fn parsed_attributes(tokens: TokensView) -> Result<Self::Type, WeaveErrorView> {
        arbitrary()
    }

    /// What `update_fn_block` returns for a method, the macro attributes and an attribute list.
    open spec fn updated_fn_block(
        fn_def: MethodView,
        main_attr: Self::MacroAttributes,
        fn_attr: Seq<Self::Type>,
    ) -> Result<Seq<char>, WeaveErrorView> {
        arbitrary()
    }

    /// The name of the attribute to intercept.
    fn fn_attr_name() -> (name: &'static str)
        ensures
            name@ == Self::attr_name(),
    ;

    /// Parses the arguments of the macro attribute that triggers the weaving.
    fn parse_macro_attributes(attrs: &str) -> (parsed: Result<Self::MacroAttributes, WeaveError>)
        ensures
            failure_view(parsed) == Self::parsed_macro_attributes(attrs@),
    ;

    /// Parses the tokens of one intercepted attribute.
    fn parse_attributes(tokens: &Tokens) -> (parsed: Result<Self::Type, WeaveError>)
        ensures
            failure_view(parsed) == Self::parsed_attributes(tokens@),
    ;

    /// Gives the new body of an intercepted method.
    fn update_fn_block(
        fn_def: &Method,
        main_attr: &Self::MacroAttributes,
        fn_attr: &[Rc<Self::Type>],
    ) -> (block: Result<String, WeaveError>)
        ensures
            block_view(block) == Self::updated_fn_block(fn_def@, *main_attr, values(fn_attr@)),
    ;
}

/// The outcome of rewriting a body, the body and the failure by their views.
pub open spec fn block_view(block: Result<String, WeaveError>) -> Result<
    Seq<char>,
    WeaveErrorView,
> {
    match block {
        Ok(text) => Ok(text@),
        Err(e) => Err(e@),
    }
}

/// The attributes of `attrs` parsed one after the other; the first failure ends it.
pub open spec fn parse_all<W: Weave>(attrs: Seq<AttributeView>) -> Result<
    Seq<W::Type>,
    WeaveErrorView,
>
    decreases attrs.len(),
{
    if attrs.len() == 0 {
        Ok(Seq::empty())
    } else {
        match parse_all::<W>(attrs.drop_last()) {
            Err(e) => Err(e),
            Ok(parsed) => match W::parsed_attributes(attribute_tokens(attrs.last().meta)) {
                Err(e) => Err(e),
                Ok(value) => Ok(parsed.push(value)),
            },
        }
    }
}

/// A failure among the first attributes is the failure of the whole sequence.
pub proof fn parse_all_fails_early<W: Weave>(attrs: Seq<AttributeView>, n: int)
    requires
        0 <= n <= attrs.len(),
        parse_all::<W>(attrs.take(n)) is Err,
    ensures
        parse_all::<W>(attrs) == parse_all::<W>(attrs.take(n)),
    decreases attrs.len(),
{
    if n < attrs.len() {
        assert(attrs.drop_last().take(n) == attrs.take(n));
        parse_all_fails_early::<W>(attrs.drop_last(), n);
    } else {
        assert(attrs.take(n) == attrs);
    }
}

/// Filtering a sequence with one more element.
proof fn filter_push<A>(s: Seq<A>, a: A, pred: spec_fn(A) -> bool)
    ensures
        s.push(a).filter(pred) == if pred(a) {
            s.filter(pred).push(a)
        } else {
            s.filter(pred)
        },
{
    reveal(Seq::filter);
    assert(s.push(a).drop_last() == s);
}

/// Appends `inner` between the brackets of `delim` to `tokens`, as one group that stands
/// where the brackets stand in the source.
pub fn surround(delim: &MacroDelimiter, tokens: &mut Tokens, inner: &str)
    ensures
        final(tokens)@ == (TokensView {
            text: old(tokens)@.text + surrounded(delim.kind, inner@),
            span: Some(delim.span),
        }),
{
    proof {
        reveal_strlit("(");
        reveal_strlit(")");
        reveal_strlit("{");
        reveal_strlit("}");
        reveal_strlit("[");
        reveal_strlit("]");
    }
    let (open, close) = match delim.kind {
        Delimiter::Paren => ("(", ")"),
        Delimiter::Brace => ("{", "}"),
        Delimiter::Bracket => ("[", "]"),
    };
    assert(open@ == seq![opening(delim.kind)]);
    assert(close@ == seq![closing(delim.kind)]);
    tokens.text.append(open);
    tokens.text.append(inner);
    tokens.text.append(close);
    tokens.span = Some(delim.span);
    assert(tokens@.text == old(tokens)@.text + surrounded(delim.kind, inner@));
}

/// The tokens that the attribute parser is given for `meta`.
pub fn tokens_of(meta: &Meta) -> (tokens: Tokens)
    ensures
        tokens@ == attribute_tokens(meta@),
{
    let mut tokens = Tokens { text: String::new(), span: None };
    match meta {
        Meta::Path => {},
        Meta::List { delimiter, tokens: inner } => {
            surround(delimiter, &mut tokens, inner.as_str());
            assert(tokens@.text == surrounded(delimiter.kind, inner@));
        },
        Meta::NameValue { value } => {
            proof {
                reveal_strlit("= ");
            }
            assert("= "@ == seq!['=', ' ']);
            tokens.text.append("= ");
            tokens.text.append(value.as_str());
        },
    }
    tokens
}

/// Takes the intercepted attributes out of `attrs` and parses them, in their order.
///
/// The attributes that are not intercepted stay in `attrs`, whether the parsing succeeds
/// or not.
pub fn process_custom_attributes<W: Weave>(attrs: &mut Vec<Attribute>) -> (parsed: Result<
    Vec<Rc<W::Type>>,
    WeaveError,
>)
    ensures
        attribute_views(final(attrs)@) == theirs(W::attr_name(), attribute_views(old(attrs)@)),
        match parse_all::<W>(ours(W::attr_name(), attribute_views(old(attrs)@))) {
            Ok(list) => parsed matches Ok(l) && values(l@) == list,
            Err(e) => parsed matches Err(x) && x@ == e,
        },
{
    let name = String::from_str(W::fn_attr_name());
    let ghost all = attribute_views(attrs@);
    let ghost name_view = W::attr_name();
    let mut taken: Vec<Attribute> = Vec::new();
    std::mem::swap(attrs, &mut taken);
    let ghost source = taken@;
    let mut intercepted: Vec<Attribute> = Vec::new();
    let mut others: Vec<Attribute> = Vec::new();
    for attr in it: taken
        invariant
            it.seq() == source,
            all == attribute_views(source),
            name@ == name_view,
            attribute_views(intercepted@) == ours(name_view, all.take(it.index() as int)),
            attribute_views(others@) == theirs(name_view, all.take(it.index() as int)),
    {
        proof {
            let done = all.take(it.index() as int);
            assert(all.take(it.index() + 1) == done.push(attr@));
            filter_push(done, attr@, |a: AttributeView| recognizes(name_view, a));
            filter_push(done, attr@, |a: AttributeView| !recognizes(name_view, a));
            assert(attribute_views(intercepted@.push(attr)) == attribute_views(intercepted@).push(
                attr@,
            ));
            assert(attribute_views(others@.push(attr)) == attribute_views(others@).push(attr@));
        }
        if is_ident(&attr.path, &name) {
            intercepted.push(attr);
        } else {
            others.push(attr);
        }
    }
    assert(all.take(source.len() as int) == all);
    *attrs = others;

    let ghost wanted = ours(name_view, all);
    let ghost held = intercepted@;
    let mut fn_attributes: Vec<Rc<W::Type>> = Vec::new();
    assert(wanted.take(0).len() == 0);
    assert(values(fn_attributes@) == Seq::<W::Type>::empty());
    for attr in it: intercepted
        invariant
            it.seq() == held,
            wanted == attribute_views(held),
            wanted == ours(W::attr_name(), attribute_views(old(attrs)@)),
            attribute_views(attrs@) == theirs(W::attr_name(), attribute_views(old(attrs)@)),
            parse_all::<W>(wanted.take(it.index() as int)) == Ok::<Seq<W::Type>, WeaveErrorView>(
                values(fn_attributes@),
            ),
    {
        let tokens = tokens_of(&attr.meta);
        proof {
            assert(wanted.take(it.index() + 1).drop_last() == wanted.take(it.index() as int));
            assert(wanted.take(it.index() + 1).last() == attr@);
        }
        match W::parse_attributes(&tokens) {
            Ok(value) => {
                let shared = Rc::new(value);
                proof {
                    assert(values(fn_attributes@.push(shared)) == values(fn_attributes@).push(
                        value,
                    ));
                }
                fn_attributes.push(shared);
            },
            Err(e) => {
                proof {
                    parse_all_fails_early::<W>(wanted, it.index() + 1);
                }
                return Err(e);
            },
        }
    }
    assert(wanted.take(held.len() as int) == wanted);
    Ok(fn_attributes)
}

/// What weaving makes of one method, and the attribute list it was woven with.
///
/// A method without an intercepted attribute stays as it is. Any other method loses its
/// intercepted attributes and gets the body that the weaver gives for it; the weaver sees
/// the method without those attributes, and the attributes of the block before the
/// method's own.
pub open spec fn woven_method<W: Weave>(
    method: MethodView,
    main_attr: W::MacroAttributes,
    block_attrs: Seq<W::Type>,
) -> Result<(MethodView, Option<Seq<W::Type>>), WeaveErrorView> {
    match parse_all::<W>(ours(W::attr_name(), method.attrs)) {
        Err(e) => Err(e),
        Ok(own) => if own.len() == 0 {
            Ok((method, None))
        } else {
            let stripped = MethodView { attrs: theirs(W::attr_name(), method.attrs), ..method };
            let list = block_attrs + own;
            match W::updated_fn_block(stripped, main_attr, list) {
                Err(e) => Err(e),
                Ok(block) => Ok((MethodView { block, ..stripped }, Some(list))),
            }
        },
    }
}

/// What weaving makes of the items of a block, one after the other, and the attribute lists
/// recorded under the names of the woven methods; the first failure ends it.
pub open spec fn woven_items<W: Weave>(
    items: Seq<ImplItemView>,
    main_attr: W::MacroAttributes,
    block_attrs: Seq<W::Type>,
) -> Result<(Seq<ImplItemView>, Seq<(Seq<char>, Seq<W::Type>)>), WeaveErrorView>
    decreases items.len(),
{
    if items.len() == 0 {
        Ok((Seq::empty(), Seq::empty()))
    } else {
        match woven_items::<W>(items.drop_last(), main_attr, block_attrs) {
            Err(e) => Err(e),
            Ok((done, fns)) => match items.last() {
                ImplItemView::Other(text) => Ok((done.push(ImplItemView::Other(text)), fns)),
                ImplItemView::Fn(method) => match woven_method::<W>(
                    method,
                    main_attr,
                    block_attrs,
                ) {
                    Err(e) => Err(e),
                    Ok((woven, None)) => Ok((done.push(ImplItemView::Fn(woven)), fns)),
                    Ok((woven, Some(list))) => Ok(
                        (done.push(ImplItemView::Fn(woven)), record(fns, method.name, list)),
                    ),
                },
            },
        }
    }
}

/// The view of a [`WovenImplBlock`].
pub struct WovenView<M, F> {
    pub woven_block: ImplBlockView,
    pub main_attributes: M,
    pub woven_fns: Seq<(Seq<char>, Seq<F>)>,
}

/// What weaving makes of a block under the macro arguments `attrs`.
///
/// The macro arguments are parsed first, then the intercepted attributes of the block, then
/// the items in their order; the first failure is the result.
pub open spec fn woven<W: Weave>(attrs: Seq<char>, block: ImplBlockView) -> Result<
    WovenView<W::MacroAttributes, W::Type>,
    WeaveErrorView,
> {
    match W::parsed_macro_attributes(attrs) {
        Err(e) => Err(e),
        Ok(main_attributes) => match parse_all::<W>(ours(W::attr_name(), block.attrs)) {
            Err(e) => Err(e),
            Ok(block_attrs) => match woven_items::<W>(block.items, main_attributes, block_attrs) {
                Err(e) => Err(e),
                Ok((items, woven_fns)) => Ok(
                    WovenView {
                        woven_block: ImplBlockView {
                            attrs: theirs(W::attr_name(), block.attrs),
                            header: block.header,
                            items,
                        },
                        main_attributes,
                        woven_fns,
                    },
                ),
            },
        },
    }
}

/// A failure among the first items is the failure of the whole sequence.
pub proof fn woven_items_fails_early<W: Weave>(
    items: Seq<ImplItemView>,
    main_attr: W::MacroAttributes,
    block_attrs: Seq<W::Type>,
    n: int,
)
    requires
        0 <= n <= items.len(),
        woven_items::<W>(items.take(n), main_attr, block_attrs) is Err,
    ensures
        woven_items::<W>(items, main_attr, block_attrs) == woven_items::<W>(
            items.take(n),
            main_attr,
            block_attrs,
        ),
    decreases items.len(),
{
    if n < items.len() {
        assert(items.drop_last().take(n) == items.take(n));
        woven_items_fails_early::<W>(items.drop_last(), main_attr, block_attrs, n);
    } else {
        assert(items.take(n) == items);
    }
}

/// An `impl` block after weaving.
pub struct WovenImplBlock<M, F> {
    /// The block with the new bodies and without the intercepted attributes.
    pub woven_block: ImplBlock,
    /// The arguments of the macro attribute.
    pub main_attributes: M,
    /// The woven methods with the attributes they were woven with.
    pub woven_fns: WovenFns<F>,
}

impl<M, F> View for WovenImplBlock<M, F> {
    type V = WovenView<M, F>;

    open spec fn view(&self) -> WovenView<M, F> {
        WovenView {
            woven_block: self.woven_block@,
            main_attributes: self.main_attributes,
            woven_fns: self.woven_fns.entries(),
        }
    }
}

/// Weaves one method in place; gives the attribute list it was woven with, if it was woven.
fn weave_method<W: Weave>(
    method: &mut Method,
    main_attr: &W::MacroAttributes,
    block_attrs: &Vec<Rc<W::Type>>,
) -> (woven: Result<Option<Vec<Rc<W::Type>>>, WeaveError>)
    ensures
        final(method).name == old(method).name,
        match woven_method::<W>(old(method)@, *main_attr, values(block_attrs@)) {
            Ok((after, None)) => woven matches Ok(None) && final(method)@ == after,
            Ok((after, Some(list))) => woven matches Ok(Some(l)) && values(l@) == list
                && final(method)@ == after,
            Err(e) => woven matches Err(x) && x@ == e,
        },
{
    let ghost before = method@;
    let method_attrs = process_custom_attributes::<W>(&mut method.attrs)?;
    if method_attrs.len() == 0 {
        proof {
            nothing_ours_all_theirs(W::attr_name(), before.attrs);
        }
        return Ok(None);
    }
    let mut method_attrs = method_attrs;
    let mut fn_attributes = share_all(block_attrs);
    let ghost own = method_attrs@;
    fn_attributes.append(&mut method_attrs);
    assert(values(fn_attributes@) == values(block_attrs@) + values(own));
    let block = W::update_fn_block(method, main_attr, fn_attributes.as_slice())?;
    method.block = block;
    Ok(Some(fn_attributes))
}

/// Where no attribute is intercepted, all attributes stay.
pub proof fn nothing_ours_all_theirs(name: Seq<char>, attrs: Seq<AttributeView>)
    requires
        ours(name, attrs).len() == 0,
    ensures
        theirs(name, attrs) == attrs,
    decreases attrs.len(),
{
    reveal(Seq::filter);
    if attrs.len() != 0 {
        nothing_ours_all_theirs(name, attrs.drop_last());
        assert(attrs.drop_last().push(attrs.last()) == attrs);
    }
}

/// The outcome of parsing a block, the block by its view.
pub open spec fn parsed_view(item: Result<ImplBlock, WeaveError>) -> Result<
    ImplBlockView,
    WeaveErrorView,
> {
    match item {
        Ok(block) => Ok(block@),
        Err(e) => Err(e@),
    }
}

/// What weaving makes of the outcome of parsing a block, under the macro arguments
/// `attrs`: malformed macro arguments fail first, then a malformed block, then the weaving
/// of the block as [`woven`] says.
pub open spec fn woven_parsed<W: Weave>(
    attrs: Seq<char>,
    item: Result<ImplBlockView, WeaveErrorView>,
) -> Result<WovenView<W::MacroAttributes, W::Type>, WeaveErrorView> {
    match W::parsed_macro_attributes(attrs) {
        Err(e) => Err(e),
        Ok(_) => match item {
            Err(e) => Err(e),
            Ok(block) => woven::<W>(attrs, block),
        },
    }
}

/// Weaves an `impl` block.
///
/// `attrs` holds the arguments of the macro attribute that triggers the weaving, `item`
/// what the parser made of the annotated block. The result is what [`woven_parsed`]
/// says: the block without the intercepted attributes and with the new bodies, the
/// parsed arguments, and the attribute list of each woven method; or the first failure,
/// and then nothing else.
pub fn weave_impl_block<W: Weave>(attrs: &str, item: Result<ImplBlock, WeaveError>) -> (result:
    Result<WovenImplBlock<W::MacroAttributes, W::Type>, WeaveError>)
    ensures
        match woven_parsed::<W>(attrs@, parsed_view(item)) {
            Ok(view) => result matches Ok(w) && w@ == view && w.woven_fns.wf(),
            Err(e) => result matches Err(x) && x@ == e,
        },
{
    let main_attributes = W::parse_macro_attributes(attrs)?;

    let block = item?;
    let ghost source_block = block@;
    let mut parsed_input = block;
    let main_extra_attributes = process_custom_attributes::<W>(&mut parsed_input.attrs)?;

    let mut woven_fns: WovenFns<W::Type> = WovenFns::new();
    let ghost source = source_block.items;
    let ghost block_attrs = values(main_extra_attributes@);
    let n = parsed_input.items.len();
    let mut i: usize = 0;
    assert(source.take(0) == Seq::<ImplItemView>::empty());
    assert(item_views(parsed_input.items@).take(0) == Seq::<ImplItemView>::empty());
    while i < n
        invariant
            i <= n,
            parsed_view(item) == Ok::<ImplBlockView, WeaveErrorView>(source_block),
            n == parsed_input.items@.len(),
            n == source.len(),
            source == source_block.items,
            block_attrs == values(main_extra_attributes@),
            woven_fns.wf(),
            W::parsed_macro_attributes(attrs@) == Ok::<W::MacroAttributes, WeaveErrorView>(
                main_attributes,
            ),
            parse_all::<W>(ours(W::attr_name(), source_block.attrs)) == Ok::<
                Seq<W::Type>,
                WeaveErrorView,
            >(block_attrs),
            item_views(parsed_input.items@).skip(i as int) == source.skip(i as int),
            woven_items::<W>(source.take(i as int), main_attributes, block_attrs) == Ok::<
                (Seq<ImplItemView>, Seq<(Seq<char>, Seq<W::Type>)>),
                WeaveErrorView,
            >((item_views(parsed_input.items@).take(i as int), woven_fns.entries())),
            parsed_input.header@ == source_block.header,
            attribute_views(parsed_input.attrs@) == theirs(W::attr_name(), source_block.attrs),
        decreases n - i,
    {
        let ghost items_before = item_views(parsed_input.items@);
        let ghost fns_before = woven_fns.entries();
        proof {
            assert(source.take(i + 1).drop_last() == source.take(i as int));
            assert(source.take(i + 1).last() == source[i as int]);
            assert(items_before[i as int] == items_before.skip(i as int)[0]);
            assert(source[i as int] == source.skip(i as int)[0]);
        }
        let mut recorded: Option<(String, Vec<Rc<W::Type>>)> = None;
        match &mut parsed_input.items[i] {
            ImplItem::Fn(item_fn) => {
                match weave_method::<W>(item_fn, &main_attributes, &main_extra_attributes) {
                    Ok(Some(fn_attributes)) => {
                        recorded = Some((item_fn.name.clone(), fn_attributes));
                    },
                    Ok(None) => {},
                    Err(e) => {
                        proof {
                            woven_items_fails_early::<W>(
                                source,
                                main_attributes,
                                block_attrs,
                                i + 1,
                            );
                        }
                        return Err(e);
                    },
                }
            },
            ImplItem::Other(_) => {},
        }
        match recorded {
            Some((name, fn_attributes)) => {
                woven_fns.insert(name, fn_attributes);
            },
            None => {},
        }
        proof {
            let items_after = item_views(parsed_input.items@);
            assert(items_after == items_before.update(i as int, items_after[i as int]));
            assert(items_after.take(i + 1) == items_before.take(i as int).push(
                items_after[i as int],
            ));
            assert(items_after.skip(i + 1) == items_before.skip(i as int).skip(1));
            assert(source.skip(i + 1) == source.skip(i as int).skip(1));
        }
        i = i + 1;
    }
    assert(source.take(n as int) == source);
    assert(item_views(parsed_input.items@).take(n as int) == item_views(parsed_input.items@));

    Ok(WovenImplBlock { woven_block: parsed_input, main_attributes, woven_fns })
}

} // verus!
