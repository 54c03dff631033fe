//! What weaving guarantees, whatever the weaver.

use crate::syntax::{AttributeView, ImplBlockView, ImplItemView, MethodView, WeaveErrorView};
use crate::weave::{
    attribute_tokens, ours, parse_all, recognizes, theirs, woven, woven_items, woven_method,
    woven_parsed, Weave, WovenView,
};
use crate::woven_fns::{key_position, key_position_finds, record};
use vstd::prelude::*;

verus! {

/// Where no attribute is intercepted, none is taken out.
pub proof fn none_recognized_none_ours(name: Seq<char>, attrs: Seq<AttributeView>)
    requires
        forall|i: int| 0 <= i < attrs.len() ==> !recognizes(name, #[trigger] attrs[i]),
    ensures
        ours(name, attrs).len() == 0,
        theirs(name, attrs) == attrs,
    decreases attrs.len(),
{
    reveal(Seq::filter);
    if attrs.len() != 0 {
        none_recognized_none_ours(name, attrs.drop_last());
        assert(attrs.drop_last().push(attrs.last()) == attrs);
    }
}

/// The attributes that stay are those that are not intercepted: none of them is
/// intercepted, and every attribute that is not intercepted is among them.
pub proof fn theirs_are_the_others(name: Seq<char>, attrs: Seq<AttributeView>)
    ensures
        forall|i: int|
            0 <= i < theirs(name, attrs).len() ==> !recognizes(
                name,
                #[trigger] theirs(name, attrs)[i],
            ),
        forall|i: int|
            0 <= i < attrs.len() && !recognizes(name, attrs[i]) ==> theirs(name, attrs).contains(
                #[trigger] attrs[i],
            ),
        forall|i: int|
            0 <= i < ours(name, attrs).len() ==> recognizes(name, #[trigger] ours(name, attrs)[i]),
{
    broadcast use vstd::seq_lib::group_filter_ensures;

}

/// Of an intercepted attribute followed by another one, the other one stays and the
/// intercepted one is taken out.
pub proof fn strips_ours_keeps_theirs(name: Seq<char>, mine: AttributeView, other: AttributeView)
    requires
        recognizes(name, mine),
        !recognizes(name, other),
    ensures
        theirs(name, seq![mine, other]) == seq![other],
        ours(name, seq![mine, other]) == seq![mine],
        theirs(name, seq![other, mine]) == seq![other],
        ours(name, seq![other, mine]) == seq![mine],
{
    reveal_with_fuel(Seq::filter, 3);
    assert(seq![mine, other].drop_last() == seq![mine]);
    assert(seq![other, mine].drop_last() == seq![other]);
    assert(seq![mine].drop_last() == Seq::<AttributeView>::empty());
    assert(seq![other].drop_last() == Seq::<AttributeView>::empty());
}

/// A method without an intercepted attribute is not touched: it comes out as it went
/// in, and nothing is recorded for it.
pub proof fn unmarked_method_untouched<W: Weave>(
    method: MethodView,
    main_attr: W::MacroAttributes,
    block_attrs: Seq<W::Type>,
)
    requires
        forall|i: int|
            0 <= i < method.attrs.len() ==> !recognizes(W::attr_name(), #[trigger] method.attrs[i]),
    ensures
        woven_method::<W>(method, main_attr, block_attrs) == Ok::<
            (MethodView, Option<Seq<W::Type>>),
            WeaveErrorView,
        >((method, None)),
{
    none_recognized_none_ours(W::attr_name(), method.attrs);
}

/// A woven method has lost its intercepted attributes and kept the others; everything else
/// but the body is as before.
pub proof fn woven_method_keeps_theirs<W: Weave>(
    method: MethodView,
    main_attr: W::MacroAttributes,
    block_attrs: Seq<W::Type>,
)
    requires
        woven_method::<W>(method, main_attr, block_attrs) is Ok,
    ensures
        ({
            let after = woven_method::<W>(method, main_attr, block_attrs)->Ok_0.0;
            &&& after.attrs == theirs(W::attr_name(), method.attrs)
            &&& after.name == method.name
            &&& after.signature == method.signature
        }),
{
    let own = parse_all::<W>(ours(W::attr_name(), method.attrs))->Ok_0;
    if own.len() == 0 {
        parse_all_len::<W>(ours(W::attr_name(), method.attrs));
        crate::weave::nothing_ours_all_theirs(W::attr_name(), method.attrs);
    }
}

/// Parsing gives one value for each attribute.
pub proof fn parse_all_len<W: Weave>(attrs: Seq<AttributeView>)
    requires
        parse_all::<W>(attrs) is Ok,
    ensures
        parse_all::<W>(attrs)->Ok_0.len() == attrs.len(),
        forall|i: int|
            #![trigger attrs[i]]
            0 <= i < attrs.len() ==> W::parsed_attributes(attribute_tokens(attrs[i].meta)) == Ok::<
                W::Type,
                WeaveErrorView,
            >(parse_all::<W>(attrs)->Ok_0[i]),
    decreases attrs.len(),
{
    if attrs.len() != 0 {
        let front = attrs.drop_last();
        parse_all_len::<W>(front);
        let all = parse_all::<W>(attrs)->Ok_0;
        assert forall|i: int|
            #![trigger attrs[i]]
            0 <= i < attrs.len() implies W::parsed_attributes(attribute_tokens(attrs[i].meta))
            == Ok::<W::Type, WeaveErrorView>(all[i]) by {
            if i < front.len() {
                assert(front[i] == attrs[i]);
                assert(all[i] == parse_all::<W>(front)->Ok_0[i]);
            }
        }
    }
}

/// The weaver is given the attributes of the block first, then the method's own, each in
/// source order; that list is the one recorded, and the new body is what the weaver gives
/// for the method without its intercepted attributes.
pub proof fn block_attributes_come_first<W: Weave>(
    method: MethodView,
    main_attr: W::MacroAttributes,
    block_attrs: Seq<W::Type>,
)
    requires
        woven_method::<W>(method, main_attr, block_attrs) is Ok,
        woven_method::<W>(method, main_attr, block_attrs)->Ok_0.1 is Some,
    ensures
        ({
            let (after, list) = woven_method::<W>(method, main_attr, block_attrs)->Ok_0;
            let own = parse_all::<W>(ours(W::attr_name(), method.attrs));
            let stripped = MethodView { attrs: theirs(W::attr_name(), method.attrs), ..method };
            &&& own is Ok
            &&& own->Ok_0.len() == ours(W::attr_name(), method.attrs).len()
            &&& own->Ok_0.len() > 0
            &&& list.unwrap() == block_attrs + own->Ok_0
            &&& W::updated_fn_block(stripped, main_attr, list.unwrap()) is Ok
            &&& after.block == W::updated_fn_block(stripped, main_attr, list.unwrap())->Ok_0
        }),
{
    parse_all_len::<W>(ours(W::attr_name(), method.attrs));
}

/// With one intercepted attribute on the block and one on the method, the weaver is given
/// the block's first and the method's second.
pub proof fn block_attribute_before_method_attribute<W: Weave>(
    block_attr: AttributeView,
    method_attr: AttributeView,
    method: MethodView,
    main_attr: W::MacroAttributes,
)
    requires
        ours(W::attr_name(), method.attrs) == seq![method_attr],
        parse_all::<W>(seq![block_attr]) is Ok,
        woven_method::<W>(method, main_attr, parse_all::<W>(seq![block_attr])->Ok_0) is Ok,
    ensures
        ({
            let a = W::parsed_attributes(attribute_tokens(block_attr.meta));
            let b = W::parsed_attributes(attribute_tokens(method_attr.meta));
            &&& a is Ok
            &&& b is Ok
            &&& woven_method::<W>(
                method,
                main_attr,
                parse_all::<W>(seq![block_attr])->Ok_0,
            )->Ok_0.1 == Some(seq![a->Ok_0, b->Ok_0])
        }),
{
    let block_attrs = parse_all::<W>(seq![block_attr])->Ok_0;
    parse_all_len::<W>(seq![block_attr]);
    parse_all_len::<W>(seq![method_attr]);
    assert(seq![block_attr][0] == block_attr);
    assert(seq![method_attr][0] == method_attr);
    let own = parse_all::<W>(seq![method_attr])->Ok_0;
    assert(block_attrs + own == seq![block_attrs[0], own[0]]);
}

/// Weaving goes item by item: a woven block has as many items as the block had, an item
/// that is no method is as before, and a method is what [`woven_method`] makes of it.
pub proof fn woven_items_item_by_item<W: Weave>(
    items: Seq<ImplItemView>,
    main_attr: W::MacroAttributes,
    block_attrs: Seq<W::Type>,
)
    requires
        woven_items::<W>(items, main_attr, block_attrs) is Ok,
    ensures
        woven_items::<W>(items, main_attr, block_attrs)->Ok_0.0.len() == items.len(),
        forall|i: int|
            #![trigger items[i]]
            0 <= i < items.len() ==> match items[i] {
                ImplItemView::Other(text) => woven_items::<W>(
                    items,
                    main_attr,
                    block_attrs,
                )->Ok_0.0[i] == items[i],
                ImplItemView::Fn(method) => {
                    &&& woven_method::<W>(method, main_attr, block_attrs) is Ok
                    &&& woven_items::<W>(items, main_attr, block_attrs)->Ok_0.0[i]
                        == ImplItemView::Fn(
                        woven_method::<W>(method, main_attr, block_attrs)->Ok_0.0,
                    )
                },
            },
    decreases items.len(),
{
    if items.len() != 0 {
        woven_items_item_by_item::<W>(items.drop_last(), main_attr, block_attrs);
        let done = woven_items::<W>(items.drop_last(), main_attr, block_attrs)->Ok_0.0;
        let all = woven_items::<W>(items, main_attr, block_attrs)->Ok_0.0;
        assert forall|i: int| #![trigger items[i]] 0 <= i < items.len() implies match items[i] {
            ImplItemView::Other(text) => all[i] == items[i],
            ImplItemView::Fn(method) => {
                &&& woven_method::<W>(method, main_attr, block_attrs) is Ok
                &&& all[i] == ImplItemView::Fn(
                    woven_method::<W>(method, main_attr, block_attrs)->Ok_0.0,
                )
            },
        } by {
            if i < items.len() - 1 {
                assert(items.drop_last()[i] == items[i]);
                assert(all[i] == done[i]);
            }
        }
    }
}

/// Weaving skips what carries no intercepted attribute: in a woven block every item that
/// is no method, and every method without an intercepted attribute, is as it was in the
/// block, attributes and body.
pub proof fn weaving_skips_unmarked<W: Weave>(attrs: Seq<char>, block: ImplBlockView, i: int)
    requires
        woven::<W>(attrs, block) is Ok,
        0 <= i < block.items.len(),
        block.items[i] matches ImplItemView::Fn(method) ==> forall|j: int|
            0 <= j < method.attrs.len() ==> !recognizes(W::attr_name(), #[trigger] method.attrs[j]),
    ensures
        woven::<W>(attrs, block)->Ok_0.woven_block.items.len() == block.items.len(),
        woven::<W>(attrs, block)->Ok_0.woven_block.items[i] == block.items[i],
{
    let main_attr = W::parsed_macro_attributes(attrs)->Ok_0;
    let block_attrs = parse_all::<W>(ours(W::attr_name(), block.attrs))->Ok_0;
    woven_items_item_by_item::<W>(block.items, main_attr, block_attrs);
    match block.items[i] {
        ImplItemView::Fn(method) => {
            unmarked_method_untouched::<W>(method, main_attr, block_attrs);
        },
        ImplItemView::Other(_) => {},
    }
}

/// Weaving strips the intercepted attributes and keeps all others: the woven block has
/// the attributes of the block that are not intercepted, and so has each of its methods;
/// names, signatures and the block's header are as before.
pub proof fn weaving_strips_ours_keeps_theirs<W: Weave>(attrs: Seq<char>, block: ImplBlockView)
    requires
        woven::<W>(attrs, block) is Ok,
    ensures
        ({
            let after = woven::<W>(attrs, block)->Ok_0.woven_block;
            &&& after.attrs == theirs(W::attr_name(), block.attrs)
            &&& after.header == block.header
            &&& after.items.len() == block.items.len()
            &&& forall|i: int|
                #![trigger block.items[i]]
                0 <= i < block.items.len() ==> match block.items[i] {
                    ImplItemView::Other(text) => after.items[i] == block.items[i],
                    ImplItemView::Fn(method) => {
                        &&& after.items[i] is Fn
                        &&& after.items[i]->Fn_0.attrs == theirs(W::attr_name(), method.attrs)
                        &&& after.items[i]->Fn_0.name == method.name
                        &&& after.items[i]->Fn_0.signature == method.signature
                    },
                }
        }),
{
    let main_attr = W::parsed_macro_attributes(attrs)->Ok_0;
    let block_attrs = parse_all::<W>(ours(W::attr_name(), block.attrs))->Ok_0;
    let after = woven::<W>(attrs, block)->Ok_0.woven_block;
    woven_items_item_by_item::<W>(block.items, main_attr, block_attrs);
    assert forall|i: int|
        #![trigger block.items[i]]
        0 <= i < block.items.len() implies match block.items[i] {
        ImplItemView::Other(text) => after.items[i] == block.items[i],
        ImplItemView::Fn(method) => {
            &&& after.items[i] is Fn
            &&& after.items[i]->Fn_0.attrs == theirs(W::attr_name(), method.attrs)
            &&& after.items[i]->Fn_0.name == method.name
            &&& after.items[i]->Fn_0.signature == method.signature
        },
    } by {
        match block.items[i] {
            ImplItemView::Fn(method) => {
                woven_method_keeps_theirs::<W>(method, main_attr, block_attrs);
            },
            ImplItemView::Other(_) => {},
        }
    }
}

/// Where the macro arguments are malformed, weaving fails with the failure of their
/// parser, whatever the block holds and whether it is well formed or not.
pub proof fn malformed_macro_attributes_fail<W: Weave>(
    attrs: Seq<char>,
    item: Result<ImplBlockView, WeaveErrorView>,
)
    requires
        W::parsed_macro_attributes(attrs) is Err,
    ensures
        woven_parsed::<W>(attrs, item) is Err,
        woven_parsed::<W>(attrs, item)->Err_0 == W::parsed_macro_attributes(attrs)->Err_0,
        item matches Ok(block) ==> woven::<W>(attrs, block) == woven_parsed::<W>(attrs, item),
{
}

/// A malformed block fails the weaving with its own failure, unless the macro arguments
/// are malformed too.
pub proof fn malformed_block_fails<W: Weave>(attrs: Seq<char>, failure: WeaveErrorView)
    requires
        W::parsed_macro_attributes(attrs) is Ok,
    ensures
        woven_parsed::<W>(attrs, Err(failure)) == Err::<
            WovenView<W::MacroAttributes, W::Type>,
            WeaveErrorView,
        >(failure),
{
}

/// A malformed intercepted attribute on the block fails the weaving.
pub proof fn malformed_block_attribute_fails<W: Weave>(attrs: Seq<char>, block: ImplBlockView)
    requires
        parse_all::<W>(ours(W::attr_name(), block.attrs)) is Err,
    ensures
        woven::<W>(attrs, block) is Err,
        W::parsed_macro_attributes(attrs) is Ok ==> woven::<W>(attrs, block)->Err_0 == parse_all::<
            W,
        >(ours(W::attr_name(), block.attrs))->Err_0,
{
}

/// A method that cannot be woven fails the weaving, be it for a malformed attribute of its
/// own or because the weaver gives no body for it.
pub proof fn failing_method_fails<W: Weave>(attrs: Seq<char>, block: ImplBlockView, i: int)
    requires
        0 <= i < block.items.len(),
        W::parsed_macro_attributes(attrs) is Ok,
        parse_all::<W>(ours(W::attr_name(), block.attrs)) is Ok,
        block.items[i] is Fn,
        woven_method::<W>(
            block.items[i]->Fn_0,
            W::parsed_macro_attributes(attrs)->Ok_0,
            parse_all::<W>(ours(W::attr_name(), block.attrs))->Ok_0,
        ) is Err,
    ensures
        woven::<W>(attrs, block) is Err,
{
    let main_attr = W::parsed_macro_attributes(attrs)->Ok_0;
    let block_attrs = parse_all::<W>(ours(W::attr_name(), block.attrs))->Ok_0;
    if woven_items::<W>(block.items, main_attr, block_attrs) is Ok {
        woven_items_item_by_item::<W>(block.items, main_attr, block_attrs);
    }
}

/// Where no attribute is intercepted, nothing is parsed and every attribute stays.
pub proof fn nothing_intercepted_nothing_parsed<W: Weave>(attrs: Seq<AttributeView>)
    requires
        forall|i: int| 0 <= i < attrs.len() ==> !recognizes(W::attr_name(), #[trigger] attrs[i]),
    ensures
        parse_all::<W>(ours(W::attr_name(), attrs)) == Ok::<Seq<W::Type>, WeaveErrorView>(
            Seq::empty(),
        ),
        theirs(W::attr_name(), attrs) == attrs,
{
    none_recognized_none_ours(W::attr_name(), attrs);
}

/// A method is woven, and its attribute list recorded, exactly if it carries an
/// intercepted attribute.
pub proof fn woven_exactly_if_intercepted<W: Weave>(
    method: MethodView,
    main_attr: W::MacroAttributes,
    block_attrs: Seq<W::Type>,
)
    requires
        woven_method::<W>(method, main_attr, block_attrs) is Ok,
    ensures
        woven_method::<W>(method, main_attr, block_attrs)->Ok_0.1 is Some <==> ours(
            W::attr_name(),
            method.attrs,
        ).len() > 0,
{
    parse_all_len::<W>(ours(W::attr_name(), method.attrs));
}

/// After recording, a name is a key exactly if it was one before or is the name recorded.
pub proof fn record_keys<V>(
    entries: Seq<(Seq<char>, V)>,
    key: Seq<char>,
    value: V,
    name: Seq<char>,
)
    ensures
        key_position(record(entries, key, value), name) is Some <==> (key_position(
            entries,
            name,
        ) is Some || key == name),
{
    let after = record(entries, key, value);
    key_position_finds(entries, key);
    key_position_finds(entries, name);
    key_position_finds(after, name);
    match key_position(entries, key) {
        Some(p) => {
            if let Some(q) = key_position(entries, name) {
                assert(after[q].0 == name);
            }
            if let Some(q) = key_position(after, name) {
                assert(after[q].0 == entries[q].0);
            }
            if key == name {
                assert(after[p].0 == name);
            }
        },
        None => {
            if let Some(q) = key_position(entries, name) {
                assert(after[q] == entries[q]);
            }
            if let Some(q) = key_position(after, name) {
                if q < entries.len() {
                    assert(after[q] == entries[q]);
                }
            }
            if key == name {
                assert(after[entries.len() as int].0 == name);
            }
        },
    }
}

/// Whether an item is a method of this name that carries an intercepted attribute.
pub open spec fn intercepted_as<W: Weave>(item: ImplItemView, name: Seq<char>) -> bool {
    item matches ImplItemView::Fn(method) && method.name == name && ours(
        W::attr_name(),
        method.attrs,
    ).len() > 0
}

/// The names under which attribute lists are recorded are the names of the methods that
/// carry an intercepted attribute, and no others.
pub proof fn recorded_names_are_woven_methods<W: Weave>(
    items: Seq<ImplItemView>,
    main_attr: W::MacroAttributes,
    block_attrs: Seq<W::Type>,
    name: Seq<char>,
)
    requires
        woven_items::<W>(items, main_attr, block_attrs) is Ok,
    ensures
        key_position(woven_items::<W>(items, main_attr, block_attrs)->Ok_0.1, name) is Some
            <==> exists|i: int|
            0 <= i < items.len() && intercepted_as::<W>(#[trigger] items[i], name),
    decreases items.len(),
{
    if items.len() != 0 {
        let front = items.drop_last();
        recorded_names_are_woven_methods::<W>(front, main_attr, block_attrs, name);
        let before = woven_items::<W>(front, main_attr, block_attrs)->Ok_0.1;
        let after = woven_items::<W>(items, main_attr, block_attrs)->Ok_0.1;
        match items.last() {
            ImplItemView::Fn(method) => {
                woven_exactly_if_intercepted::<W>(method, main_attr, block_attrs);
                if let Some(list) = woven_method::<W>(method, main_attr, block_attrs)->Ok_0.1 {
                    record_keys(before, method.name, list, name);
                }
            },
            ImplItemView::Other(_) => {},
        }
        if key_position(after, name) is Some {
            if key_position(before, name) is Some {
                let i = choose|i: int|
                    0 <= i < front.len() && intercepted_as::<W>(#[trigger] front[i], name);
                assert(items[i] == front[i]);
            } else {
                assert(intercepted_as::<W>(items[items.len() - 1], name));
            }
        }
        if exists|i: int| 0 <= i < items.len() && intercepted_as::<W>(#[trigger] items[i], name) {
            let i = choose|i: int|
                0 <= i < items.len() && intercepted_as::<W>(#[trigger] items[i], name);
            if i < front.len() {
                assert(front[i] == items[i]);
            }
        }
    }
}

/// Nothing is recorded under the name of a method without an intercepted attribute,
/// unless another method of that name carries one.
pub proof fn unmarked_name_is_no_key<W: Weave>(
    attrs: Seq<char>,
    block: ImplBlockView,
    name: Seq<char>,
)
    requires
        woven::<W>(attrs, block) is Ok,
        forall|i: int|
            0 <= i < block.items.len() ==> !intercepted_as::<W>(#[trigger] block.items[i], name),
    ensures
        key_position(woven::<W>(attrs, block)->Ok_0.woven_fns, name) is None,
{
    let main_attr = W::parsed_macro_attributes(attrs)->Ok_0;
    let block_attrs = parse_all::<W>(ours(W::attr_name(), block.attrs))->Ok_0;
    recorded_names_are_woven_methods::<W>(block.items, main_attr, block_attrs, name);
}

/// The attribute list recorded last under a method's name is the one found under it.
pub proof fn recorded_is_found<V>(entries: Seq<(Seq<char>, V)>, name: Seq<char>, list: V)
    ensures
        key_position(record(entries, name, list), name) is Some,
        record(entries, name, list)[key_position(record(entries, name, list), name).unwrap()].1
            == list,
{
    key_position_finds(entries, name);
    let after = record(entries, name, list);
    key_position_finds(after, name);
    match key_position(entries, name) {
        Some(p) => {
            assert(after[p].0 == name);
        },
        None => {
            assert(after[entries.len() as int].0 == name);
            assert forall|q: int| 0 <= q < entries.len() implies (#[trigger] after[q]).0
                != name by {
                assert(after[q] == entries[q]);
            }
        },
    }
}

} // verus!
