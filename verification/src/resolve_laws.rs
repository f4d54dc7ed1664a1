//! What holds of sizes, of completed declarations and of registered events.

use vstd::prelude::*;

use crate::frame::{lemma_full_sequence_unique, FrameFault, FrameModel};
use crate::ir;
use crate::laws::{law_first_event_has_variant, total_size};
use crate::model::{DepModel, EventModel, ExprModel, FieldModel, GenModel, TypModel};
use crate::resolve::{event_field, event_fields, first_dep, first_dep_event, first_event};
use crate::size::wire_size_of;

verus! {

/// Whether the entry `i` of a table is the first for a type of a module.
pub open spec fn first_entry(
    typs: Seq<TypModel>,
    module: Option<Seq<char>>,
    typ: Seq<char>,
    i: int,
) -> bool {
    &&& 0 <= i < typs.len()
    &&& typs[i].module == module
    &&& typs[i].typ == typ
    &&& forall|j: int| 0 <= j < i ==> !((#[trigger] typs[j]).module == module && typs[j].typ == typ)
}

/// The size of a type is what its first entry says.
pub proof fn law_first_entry_gives_the_size(
    typs: Seq<TypModel>,
    module: Option<Seq<char>>,
    typ: Seq<char>,
    i: int,
)
    requires
        first_entry(typs, module, typ, i),
    ensures
        wire_size_of(typs, module, typ) == Some(typs[i].wire_sz),
    decreases i,
{
    if i > 0 {
        let rest = typs.drop_first();
        assert(!(typs[0].module == module && typs[0].typ == typ));
        assert forall|j: int| 0 <= j < i - 1 implies !((#[trigger] rest[j]).module == module
            && rest[j].typ == typ) by {
            assert(!(typs[j + 1].module == module && typs[j + 1].typ == typ));
        }
        law_first_entry_gives_the_size(rest, module, typ, i - 1);
    }
}

/// A type without an entry has no size.
pub proof fn law_no_entry_no_size(
    typs: Seq<TypModel>,
    module: Option<Seq<char>>,
    typ: Seq<char>,
)
    requires
        forall|i: int|
            0 <= i < typs.len() ==> !((#[trigger] typs[i]).module == module && typs[i].typ == typ),
    ensures
        wire_size_of(typs, module, typ) is None,
    decreases typs.len(),
{
    if typs.len() > 0 {
        let rest = typs.drop_first();
        assert(!(typs[0].module == module && typs[0].typ == typ));
        assert forall|j: int| 0 <= j < rest.len() implies !((#[trigger] rest[j]).module == module
            && rest[j].typ == typ) by {
            assert(!(typs[j + 1].module == module && typs[j + 1].typ == typ));
        }
        law_no_entry_no_size(rest, module, typ);
    }
}

/// The declaration of a list of `len` elements.
pub open spec fn list_of(
    name: Seq<char>,
    module: Option<Seq<char>>,
    typ: Seq<char>,
    len: nat,
) -> ir::FieldModel {
    ir::FieldModel::List { name, module, typ, len_expr: ir::ExprModel::Value(len) }
}

/// The size of a field of one value is that of its type. A list of values of fixed
/// size is as long as its values together: the empty list takes up nothing, and each
/// further value adds its size.
pub proof fn law_list_size_adds_up(
    g: GenModel,
    name: Seq<char>,
    other: Seq<char>,
    module: Option<Seq<char>>,
    typ: Seq<char>,
    len: nat,
    sz: nat,
)
    requires
        wire_size_of(g.typs, module, typ) == Some(ExprModel::Value(sz)),
    ensures
        g.ir_field_size(ir::FieldModel::Field { name, module, typ }) == ExprModel::Value(sz),
        g.ir_field_size(list_of(name, module, typ, 0)) == ExprModel::Value(0),
        g.ir_field_size(list_of(name, module, typ, len)) is Value,
        g.ir_field_size(list_of(other, module, typ, len + 1)) == ExprModel::Value(
            g.ir_field_size(list_of(name, module, typ, len))->Value_0 + sz,
        ),
{
    assert(0 * sz == 0) by (nonlinear_arith);
    assert((len + 1) * sz == len * sz + sz) by (nonlinear_arith);
}

/// The size of a field is that of its type also where that is not fixed. A list of
/// such values, and a list whose length is not a number, is a variable list. Padding
/// is as long as it says.
pub proof fn law_sizes_that_are_not_fixed(
    g: GenModel,
    name: Seq<char>,
    module: Option<Seq<char>>,
    typ: Seq<char>,
    len: nat,
    formula: Seq<char>,
    pad: nat,
)
    ensures
        wire_size_of(g.typs, module, typ) matches Some(x) ==> g.ir_field_size(
            ir::FieldModel::Field { name, module, typ },
        ) == x,
        wire_size_of(g.typs, module, typ) matches Some(x) && !(x is Value) ==> g.ir_field_size(
            list_of(name, module, typ, len),
        ) == ExprModel::Unknown("variable list"@),
        g.ir_field_size(
            ir::FieldModel::List { name, module, typ, len_expr: ir::ExprModel::Formula(formula) },
        ) == ExprModel::Unknown("variable list"@),
        g.ir_field_size(ir::FieldModel::ListNoLen { name, module, typ }) == ExprModel::Unknown(
            "variable list"@,
        ),
        g.ir_field_size(ir::FieldModel::Pad(pad)) == ExprModel::Value(pad),
{
}

/// The size of a field can be asked for where its type is known, and that of a list
/// of a fixed number of values where moreover it is no larger than any number. That
/// of padding and of other lists can always be asked for, that of other declarations
/// never.
pub proof fn law_which_sizes_can_be_asked_for(
    g: GenModel,
    name: Seq<char>,
    module: Option<Seq<char>>,
    typ: Seq<char>,
    len: nat,
    formula: Seq<char>,
    pad: nat,
)
    ensures
        g.sizable(ir::FieldModel::Field { name, module, typ }) <==> wire_size_of(
            g.typs,
            module,
            typ,
        ) is Some,
        g.sizable(list_of(name, module, typ, len)) <==> (match wire_size_of(g.typs, module, typ) {
            Some(ExprModel::Value(sz)) => len * sz <= usize::MAX,
            Some(_) => true,
            None => false,
        }),
        g.sizable(
            ir::FieldModel::List { name, module, typ, len_expr: ir::ExprModel::Formula(formula) },
        ),
        g.sizable(ir::FieldModel::ListNoLen { name, module, typ }),
        g.sizable(ir::FieldModel::Pad(pad)),
        !g.sizable(ir::FieldModel::Other(formula)),
{
}

/// A field of one value with an unqualified type.
pub open spec fn common(name: Seq<char>, typ: Seq<char>) -> ir::FieldModel {
    ir::FieldModel::Field { name, module: None, typ }
}

/// A classic event has its first declared field between its type and its sequence
/// number, and the others behind them. One without a sequence number has all of them
/// behind its type.
pub proof fn law_classic_frame(g: GenModel, fields: Seq<ir::FieldModel>, i: int)
    requires
        0 <= i < fields.len(),
    ensures
        g.framed(fields, false, false).len() == fields.len() + 2,
        g.framed(fields, false, false)[0] == common("response_type"@, "CARD8"@),
        g.framed(fields, false, false)[1] == fields[0],
        g.framed(fields, false, false)[2] == common("sequence"@, "CARD16"@),
        i > 0 ==> g.framed(fields, false, false)[i + 2] == fields[i],
        g.framed(fields, false, true).len() == fields.len() + 1,
        g.framed(fields, false, true)[0] == common("response_type"@, "CARD8"@),
        g.framed(fields, false, true)[i + 1] == fields[i],
{
}

/// An event without a sequence number and without declared fields has its type only.
pub proof fn law_smallest_frame(g: GenModel)
    ensures
        g.framed(Seq::empty(), false, true) == seq![common("response_type"@, "CARD8"@)],
{
    assert(g.framed(Seq::empty(), false, true) =~= seq![common("response_type"@, "CARD8"@)]);
}

/// An extended event begins with its type, its extension, its sequence number, its
/// length and its number in the extension.
pub proof fn law_extended_frame_begins(
    g: GenModel,
    fields: Seq<ir::FieldModel>,
    no_seq_number: bool,
)
    ensures
        g.framed(fields, true, no_seq_number).take(5) == seq![
            common("response_type"@, "CARD8"@),
            common("extension"@, "CARD8"@),
            common("sequence"@, "CARD16"@),
            common("length"@, "CARD32"@),
            common("event_type"@, "CARD16"@),
        ],
{
    assert(g.framed(fields, true, no_seq_number).take(5) =~= seq![
        common("response_type"@, "CARD8"@),
        common("extension"@, "CARD8"@),
        common("sequence"@, "CARD16"@),
        common("length"@, "CARD32"@),
        common("event_type"@, "CARD16"@),
    ]);
}

/// The five common fields of an extended event take up 10 bytes; what follows adds
/// its size.
pub proof fn law_extended_size_adds_up(g: GenModel, fields: Seq<ir::FieldModel>, k: int)
    requires
        0 <= k <= fields.len(),
    ensures
        g.xge_size(fields, k) == 10 + total_size(g, fields.take(k)),
    decreases k,
{
    if k > 0 {
        law_extended_size_adds_up(g, fields, k - 1);
        assert(fields.take(k).drop_last() =~= fields.take(k - 1));
        assert(fields.take(k).last() == fields[k - 1]);
    } else {
        assert(fields.take(0).len() == 0);
    }
}

/// Where the first `k` declared fields bring an extended event to 32 bytes, and one
/// less does not, the sequence number in full comes right behind them.
pub proof fn law_full_sequence_is_put_in(
    g: GenModel,
    fields: Seq<ir::FieldModel>,
    no_seq_number: bool,
    k: int,
)
    requires
        1 <= k <= fields.len(),
        10 + total_size(g, fields.take(k - 1)) < 32,
        10 + total_size(g, fields.take(k)) == 32,
    ensures
        g.framed(fields, true, no_seq_number).len() == fields.len() + 6,
        g.framed(fields, true, no_seq_number).subrange(5, 5 + k) == fields.take(k),
        g.framed(fields, true, no_seq_number)[5 + k] == common("full_sequence"@, "CARD32"@),
        g.framed(fields, true, no_seq_number).skip(6 + k) == fields.skip(k),
{
    law_extended_size_adds_up(g, fields, k - 1);
    law_extended_size_adds_up(g, fields, k);
    assert(g.full_sequence_at(fields, k));
    let place = choose|k: int| g.full_sequence_at(fields, k);
    lemma_full_sequence_unique(g, fields, k, place);
    let framed = g.framed(fields, true, no_seq_number);
    assert(framed.subrange(5, 5 + k) =~= fields.take(k));
    assert(framed.skip(6 + k) =~= fields.skip(k));
}

/// Where no number of declared fields brings an extended event to exactly 32 bytes,
/// the declared fields follow the common ones and nothing is put in.
pub proof fn law_full_sequence_is_left_out(
    g: GenModel,
    fields: Seq<ir::FieldModel>,
    no_seq_number: bool,
)
    requires
        forall|k: int| 0 <= k <= fields.len() ==> 10 + total_size(g, #[trigger] fields.take(k)) != 32,
    ensures
        g.framed(fields, true, no_seq_number).len() == fields.len() + 5,
        g.framed(fields, true, no_seq_number).skip(5) == fields,
{
    if exists|k: int| g.full_sequence_at(fields, k) {
        let k = choose|k: int| g.full_sequence_at(fields, k);
        law_extended_size_adds_up(g, fields, k);
        assert(10 + total_size(g, fields.take(k)) != 32);
    }
    assert(g.framed(fields, true, no_seq_number).skip(5) =~= fields);
}

/// A classic declaration can be completed if it has a field or no sequence number.
/// An extended one can if the sizes of all its fields can be asked for and those of
/// the fields that begin in front of byte 32 are fixed and can be added up.
pub proof fn law_what_can_be_completed(
    g: GenModel,
    fields: Seq<ir::FieldModel>,
    no_seq_number: bool,
)
    ensures
        g.framable(fields, false, no_seq_number) <==> no_seq_number || fields.len() > 0,
        g.framable(fields, true, no_seq_number) <==> forall|i: int|
            0 <= i < fields.len() ==> {
                &&& g.sizable(#[trigger] fields[i])
                &&& 10 + total_size(g, fields.take(i)) < 32 ==> {
                    &&& g.ir_field_size(fields[i]) is Value
                    &&& 10 + total_size(g, fields.take(i + 1)) <= usize::MAX
                }
            },
{
    assert forall|i: int| 0 <= i < fields.len() implies ((#[trigger] g.fault_at(fields, i)) is None
        <==> {
        &&& g.sizable(fields[i])
        &&& 10 + total_size(g, fields.take(i)) < 32 ==> {
            &&& g.ir_field_size(fields[i]) is Value
            &&& 10 + total_size(g, fields.take(i + 1)) <= usize::MAX
        }
    }) by {
        law_extended_size_adds_up(g, fields, i);
        law_extended_size_adds_up(g, fields, i + 1);
    }
    if g.framable(fields, true, no_seq_number) {
        assert forall|i: int| 0 <= i < fields.len() implies {
            &&& g.sizable(#[trigger] fields[i])
            &&& 10 + total_size(g, fields.take(i)) < 32 ==> {
                &&& g.ir_field_size(fields[i]) is Value
                &&& 10 + total_size(g, fields.take(i + 1)) <= usize::MAX
            }
        } by {
            assert(g.fault_at(fields, i) is None);
        }
    }
}

/// The reason why a field stands in the way names the field: it has no size that can
/// be asked for; or it begins in front of byte 32 and its size is not fixed, or is too
/// large to be added.
pub proof fn law_reasons_against_completion(g: GenModel, fields: Seq<ir::FieldModel>, i: int)
    requires
        0 <= i < fields.len() <= usize::MAX,
    ensures
        !g.sizable(fields[i]) <==> g.fault_at(fields, i) == Some(FrameFault::NoSize(i as usize)),
        g.sizable(fields[i]) && 10 + total_size(g, fields.take(i)) < 32 && !(g.ir_field_size(
            fields[i],
        ) is Value) <==> g.fault_at(fields, i) == Some(FrameFault::NotFixed(i as usize)),
        g.sizable(fields[i]) && 10 + total_size(g, fields.take(i)) < 32 && g.ir_field_size(
            fields[i],
        ) is Value && 10 + total_size(g, fields.take(i + 1)) > usize::MAX <==> g.fault_at(
            fields,
            i,
        ) == Some(FrameFault::TooLong(i as usize)),
{
    law_extended_size_adds_up(g, fields, i);
    law_extended_size_adds_up(g, fields, i + 1);
}

/// What is handed to the resolution of the fields has the name, number, kind and
/// documentation of the declaration.
pub proof fn law_frame_keeps_identity(
    g: GenModel,
    variant: Seq<char>,
    number: int,
    fields: Seq<ir::FieldModel>,
    is_xge: bool,
    no_seq_number: bool,
    doc: Option<Seq<Seq<char>>>,
)
    ensures
        ({
            let frame = g.event_frame(variant, number, fields, is_xge, no_seq_number, doc);
            &&& frame.rs_typ == variant + "Event"@
            &&& frame.variant == variant
            &&& frame.number == number
            &&& frame.is_xge == is_xge
            &&& frame.doc == doc
            &&& frame.fields == g.framed(fields, is_xge, no_seq_number)
        }),
{
}

/// A registered event has the name, number, kind and documentation of its frame, and
/// the size that its fields were resolved to. It is no copy, and is counted once.
pub proof fn law_registered_event_keeps_identity(
    g: GenModel,
    frame: FrameModel,
    fields: Seq<FieldModel>,
    wire_sz: ExprModel,
)
    ensures
        ({
            let e = g.with_event(frame, fields, wire_sz).events.last();
            &&& e.rs_typ == frame.rs_typ
            &&& e.variant == frame.variant
            &&& e.number == frame.number
            &&& e.is_xge == frame.is_xge
            &&& e.doc == frame.doc
            &&& e.wire_sz == wire_sz
            &&& e.copy_from_rs_typ is None
            &&& e.fields == event_fields(fields)
        }),
        g.with_event(frame, fields, wire_sz).events.len() == g.events.len() + 1,
        g.with_event(frame, fields, wire_sz).need_count == g.need_count.insert(frame.rs_typ, 1),
{
}

/// A copy has the name and number that it is given, whatever its source has; all else
/// it has from its source. Nothing more is counted.
pub proof fn law_copy_has_its_own_name_and_number(
    g: GenModel,
    variant: Seq<char>,
    number: int,
    source: EventModel,
)
    ensures
        ({
            let e = g.with_copy(variant, number, source).events.last();
            &&& e.rs_typ == variant + "Event"@
            &&& e.variant == variant
            &&& e.number == number
            &&& e.copy_from_rs_typ == Some(source.rs_typ)
            &&& e.fields == source.fields
            &&& e.wire_sz == source.wire_sz
            &&& e.doc == source.doc
            &&& e.is_xge == source.is_xge
        }),
        g.with_copy(variant, number, source).events.len() == g.events.len() + 1,
        g.with_copy(variant, number, source).need_count == g.need_count,
{
}

/// A field of one value that is called `new` is called `new_` in an event and is
/// otherwise as it was. Every other field is as it was.
pub proof fn law_only_new_is_renamed(fields: Seq<FieldModel>, i: int)
    requires
        0 <= i < fields.len(),
    ensures
        event_fields(fields).len() == fields.len(),
        event_fields(fields)[i] == (match fields[i] {
            FieldModel::Field { name, module, rs_typ, wire_sz, struct_style } => if name
                == "new"@ {
                FieldModel::Field { name: "new_"@, module, rs_typ, wire_sz, struct_style }
            } else {
                fields[i]
            },
            _ => fields[i],
        }),
{
    assert(event_fields(fields)[i] == event_field(fields[i]));
}

/// Whether the event `i` is the first of its variant.
pub open spec fn first_of_variant(events: Seq<EventModel>, variant: Seq<char>, i: int) -> bool {
    &&& 0 <= i < events.len()
    &&& events[i].variant == variant
    &&& forall|j: int| 0 <= j < i ==> (#[trigger] events[j]).variant != variant
}

/// Whether the module `i` is the first of its name.
pub open spec fn first_of_name(deps: Seq<DepModel>, name: Seq<char>, i: int) -> bool {
    &&& 0 <= i < deps.len()
    &&& deps[i].xcb_mod == name
    &&& forall|j: int| 0 <= j < i ==> (#[trigger] deps[j]).xcb_mod != name
}

/// Whether none of the events has the variant.
pub open spec fn none_of_variant(events: Seq<EventModel>, variant: Seq<char>) -> bool {
    forall|j: int| 0 <= j < events.len() ==> (#[trigger] events[j]).variant != variant
}

/// The first event of a variant is what is found.
pub proof fn law_first_of_variant_is_found(events: Seq<EventModel>, variant: Seq<char>, i: int)
    requires
        first_of_variant(events, variant, i),
    ensures
        first_event(events, variant) == Some(events[i]),
    decreases i,
{
    if i > 0 {
        let rest = events.drop_first();
        assert(events[0].variant != variant);
        assert forall|j: int| 0 <= j < i - 1 implies (#[trigger] rest[j]).variant != variant by {
            assert(events[j + 1].variant != variant);
        }
        law_first_of_variant_is_found(rest, variant, i - 1);
    }
}

proof fn lemma_first_dep(deps: Seq<DepModel>, name: Seq<char>, i: int)
    requires
        first_of_name(deps, name, i),
    ensures
        first_dep(deps, name) == Some(deps[i]),
    decreases i,
{
    if i > 0 {
        let rest = deps.drop_first();
        assert(deps[0].xcb_mod != name);
        assert forall|j: int| 0 <= j < i - 1 implies (#[trigger] rest[j]).xcb_mod != name by {
            assert(deps[j + 1].xcb_mod != name);
        }
        lemma_first_dep(rest, name, i - 1);
    }
}

proof fn lemma_no_dep(deps: Seq<DepModel>, name: Seq<char>)
    requires
        forall|j: int| 0 <= j < deps.len() ==> (#[trigger] deps[j]).xcb_mod != name,
    ensures
        first_dep(deps, name) is None,
    decreases deps.len(),
{
    if deps.len() > 0 {
        let rest = deps.drop_first();
        assert(deps[0].xcb_mod != name);
        assert forall|j: int| 0 <= j < rest.len() implies (#[trigger] rest[j]).xcb_mod != name by {
            assert(deps[j + 1].xcb_mod != name);
        }
        lemma_no_dep(rest, name);
    }
}

proof fn lemma_first_dep_event(deps: Seq<DepModel>, variant: Seq<char>, d: int, i: int)
    requires
        0 <= d < deps.len(),
        forall|j: int| 0 <= j < d ==> none_of_variant((#[trigger] deps[j]).events, variant),
        first_of_variant(deps[d].events, variant, i),
    ensures
        first_dep_event(deps, variant) == Some(deps[d].events[i]),
    decreases d,
{
    if d == 0 {
        law_first_of_variant_is_found(deps[0].events, variant, i);
    } else {
        let rest = deps.drop_first();
        assert(none_of_variant(deps[0].events, variant));
        law_first_event_has_variant(deps[0].events, variant);
        assert forall|j: int| 0 <= j < d - 1 implies none_of_variant(
            (#[trigger] rest[j]).events,
            variant,
        ) by {
            assert(none_of_variant(deps[j + 1].events, variant));
        }
        lemma_first_dep_event(rest, variant, d - 1, i);
    }
}

proof fn lemma_no_dep_event(deps: Seq<DepModel>, variant: Seq<char>)
    requires
        forall|j: int|
            0 <= j < deps.len() ==> none_of_variant((#[trigger] deps[j]).events, variant),
    ensures
        first_dep_event(deps, variant) is None,
    decreases deps.len(),
{
    if deps.len() > 0 {
        let rest = deps.drop_first();
        assert(none_of_variant(deps[0].events, variant));
        law_first_event_has_variant(deps[0].events, variant);
        assert forall|j: int| 0 <= j < rest.len() implies none_of_variant(
            (#[trigger] rest[j]).events,
            variant,
        ) by {
            assert(none_of_variant(deps[j + 1].events, variant));
        }
        lemma_no_dep_event(rest, variant);
    }
}

/// A reference that names a module means the first event of its variant in the first
/// module of that name, and in no other.
pub proof fn law_reference_into_a_module(
    g: GenModel,
    module: Seq<char>,
    variant: Seq<char>,
    d: int,
    i: int,
)
    requires
        first_of_name(g.deps, module, d),
    ensures
        first_of_variant(g.deps[d].events, variant, i) ==> g.find_event(Some(module), variant)
            == Some(g.deps[d].events[i]),
        none_of_variant(g.deps[d].events, variant) ==> g.find_event(Some(module), variant) is None,
{
    lemma_first_dep(g.deps, module, d);
    law_first_event_has_variant(g.deps[d].events, variant);
    if first_of_variant(g.deps[d].events, variant, i) {
        law_first_of_variant_is_found(g.deps[d].events, variant, i);
    }
}

/// A reference into a module that is not depended on means nothing.
pub proof fn law_reference_into_an_unknown_module(
    g: GenModel,
    module: Seq<char>,
    variant: Seq<char>,
)
    requires
        forall|j: int| 0 <= j < g.deps.len() ==> (#[trigger] g.deps[j]).xcb_mod != module,
    ensures
        g.find_event(Some(module), variant) is None,
{
    lemma_no_dep(g.deps, module);
}

/// A reference that names no module means the first event of its variant in this
/// module.
pub proof fn law_reference_within_the_module(g: GenModel, variant: Seq<char>, i: int)
    requires
        first_of_variant(g.events, variant, i),
    ensures
        g.find_event(None, variant) == Some(g.events[i]),
{
    law_first_of_variant_is_found(g.events, variant, i);
}

/// Where this module has no event of the variant, such a reference means the first one
/// of the first module that has one.
pub proof fn law_reference_beyond_the_module(g: GenModel, variant: Seq<char>, d: int, i: int)
    requires
        none_of_variant(g.events, variant),
        0 <= d < g.deps.len(),
        forall|j: int| 0 <= j < d ==> none_of_variant((#[trigger] g.deps[j]).events, variant),
        first_of_variant(g.deps[d].events, variant, i),
    ensures
        g.find_event(None, variant) == Some(g.deps[d].events[i]),
{
    law_first_event_has_variant(g.events, variant);
    lemma_first_dep_event(g.deps, variant, d, i);
}

/// Where no module has an event of the variant, such a reference means nothing.
pub proof fn law_reference_to_nothing(g: GenModel, variant: Seq<char>)
    requires
        none_of_variant(g.events, variant),
        forall|j: int|
            0 <= j < g.deps.len() ==> none_of_variant((#[trigger] g.deps[j]).events, variant),
    ensures
        g.find_event(None, variant) is None,
{
    law_first_event_has_variant(g.events, variant);
    lemma_no_dep_event(g.deps, variant);
}

} // verus!
