//! What holds of the generator as a whole.

use vstd::prelude::*;

use crate::constructor::{implied, moving, parameter, write_field, write_fields};
use crate::dispatch::{arm, arms};
use crate::emit::struct_text;
use crate::frame::{
    event_rs_typ, full_sequence, lemma_full_sequence_unique, xge_header,
    FrameModel,
};
use crate::ir;
use crate::model::{DepModel, EventModel, ExprModel, FieldModel, GenModel};
use crate::resolve::{
    event_fields, first_dep, first_dep_event, first_event, resolved_event,
};
use crate::size::wire_size_of;
use crate::text::{decimal, digit, indent, signed_decimal};

verus! {

/// An event begins with the type of what came over the wire.
pub proof fn law_response_type_first(
    g: GenModel,
    fields: Seq<ir::FieldModel>,
    is_xge: bool,
    no_seq_number: bool,
)
    ensures
        g.framed(fields, is_xge, no_seq_number)[0] == ir::plain_field("response_type"@, "CARD8"@),
{
}

/// Every event that has a sequence number has it as its third field.
pub proof fn law_sequence_third(
    g: GenModel,
    fields: Seq<ir::FieldModel>,
    is_xge: bool,
    no_seq_number: bool,
)
    requires
        is_xge || !no_seq_number,
    ensures
        g.framed(fields, is_xge, no_seq_number)[2] == ir::plain_field("sequence"@, "CARD16"@),
{
}

/// Whether the elements of `part` stand in `whole` at the given places, in their
/// order.
pub open spec fn stands_at<A>(part: Seq<A>, whole: Seq<A>, places: Seq<int>) -> bool {
    &&& places.len() == part.len()
    &&& forall|i: int, j: int|
        0 <= i < j < places.len() ==> #[trigger] places[i] < #[trigger] places[j]
    &&& forall|i: int|
        0 <= i < places.len() ==> 0 <= #[trigger] places[i] < whole.len() && whole[places[i]]
            == part[i]
}

/// Completing a declaration keeps the declared fields, in their order.
pub proof fn law_frame_keeps_declaration(
    g: GenModel,
    fields: Seq<ir::FieldModel>,
    is_xge: bool,
    no_seq_number: bool,
)
    ensures
        exists|places: Seq<int>| #[trigger]
            stands_at(fields, g.framed(fields, is_xge, no_seq_number), places),
{
    let framed = g.framed(fields, is_xge, no_seq_number);
    let full = exists|k: int| g.full_sequence_at(fields, k);
    let k = choose|k: int| g.full_sequence_at(fields, k);
    let places = Seq::new(
        fields.len(),
        |i: int|
            if is_xge {
                if full && i >= k {
                    i + 6
                } else {
                    i + 5
                }
            } else if no_seq_number || i == 0 {
                i + 1
            } else {
                i + 2
            },
    );
    assert forall|i: int| 0 <= i < places.len() implies 0 <= #[trigger] places[i] < framed.len()
        && framed[places[i]] == fields[i] by {
        if is_xge && full && i >= k {
            assert(fields.skip(k)[i - k] == fields[i]);
        }
    }
    assert(stands_at(fields, framed, places));
}

/// The size on the wire of the fields, as far as it is known.
pub open spec fn total_size(g: GenModel, fields: Seq<ir::FieldModel>) -> nat
    decreases fields.len(),
{
    if fields.len() == 0 {
        0
    } else {
        total_size(g, fields.drop_last()) + (match g.ir_field_size(fields.last()).fixed_length() {
            Some(n) => n,
            None => 0,
        })
    }
}

/// Whether the numeric types of the protocol have the sizes that their names say.
pub open spec fn card_sizes(g: GenModel) -> bool {
    &&& wire_size_of(g.typs, None, "CARD8"@) == Some(ExprModel::Value(1))
    &&& wire_size_of(g.typs, None, "CARD16"@) == Some(ExprModel::Value(2))
    &&& wire_size_of(g.typs, None, "CARD32"@) == Some(ExprModel::Value(4))
}

proof fn lemma_total_size_push(g: GenModel, fields: Seq<ir::FieldModel>, f: ir::FieldModel)
    ensures
        total_size(g, fields.push(f)) == total_size(g, fields) + (match g.ir_field_size(
            f,
        ).fixed_length() {
            Some(n) => n,
            None => 0,
        }),
{
    assert(fields.push(f).drop_last() =~= fields);
}

proof fn lemma_header_size(g: GenModel)
    requires
        card_sizes(g),
    ensures
        total_size(g, xge_header()) == 10,
{
    let h = xge_header();
    assert(h.take(0) =~= Seq::<ir::FieldModel>::empty());
    assert(h.take(1) =~= h.take(0).push(h[0]));
    assert(h.take(2) =~= h.take(1).push(h[1]));
    assert(h.take(3) =~= h.take(2).push(h[2]));
    assert(h.take(4) =~= h.take(3).push(h[3]));
    assert(h =~= h.take(4).push(h[4]));
    lemma_total_size_push(g, h.take(0), h[0]);
    lemma_total_size_push(g, h.take(1), h[1]);
    lemma_total_size_push(g, h.take(2), h[2]);
    lemma_total_size_push(g, h.take(3), h[3]);
    lemma_total_size_push(g, h.take(4), h[4]);
}

/// The size that an extended event is taken to have so far is that of its fields.
pub proof fn law_xge_size_is_total(g: GenModel, fields: Seq<ir::FieldModel>, k: int)
    requires
        card_sizes(g),
        0 <= k <= fields.len(),
    ensures
        g.xge_size(fields, k) == total_size(g, xge_header() + fields.take(k)),
    decreases k,
{
    if k == 0 {
        lemma_header_size(g);
        assert(xge_header() + fields.take(0) =~= xge_header());
    } else {
        law_xge_size_is_total(g, fields, k - 1);
        assert(xge_header() + fields.take(k) =~= (xge_header() + fields.take(k - 1)).push(
            fields[k - 1],
        ));
        lemma_total_size_push(g, xge_header() + fields.take(k - 1), fields[k - 1]);
    }
}

/// In an extended event the fields in front of the sequence number in full take
/// up exactly as many bytes as a classic event has.
pub proof fn law_full_sequence_behind_32_bytes(g: GenModel, fields: Seq<ir::FieldModel>, k: int)
    requires
        card_sizes(g),
        g.full_sequence_at(fields, k),
    ensures
        g.framed(fields, true, false)[5 + k] == full_sequence(),
        total_size(g, g.framed(fields, true, false).take(5 + k)) == 32,
{
    let place = choose|k: int| g.full_sequence_at(fields, k);
    lemma_full_sequence_unique(g, fields, k, place);
    law_xge_size_is_total(g, fields, k);
    assert(g.framed(fields, true, false).take(5 + k) =~= xge_header() + fields.take(k));
}

/// An extended event gets the sequence number in full at most once: it has one
/// field more than the declaration and the common fields, or none.
pub proof fn law_full_sequence_at_most_once(g: GenModel, fields: Seq<ir::FieldModel>)
    ensures
        g.framed(fields, true, false).len() == 5 + fields.len() + (if exists|k: int|
            g.full_sequence_at(fields, k) {
            1int
        } else {
            0int
        }),
        forall|j: int, k: int| #[trigger]
            g.full_sequence_at(fields, j) && #[trigger] g.full_sequence_at(fields, k) ==> j == k,
{
    assert forall|j: int, k: int| #[trigger]
        g.full_sequence_at(fields, j) && #[trigger] g.full_sequence_at(fields, k) implies j
        == k by {
        lemma_full_sequence_unique(g, fields, j, k);
    }
}

/// No field of one value in an event is called `new`. All other fields are as
/// they were resolved, and none is added or lost.
pub proof fn law_no_field_called_new(fields: Seq<FieldModel>)
    ensures
        event_fields(fields).len() == fields.len(),
        forall|i: int|
            0 <= i < fields.len() ==> {
                &&& #[trigger] event_fields(fields)[i] matches FieldModel::Field { name, .. }
                    ==> name != "new"@
                &&& !(fields[i] matches FieldModel::Field { name, .. } && name == "new"@)
                    ==> event_fields(fields)[i] == fields[i]
            },
{
    reveal_strlit("new");
    reveal_strlit("new_");
    assert("new_"@.len() == 4 && "new"@.len() == 3);
}

/// Fields that stand in an event stand in another one unchanged.
pub proof fn law_event_fields_idempotent(fields: Seq<FieldModel>)
    ensures
        event_fields(event_fields(fields)) == event_fields(fields),
{
    law_no_field_called_new(fields);
    assert(event_fields(event_fields(fields)) =~= event_fields(fields));
}

/// What is found has the variant that was looked for.
pub proof fn law_first_event_has_variant(events: Seq<EventModel>, variant: Seq<char>)
    ensures
        first_event(events, variant) matches Some(e) ==> e.variant == variant && events.contains(e),
        first_event(events, variant) is None <==> forall|i: int|
            0 <= i < events.len() ==> (#[trigger] events[i]).variant != variant,
    decreases events.len(),
{
    if events.len() > 0 && events[0].variant != variant {
        let rest = events.drop_first();
        law_first_event_has_variant(rest, variant);
        if let Some(e) = first_event(rest, variant) {
            let i = choose|i: int| 0 <= i < rest.len() && rest[i] == e;
            assert(events[i + 1] == e);
        }
        assert(forall|i: int| 0 <= i < rest.len() ==> #[trigger] rest[i] == events[i + 1]);
        assert(forall|i: int| 1 <= i < events.len() ==> #[trigger] events[i] == rest[i - 1]);
    }
}

/// An event that is added behind others is found unless one of those has the same
/// variant; those others are found as before.
pub proof fn law_first_event_push(events: Seq<EventModel>, e: EventModel, variant: Seq<char>)
    ensures
        first_event(events.push(e), variant) == (match first_event(events, variant) {
            Some(found) => Some(found),
            None => if e.variant == variant {
                Some(e)
            } else {
                None
            },
        }),
    decreases events.len(),
{
    if events.len() == 0 {
        assert(events.push(e).drop_first() =~= Seq::<EventModel>::empty());
        assert(first_event(Seq::<EventModel>::empty(), variant) is None);
    } else if events[0].variant != variant {
        law_first_event_push(events.drop_first(), e, variant);
        assert(events.push(e).drop_first() =~= events.drop_first().push(e));
    }
}

/// A reference that names no module means an event of this module where it has
/// one of that name, whatever the other modules have.
pub proof fn law_own_events_first(g: GenModel, variant: Seq<char>)
    requires
        first_event(g.events, variant) is Some,
    ensures
        g.find_event(None, variant) == first_event(g.events, variant),
{
}

/// A reference means an event of the name that it gives.
pub proof fn law_found_event_has_variant(
    g: GenModel,
    module: Option<Seq<char>>,
    variant: Seq<char>,
)
    ensures
        g.find_event(module, variant) matches Some(e) ==> e.variant == variant,
{
    law_first_event_has_variant(g.events, variant);
    lemma_dep_event_has_variant(g.deps, variant);
    if let Some(m) = module {
        if let Some(d) = first_dep(g.deps, m) {
            law_first_event_has_variant(d.events, variant);
        }
    }
}

proof fn lemma_dep_event_has_variant(deps: Seq<DepModel>, variant: Seq<char>)
    ensures
        first_dep_event(deps, variant) matches Some(e) ==> e.variant == variant,
    decreases deps.len(),
{
    if deps.len() > 0 {
        law_first_event_has_variant(deps[0].events, variant);
        lemma_dep_event_has_variant(deps.drop_first(), variant);
    }
}

/// A registered event is what references to its name mean from then on, unless
/// the module has an earlier event of that name.
pub proof fn law_registered_event_is_found(
    g: GenModel,
    frame: FrameModel,
    fields: Seq<FieldModel>,
    wire_sz: ExprModel,
)
    ensures
        g.with_event(frame, fields, wire_sz).find_event(None, frame.variant) == Some(
            match first_event(g.events, frame.variant) {
                Some(e) => e,
                None => resolved_event(frame, fields, wire_sz),
            },
        ),
{
    law_first_event_push(g.events, resolved_event(frame, fields, wire_sz), frame.variant);
}

/// Registering an event does not change what references to earlier events of the
/// module mean, nor what references to other names or into other modules mean.
pub proof fn law_references_are_stable(
    g: GenModel,
    frame: FrameModel,
    fields: Seq<FieldModel>,
    wire_sz: ExprModel,
    module: Option<Seq<char>>,
    variant: Seq<char>,
)
    requires
        module is Some || first_event(g.events, variant) is Some || variant != frame.variant,
    ensures
        g.with_event(frame, fields, wire_sz).find_event(module, variant) == g.find_event(
            module,
            variant,
        ),
{
    law_first_event_push(g.events, resolved_event(frame, fields, wire_sz), variant);
}

/// Registering a copy does not change what references to earlier events of the
/// module mean, nor what references to other names or into other modules mean.
pub proof fn law_references_are_stable_under_copies(
    g: GenModel,
    copy: Seq<char>,
    number: int,
    source: EventModel,
    module: Option<Seq<char>>,
    variant: Seq<char>,
)
    requires
        module is Some || first_event(g.events, variant) is Some || variant != copy,
    ensures
        g.with_copy(copy, number, source).find_event(module, variant) == g.find_event(
            module,
            variant,
        ),
{
    law_first_event_push(g.events, g.with_copy(copy, number, source).events.last(), variant);
    assert(g.with_copy(copy, number, source).events =~= g.events.push(
        g.with_copy(copy, number, source).events.last(),
    ));
}

/// Events with different variants have different Rust types.
pub proof fn law_different_variants_different_types(a: Seq<char>, b: Seq<char>)
    requires
        a != b,
    ensures
        event_rs_typ(a) != event_rs_typ(b),
{
    if event_rs_typ(a) == event_rs_typ(b) {
        let n = "Event"@.len() as int;
        assert(a =~= event_rs_typ(a).take(event_rs_typ(a).len() - n));
        assert(b =~= event_rs_typ(b).take(event_rs_typ(b).len() - n));
    }
}

/// A copy has the content of its source, and so has a copy of the copy. Each
/// names the Rust type of the event that it was copied from.
pub proof fn law_copy_of_copy(
    g: GenModel,
    variant: Seq<char>,
    number: int,
    source: EventModel,
    variant2: Seq<char>,
    number2: int,
)
    requires
        first_event(g.events, variant) is None,
    ensures
        ({
            let g1 = g.with_copy(variant, number, source);
            let copy = g1.find_event(None, variant)->0;
            let copy2 = g1.with_copy(variant2, number2, copy).events.last();
            &&& g1.find_event(None, variant) is Some
            &&& copy.copy_from_rs_typ == Some(source.rs_typ)
            &&& copy2.copy_from_rs_typ == Some(event_rs_typ(variant))
            &&& copy2.fields == source.fields
            &&& copy2.wire_sz == source.wire_sz
            &&& copy2.doc == source.doc
            &&& copy2.is_xge == source.is_xge
        }),
{
    let g1 = g.with_copy(variant, number, source);
    law_first_event_push(g.events, g1.events.last(), variant);
    assert(g1.events =~= g.events.push(g1.events.last()));
}

/// Adding events leaves the earlier ones, and all but the events and the counted
/// types of the generator, as they were. A copy is not counted.
pub proof fn law_events_are_only_added(
    g: GenModel,
    frame: FrameModel,
    fields: Seq<FieldModel>,
    wire_sz: ExprModel,
    variant: Seq<char>,
    number: int,
    source: EventModel,
)
    ensures
        g.with_event(frame, fields, wire_sz).events.drop_last() == g.events,
        g.with_event(frame, fields, wire_sz) == (GenModel {
            events: g.with_event(frame, fields, wire_sz).events,
            need_count: g.need_count.insert(frame.rs_typ, 1),
            ..g
        }),
        g.with_copy(variant, number, source).events.drop_last() == g.events,
        g.with_copy(variant, number, source) == (GenModel {
            events: g.with_copy(variant, number, source).events,
            ..g
        }),
{
    assert(g.with_event(frame, fields, wire_sz).events.drop_last() =~= g.events);
    assert(g.with_copy(variant, number, source).events.drop_last() =~= g.events);
}

/// What a flat map of one element holds, the whole flat map holds.
proof fn lemma_flat_map_contains<A, B>(s: Seq<A>, f: spec_fn(A) -> Seq<B>, i: int, k: int, b: B)
    requires
        0 <= i < k <= s.len(),
        f(s[i]).contains(b),
    ensures
        s.take(k).flat_map(f).contains(b),
    decreases k,
{
    s.lemma_flat_map_take_append(f, k - 1);
    let front = s.take(k - 1).flat_map(f);
    let whole = front + f(s[k - 1]);
    if i == k - 1 {
        let part = f(s[i]);
        let j = choose|j: int| 0 <= j < part.len() && part[j] == b;
        assert(whole[front.len() + j] == b);
    } else {
        lemma_flat_map_contains(s, f, i, k - 1, b);
        let j = choose|j: int| 0 <= j < front.len() && front[j] == b;
        assert(whole[j] == b);
    }
}

/// Every event that has a variant in the enumeration has an arm in the code that
/// is generated to make events of what came over the wire: a classic one among
/// the classic events, an extended one among the extended events.
pub proof fn law_every_variant_is_resolved(g: GenModel, i: int)
    requires
        0 <= i < g.events.len(),
        !g.placeholder(g.events[i]),
    ensures
        g.enum_text().contains(g.variant_text(g.events[i])[0]),
        if g.events[i].is_xge {
            g.has_xge() && !g.is_core() && g.resolve_wire_ge_event_text().contains(
                arm(g.events[i]),
            )
        } else {
            g.has_classic() && g.resolve_wire_event_text().contains(arm(g.events[i]))
        },
{
    let e = g.events[i];
    let n = g.events.len() as int;
    assert(g.events.take(n) =~= g.events);
    let v = |e: EventModel| g.variant_text(e);
    assert(v(e)[0] == g.variant_text(e)[0]);
    lemma_flat_map_contains(g.events, v, i, n, g.variant_text(e)[0]);
    let variants = g.events.flat_map(v);
    let j = choose|j: int| 0 <= j < variants.len() && variants[j] == g.variant_text(e)[0];
    assert(g.enum_text()[4 + j] == variants[j]);
    let a = |x: EventModel|
        if x.is_xge == e.is_xge {
            seq![arm(x)]
        } else {
            Seq::empty()
        };
    assert(a(e)[0] == arm(e));
    lemma_flat_map_contains(g.events, a, i, n, arm(e));
    let all = arms(g.events, e.is_xge);
    assert(all == g.events.flat_map(a));
    let j = choose|j: int| 0 <= j < all.len() && all[j] == arm(e);
    if e.is_xge {
        assert(g.resolve_wire_ge_event_text()[6 + j] == arm(e));
    } else {
        let m = g.wire_match_text().len() as int;
        assert(g.resolve_wire_event_text()[7 + m + j] == arm(e));
    }
}

/// The enumeration has as many variants as there are arms in the code that is
/// generated to make events of what came over the wire.
pub proof fn law_as_many_arms_as_variants(g: GenModel)
    ensures
        g.events.flat_map(|e: EventModel| g.variant_text(e)).len() == arms(g.events, false).len()
            + (if g.is_core() {
            0
        } else {
            arms(g.events, true).len()
        }),
{
    lemma_arm_count(g, g.events.len() as int);
    assert(g.events.take(g.events.len() as int) =~= g.events);
}

proof fn lemma_arm_count(g: GenModel, n: int)
    requires
        0 <= n <= g.events.len(),
    ensures
        g.events.take(n).flat_map(|e: EventModel| g.variant_text(e)).len() == arms(
            g.events.take(n),
            false,
        ).len() + (if g.is_core() {
            0
        } else {
            arms(g.events.take(n), true).len()
        }),
    decreases n,
{
    let v = |e: EventModel| g.variant_text(e);
    let a0 = |e: EventModel|
        if e.is_xge == false {
            seq![arm(e)]
        } else {
            Seq::empty()
        };
    let a1 = |e: EventModel|
        if e.is_xge == true {
            seq![arm(e)]
        } else {
            Seq::empty()
        };
    assert(arms(g.events.take(n), false) == g.events.take(n).flat_map(a0));
    assert(arms(g.events.take(n), true) == g.events.take(n).flat_map(a1));
    if n > 0 {
        lemma_arm_count(g, n - 1);
        assert(arms(g.events.take(n - 1), false) == g.events.take(n - 1).flat_map(a0));
        assert(arms(g.events.take(n - 1), true) == g.events.take(n - 1).flat_map(a1));
        g.events.lemma_flat_map_take_append(v, n - 1);
        g.events.lemma_flat_map_take_append(a0, n - 1);
        g.events.lemma_flat_map_take_append(a1, n - 1);
    }
}

proof fn lemma_decimal_digits(n: nat)
    ensures
        decimal(n).len() > 0,
        n >= 10 ==> decimal(n).len() > 1,
        forall|i: int|
            0 <= i < decimal(n).len() ==> '0' as nat <= #[trigger] decimal(n)[i] as nat <= '9' as nat,
    decreases n,
{
    if n >= 10 {
        lemma_decimal_digits(n / 10);
    }
}

/// Different numbers are written differently.
pub proof fn law_decimal_injective(a: nat, b: nat)
    requires
        decimal(a) == decimal(b),
    ensures
        a == b,
    decreases a,
{
    lemma_decimal_digits(a);
    lemma_decimal_digits(b);
    assert(decimal(a).last() == digit(a % 10));
    assert(decimal(b).last() == digit(b % 10));
    if a >= 10 && b >= 10 {
        assert(decimal(a).drop_last() =~= decimal(a / 10));
        assert(decimal(b).drop_last() =~= decimal(b / 10));
        law_decimal_injective(a / 10, b / 10);
    }
}

/// Different numbers are written differently, be they negative or not.
pub proof fn law_signed_decimal_injective(a: int, b: int)
    requires
        signed_decimal(a) == signed_decimal(b),
    ensures
        a == b,
{
    reveal_strlit("-");
    let ma = if a < 0 { (-a) as nat } else { a as nat };
    let mb = if b < 0 { (-b) as nat } else { b as nat };
    lemma_decimal_digits(ma);
    lemma_decimal_digits(mb);
    if a < 0 {
        assert(signed_decimal(a)[0] == '-');
        assert(signed_decimal(a).skip(1) =~= decimal(ma));
    }
    if b < 0 {
        assert(signed_decimal(b)[0] == '-');
        assert(signed_decimal(b).skip(1) =~= decimal(mb));
    }
    law_decimal_injective(ma, mb);
}

proof fn lemma_signed_decimal_no_space(n: int)
    ensures
        signed_decimal(n).len() > 0,
        forall|i: int| 0 <= i < signed_decimal(n).len() ==> #[trigger] signed_decimal(n)[i] != ' ',
{
    reveal_strlit("-");
    let m = if n < 0 { (-n) as nat } else { n as nat };
    lemma_decimal_digits(m);
    assert forall|i: int| 0 <= i < signed_decimal(n).len() implies #[trigger] signed_decimal(n)[i]
        != ' ' by {
        if n < 0 && i > 0 {
            assert(signed_decimal(n)[i] == decimal(m)[i - 1]);
        } else if n >= 0 {
            assert(signed_decimal(n)[i] == decimal(m)[i]);
        }
    }
}

/// Events with different numbers have different arms.
pub proof fn law_different_numbers_different_arms(a: EventModel, b: EventModel)
    requires
        a.number != b.number,
    ensures
        arm(a) != arm(b),
{
    if arm(a) == arm(b) {
        reveal_strlit(" => Event::");
        let ta = arm(a)->Line_0;
        let tb = arm(b)->Line_0;
        let da = signed_decimal(a.number);
        let db = signed_decimal(b.number);
        lemma_signed_decimal_no_space(a.number);
        lemma_signed_decimal_no_space(b.number);
        let la = da.len() as int;
        let lb = db.len() as int;
        assert(indent(3).len() == 12);
        assert(ta[12 + la] == ' ');
        assert(tb[12 + lb] == ' ');
        if da.len() < db.len() {
            assert(tb[12 + la] == db[da.len() as int]);
        } else if db.len() < da.len() {
            assert(ta[12 + lb] == da[db.len() as int]);
        } else {
            assert(ta.subrange(12, 12 + la) =~= da);
            assert(tb.subrange(12, 12 + lb) =~= db);
            law_signed_decimal_injective(a.number, b.number);
        }
    }
}

/// A constructor writes the fields that it has parameters for, and otherwise only
/// those whose values it computes itself.
pub proof fn law_written_fields_are_parameters(f: FieldModel, moves: bool)
    ensures
        parameter(f).len() > 0 ==> write_field(f, moves).len() > 0,
        write_field(f, moves).len() > 0 ==> parameter(f).len() > 0 || (f matches FieldModel::Field {
            name,
            ..
        } && implied(name)),
{
}

/// Padding at the end of an event does not change what its constructor writes.
pub proof fn law_trailing_pad_is_not_written(fields: Seq<FieldModel>, pad: FieldModel)
    requires
        fields.len() > 0,
        !(fields.last() is Pad),
        pad is Pad,
    ensures
        write_fields(fields.push(pad)) == write_fields(fields),
{
    let padded = fields.push(pad);
    let n = fields.len() as int;
    let p = Seq::new(padded.len(), |i: int| i);
    let q = Seq::new(fields.len(), |i: int| i);
    let fp = |i: int| write_field(padded[i], i < moving(padded));
    let fq = |i: int| write_field(fields[i], i < moving(fields));
    assert(moving(padded) == moving(fields));
    p.lemma_flat_map_take_append(fp, n);
    assert(p.take(n + 1) =~= p);
    assert(p.take(n) =~= q);
    assert(p.flat_map(fp) =~= q.flat_map(fp));
    assert(q.map_values(fp) =~= q.map_values(fq));
}

/// The field that is written last does not move the position, all fields in front
/// of it do.
pub proof fn law_all_but_the_last_field_move(fields: Seq<FieldModel>, last: int)
    requires
        0 <= last < fields.len(),
        !(fields[last] is Pad),
        last == fields.len() - 1 || (last == fields.len() - 2 && fields.last() is Pad),
    ensures
        forall|i: int| 0 <= i < fields.len() && !(fields[i] is Pad) ==> (i < moving(fields) <==> i
            < last),
{
}

/// The code of a classic event that is no copy has a constructor in it.
pub proof fn law_classic_events_have_a_constructor(g: GenModel, e: EventModel)
    requires
        !e.is_xge,
        e.copy_from_rs_typ is None,
    ensures
        exists|i: int|
            0 <= i && i + g.event_new_text(e).len() <= g.event_text(e).len() && #[trigger]
                g.event_text(e).subrange(i, i + g.event_new_text(e).len()) == g.event_new_text(e),
{
    let front = struct_text(e) + g.trait_text(e);
    let i = front.len() as int + 2;
    let n = g.event_new_text(e).len() as int;
    let methods = g.methods_text(e);
    assert(methods.subrange(2, 2 + n) =~= g.event_new_text(e));
    assert(g.event_text(e).subrange(i, i + n) =~= methods.subrange(2, 2 + n));
}

/// The code of a copy depends on nothing but its type, its documentation and the
/// type that it was copied from.
pub proof fn law_copy_is_an_alias(g: GenModel, a: EventModel, b: EventModel)
    requires
        a.copy_from_rs_typ is Some,
        a.copy_from_rs_typ == b.copy_from_rs_typ,
        a.rs_typ == b.rs_typ,
        a.doc == b.doc,
        a.is_xge == b.is_xge,
    ensures
        g.event_text(a) == g.event_text(b),
{
}

/// The code of an event does not depend on the other events of the module.
pub proof fn law_event_code_is_independent(
    g: GenModel,
    others: Seq<EventModel>,
    need_count: Map<Seq<char>, usize>,
    e: EventModel,
)
    ensures
        (GenModel { events: others, need_count, ..g }).event_text(e) == g.event_text(e),
{
}

/// Elements that a flat map makes nothing of can be taken out before.
proof fn lemma_flat_map_filter<A, B>(s: Seq<A>, f: spec_fn(A) -> Seq<B>, keep: spec_fn(A) -> bool)
    requires
        forall|x: A| !keep(x) ==> #[trigger] f(x) == Seq::<B>::empty(),
    ensures
        s.filter(keep).flat_map(f) == s.flat_map(f),
    decreases s.len(),
{
    reveal(Seq::filter);
    if s.len() > 0 {
        let front = s.drop_last();
        lemma_flat_map_filter(front, f, keep);
        assert(s =~= front.push(s.last()));
        front.lemma_flat_map_push(f, s.last());
        if keep(s.last()) {
            front.filter(keep).lemma_flat_map_push(f, s.last());
        } else {
            assert(front.flat_map(f) + Seq::<B>::empty() =~= front.flat_map(f));
        }
    }
}

/// The generator with the classic events only.
pub open spec fn classic_only(g: GenModel) -> GenModel {
    GenModel { events: g.events.filter(|e: EventModel| !e.is_xge), ..g }
}

/// The extended events of the core protocol, which only stand for those of the
/// extensions, add nothing to the code of its events, wherever they stand.
pub proof fn law_placeholders_add_no_code(g: GenModel)
    requires
        g.is_core(),
        g.has_classic(),
    ensures
        g.events_text() == classic_only(g).events_text(),
{
    let h = classic_only(g);
    let classic = |e: EventModel| !e.is_xge;
    let i = choose|i: int| 0 <= i < g.events.len() && !(#[trigger] g.events[i]).is_xge;
    g.events.lemma_filter_contains(classic, i);
    let j = choose|j: int| 0 <= j < h.events.len() && h.events[j] == g.events[i];
    assert(!h.events[j].is_xge);
    assert(h.has_classic());
    let gt = |x: EventModel| g.event_text(x);
    let ht = |x: EventModel| h.event_text(x);
    lemma_flat_map_filter(g.events, gt, classic);
    assert(h.events.map_values(ht) =~= h.events.map_values(gt));
    let gv = |x: EventModel| g.variant_text(x);
    let hv = |x: EventModel| h.variant_text(x);
    lemma_flat_map_filter(g.events, gv, classic);
    assert(h.events.map_values(hv) =~= h.events.map_values(gv));
    let a = |x: EventModel|
        if x.is_xge == false {
            seq![arm(x)]
        } else {
            Seq::empty()
        };
    lemma_flat_map_filter(g.events, a, classic);
    assert(arms(h.events, false) == h.events.flat_map(a));
    assert(arms(g.events, false) == g.events.flat_map(a));
}

} // verus!
