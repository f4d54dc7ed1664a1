//! What texts and models hold: numbers are written so that they can be read back,
//! and the model of a value is what the value holds.

use vstd::prelude::*;

use crate::frame::EventFrame;
use crate::ir;
use crate::model::{
    event_models, field_models, opt_doc, CodeGen, DepInfo, Doc, Event, Expr, ExprModel, Field,
    FieldModel, Subcode, TypInfo,
};
use crate::output::{blank, line, Output, Piece, PieceModel};
use crate::text::{decimal, indent, opt_text, signed_decimal};

verus! {

/// The number that a sequence of decimal digits stands for.
pub open spec fn number_read(s: Seq<char>) -> int
    decreases s.len(),
{
    if s.len() == 0 {
        0
    } else {
        10 * number_read(s.drop_last()) + (s.last() as int - '0' as int)
    }
}

/// Whether a text consists of decimal digits.
pub open spec fn all_digits(s: Seq<char>) -> bool {
    forall|i: int| 0 <= i < s.len() ==> '0' as int <= #[trigger] s[i] as int <= '9' as int
}

/// A number that is written in decimal is read back as it was: its text consists
/// of digits, stands for the number and does not begin with a needless zero.
pub proof fn law_decimal_is_read_back(n: nat)
    ensures
        decimal(n).len() > 0,
        all_digits(decimal(n)),
        number_read(decimal(n)) == n,
        n > 0 ==> decimal(n)[0] != '0',
        n < 10 ==> decimal(n).len() == 1,
    decreases n,
{
    if n < 10 {
        assert(decimal(n).drop_last() =~= Seq::<char>::empty());
        assert(number_read(Seq::<char>::empty()) == 0);
    } else {
        law_decimal_is_read_back(n / 10);
        assert(decimal(n).drop_last() =~= decimal(n / 10));
    }
}

/// A negative number is written as a minus sign and its magnitude, any other
/// number as its magnitude alone.
pub proof fn law_sign_is_written(n: int)
    ensures
        n >= 0 ==> all_digits(signed_decimal(n)) && number_read(signed_decimal(n)) == n,
        n < 0 ==> signed_decimal(n)[0] == '-' && all_digits(signed_decimal(n).skip(1))
            && number_read(signed_decimal(n).skip(1)) == -n,
        n > 0 ==> signed_decimal(n)[0] != '0',
        n >= 0 ==> signed_decimal(n) == decimal(n as nat),
        n < 0 ==> signed_decimal(n) == seq!['-'] + decimal((-n) as nat),
{
    if n < 0 {
        law_decimal_is_read_back((-n) as nat);
        reveal_strlit("-");
        assert(signed_decimal(n).skip(1) =~= decimal((-n) as nat));
        assert(signed_decimal(n) =~= seq!['-'] + decimal((-n) as nat));
    } else {
        law_decimal_is_read_back(n as nat);
    }
}

/// Each level of indentation is four more spaces.
pub proof fn law_indentation_is_spaces(levels: nat)
    ensures
        indent(0) == Seq::<char>::empty(),
        indent(levels + 1) == indent(levels) + seq![' ', ' ', ' ', ' '],
{
    assert(indent(0) =~= Seq::<char>::empty());
    assert(indent(levels + 1) =~= indent(levels) + seq![' ', ' ', ' ', ' ']);
}

/// An optional string has a text if and only if there is a string, and then its.
pub proof fn law_optional_text(s: Option<String>, t: String)
    ensures
        opt_text(s) is Some <==> s is Some,
        opt_text(Some(t)) == Some(t@),
{
}

/// Of the expressions only a number has a fixed length, which it is itself.
pub proof fn law_fixed_length_of_numbers(x: Expr)
    ensures
        match x {
            Expr::Value(n) => x@ == ExprModel::Value(n as nat) && x@.fixed_length() == Some(
                n as nat,
            ),
            Expr::Unknown(s) => x@ == ExprModel::Unknown(s@) && x@.fixed_length() is None,
            Expr::Formula(s) => x@ == ExprModel::Formula(s@) && x@.fixed_length() is None,
        },
{
}

/// The model of a declared field holds what the field holds.
pub proof fn law_declared_field_model(f: ir::Field)
    ensures
        match f {
            ir::Field::Field { name, module, typ } => f@ == (ir::FieldModel::Field {
                name: name@,
                module: opt_text(module),
                typ: typ@,
            }),
            ir::Field::List { name, module, typ, len_expr } => f@ == (ir::FieldModel::List {
                name: name@,
                module: opt_text(module),
                typ: typ@,
                len_expr: match len_expr {
                    ir::Expr::Value(n) => ir::ExprModel::Value(n as nat),
                    ir::Expr::Formula(s) => ir::ExprModel::Formula(s@),
                },
            }),
            ir::Field::ListNoLen { name, module, typ } => f@ == (ir::FieldModel::ListNoLen {
                name: name@,
                module: opt_text(module),
                typ: typ@,
            }),
            ir::Field::Pad(n) => f@ == ir::FieldModel::Pad(n as nat),
            ir::Field::Other(s) => f@ == ir::FieldModel::Other(s@),
        },
{
}

/// A plain declaration is that of a field of one value with an unqualified type.
pub proof fn law_plain_declaration(name: Seq<char>, typ: Seq<char>)
    ensures
        ir::plain_field(name, typ) == (ir::FieldModel::Field { name, module: None, typ }),
{
}

/// The model of a field holds what the field holds.
pub proof fn law_field_model(f: Field)
    ensures
        match f {
            Field::Field { name, module, rs_typ, wire_sz, struct_style } => f@ == (
            FieldModel::Field {
                name: name@,
                module: opt_text(module),
                rs_typ: rs_typ@,
                wire_sz: wire_sz@,
                struct_style,
            }),
            Field::List { name, module, rs_typ, len_expr, wire_sz, struct_style } => f@ == (
            FieldModel::List {
                name: name@,
                module: opt_text(module),
                rs_typ: rs_typ@,
                len_expr: len_expr@,
                wire_sz: wire_sz@,
                struct_style,
            }),
            Field::Pad { wire_sz } => f@ == (FieldModel::Pad { wire_sz: wire_sz@ }),
            Field::Other { name } => f@ == (FieldModel::Other { name: name@ }),
        },
{
}

/// Models of lists have the models of the elements, in the same places.
pub proof fn law_list_models(
    declared: Seq<ir::Field>,
    fields: Seq<Field>,
    events: Seq<Event>,
    doc: Doc,
    i: int,
)
    ensures
        ir::field_models(declared).len() == declared.len(),
        0 <= i < declared.len() ==> ir::field_models(declared)[i] == declared[i]@,
        field_models(fields).len() == fields.len(),
        0 <= i < fields.len() ==> field_models(fields)[i] == fields[i]@,
        event_models(events).len() == events.len(),
        0 <= i < events.len() ==> event_models(events)[i] == events[i]@,
        doc@.len() == doc.lines@.len(),
        0 <= i < doc@.len() ==> doc@[i] == doc.lines@[i]@,
        opt_doc(None) is None,
        opt_doc(Some(doc)) == Some(doc@),
{
}

/// The model of an event holds what the event holds.
pub proof fn law_event_model(e: Event)
    ensures
        e@.rs_typ == e.rs_typ@,
        e@.variant == e.variant@,
        e@.number == e.number,
        e@.fields == field_models(e.fields@),
        e@.copy_from_rs_typ == opt_text(e.copy_from_rs_typ),
        e@.wire_sz == e.wire_sz@,
        e@.doc == opt_doc(e.doc),
        e@.is_xge == e.is_xge,
{
}

/// The model of a frame holds what the frame holds.
pub proof fn law_frame_model(f: EventFrame)
    ensures
        f@.rs_typ == f.rs_typ@,
        f@.variant == f.variant@,
        f@.number == f.number,
        f@.fields == ir::field_models(f.fields@),
        f@.is_xge == f.is_xge,
        f@.doc == opt_doc(f.doc),
{
}

/// The model of a generator holds what the generator holds.
pub proof fn law_generator_model(g: CodeGen, d: DepInfo, t: TypInfo, c: Subcode, i: int)
    ensures
        g@.xcb_mod == g.xcb_mod@,
        g@.is_core() <==> g.xcb_mod@ == "xproto"@,
        g@.extension is Some <==> g.ext_info is Some,
        g.ext_info matches Some(x) ==> g@.extension == Some(x.rs_name@),
        g@.deps.len() == g.depinfo@.len(),
        0 <= i < g@.deps.len() ==> g@.deps[i] == g.depinfo@[i]@,
        g@.typs.len() == g.typinfos@.len(),
        0 <= i < g@.typs.len() ==> g@.typs[i] == g.typinfos@[i]@,
        g@.subcodes.len() == g.randr_subcodes@.len(),
        0 <= i < g@.subcodes.len() ==> g@.subcodes[i] == g.randr_subcodes@[i]@,
        g@.events == event_models(g.events@),
        g@.need_count == g.rs_typs_need_count@,
        d@.xcb_mod == d.xcb_mod@,
        d@.events == event_models(d.events@),
        t@.module == opt_text(t.module),
        t@.typ == t.typ@,
        t@.wire_sz == t.wire_sz@,
        c@.code == c.code@,
        c@.data == c.data@,
{
}

/// The model of a piece of code holds what the piece holds.
pub proof fn law_piece_model(p: Piece, out: Output, i: int, s: Seq<char>)
    ensures
        match p {
            Piece::Line(s) => p@ == PieceModel::Line(s@),
            Piece::ExprLine { before, expr, after } => p@ == (PieceModel::ExprLine {
                before: before@,
                expr: expr@,
                after: after@,
            }),
            Piece::Accessors(e) => p@ == (PieceModel::Accessors {
                rs_typ: e.rs_typ@,
                fields: field_models(e.fields@),
            }),
            Piece::DebugImpl(e) => p@ == (PieceModel::DebugImpl {
                rs_typ: e.rs_typ@,
                fields: field_models(e.fields@),
            }),
        },
        out@.len() == out.pieces@.len(),
        0 <= i < out@.len() ==> out@[i] == out.pieces@[i]@,
        line(s) == PieceModel::Line(s),
        blank() == PieceModel::Line(Seq::<char>::empty()),
{
}

} // verus!
