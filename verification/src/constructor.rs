//! Code of the constructors of events.

use vstd::prelude::*;

use crate::model::{
    field_models, CodeGen, Event, EventModel, Expr, ExprModel, Field, FieldModel, GenModel,
    StructStyle, SubcodeModel,
};
use crate::output::{blank, line, Output, Piece, PieceModel};
use crate::text::{
    cat2, cat3, cat4, cat5, cat6, cat7, cat8, dec, decimal, ind, indent, opt_text, same,
    signed_dec, signed_decimal,
};

verus! {

/// A Rust type with the module that it stands in.
pub open spec fn qualified(module: Option<Seq<char>>, rs_typ: Seq<char>) -> Seq<char> {
    match module {
        Some(m) => m + "::"@ + rs_typ,
        None => rs_typ,
    }
}

/// A Rust type with the module that it stands in.
pub fn qualified_rs_typ(module: &Option<String>, rs_typ: &String) -> (s: String)
    ensures
        s@ == qualified(opt_text(*module), rs_typ@),
{
    match module {
        Some(m) => cat3(m.as_str(), "::", rs_typ.as_str()),
        None => rs_typ.clone(),
    }
}

/// Whether values of the style are handed to a constructor as they are.
pub open spec fn fixed_style(style: Option<StructStyle>) -> bool {
    style != Some(StructStyle::Other)
}

/// Whether values of the style are handed to a constructor as they are.
pub fn is_fixed_style(style: &Option<StructStyle>) -> (b: bool)
    ensures
        b == fixed_style(*style),
{
    match style {
        Some(StructStyle::Other) => false,
        _ => true,
    }
}

/// Whether a constructor can write the field.
pub open spec fn writable(f: FieldModel) -> bool {
    match f {
        FieldModel::Field { rs_typ, wire_sz, struct_style, .. } => {
            &&& fixed_style(struct_style)
            &&& rs_typ == "bool"@ ==> (wire_sz matches ExprModel::Value(sz) ==> sz * 8
                <= usize::MAX)
        },
        FieldModel::List { struct_style, .. } => fixed_style(struct_style),
        FieldModel::Pad { .. } => true,
        FieldModel::Other { .. } => false,
    }
}

/// Whether a constructor can be written for the event: it has a fixed size that
/// does not exceed that of a classic event, and fields that can be written.
pub open spec fn constructible(e: EventModel) -> bool {
    &&& e.wire_sz matches ExprModel::Value(sz) && sz <= 32
    &&& e.fields.len() > 0
    &&& e.fields.last() is Pad ==> e.fields.len() >= 2
    &&& forall|i: int| 0 <= i < e.fields.len() ==> writable(#[trigger] e.fields[i])
}

/// Whether a field of the name gets its value from the constructor itself.
pub open spec fn implied(name: Seq<char>) -> bool {
    ||| name == "response_type"@
    ||| name == "sequence"@
    ||| name == "format"@
    ||| name == "sub_code"@
}

/// The parameter of a constructor for a field.
pub open spec fn parameter(f: FieldModel) -> Seq<PieceModel> {
    match f {
        FieldModel::Field { name, module, rs_typ, .. } => if implied(name) {
            Seq::empty()
        } else {
            seq![line("        "@ + name + ": "@ + qualified(module, rs_typ) + ","@)]
        },
        FieldModel::List { name, module, rs_typ, len_expr: ExprModel::Value(len), .. } => seq![
            line(
                "        "@ + name + ": ["@ + qualified(module, rs_typ) + "; "@ + decimal(len)
                    + "],"@,
            ),
        ],
        FieldModel::List { name, module, rs_typ, .. } => seq![
            line("        "@ + name + ": &["@ + qualified(module, rs_typ) + "],"@),
        ],
        _ => Seq::empty(),
    }
}

/// The parameters of a constructor for fields.
pub open spec fn parameters(fields: Seq<FieldModel>) -> Seq<PieceModel> {
    fields.flat_map(|f: FieldModel| parameter(f))
}

/// How many of the first fields move the position at which the next one is
/// written: all but the last that is written, as far as padding at the very end
/// tells.
pub open spec fn moving(fields: Seq<FieldModel>) -> int {
    if fields.last() is Pad {
        fields.len() - 2
    } else {
        fields.len() - 1
    }
}

/// The lines of a constructor that write a field. With `moves` they move the
/// position behind it.
pub open spec fn write_field(f: FieldModel, moves: bool) -> Seq<PieceModel> {
    match f {
        FieldModel::Field { name, rs_typ, wire_sz, .. } => {
            (match wire_sz {
                ExprModel::Value(sz) if rs_typ == "bool"@ => seq![
                    line(
                        indent(3) + "let "@ + name + ": u"@ + decimal(sz * 8) + " = if "@ + name
                            + " { 1 } else { 0 };"@,
                    ),
                ],
                _ => Seq::empty(),
            }) + seq![
                line(
                    indent(3) + (if moves {
                        "wire_off += "@
                    } else {
                        ""@
                    }) + name + ".serialize(&mut wire_buf[wire_off ..]);"@,
                ),
            ]
        },
        FieldModel::List { name, module, rs_typ, len_expr, wire_sz, .. } => {
            seq![
                PieceModel::ExprLine {
                    before: indent(3)
                        + "std::slice::from_raw_parts_mut(ptr.add(wire_off) as *mut "@ + qualified(
                        module,
                        rs_typ,
                    ) + ", "@,
                    expr: len_expr,
                    after: ")"@,
                },
                line(indent(3) + "    .copy_from_slice(&"@ + name + ");"@),
            ] + (if moves {
                seq![
                    PieceModel::ExprLine {
                        before: indent(3) + "wire_off += "@,
                        expr: wire_sz,
                        after: ";"@,
                    },
                ]
            } else {
                Seq::empty()
            })
        },
        _ => Seq::empty(),
    }
}

/// The lines of a constructor that write fields.
pub open spec fn write_fields(fields: Seq<FieldModel>) -> Seq<PieceModel> {
    Seq::new(fields.len(), |i: int| i).flat_map(
        |i: int| write_field(fields[i], i < moving(fields)),
    )
}

/// What the constructor of an event writes and returns.
pub open spec fn new_writes_text(e: EventModel) -> Seq<PieceModel> {
    seq![blank()] + write_fields(e.fields) + seq![
        blank(),
        line(indent(3) + e.rs_typ + "::from_raw(ptr as *mut xcb_generic_event_t)"@),
        line(indent(2) + "}"@),
        line(indent(1) + "}"@),
    ]
}

/// The line of a constructor that gives the format of a client message.
pub open spec fn format_arm(bits: nat) -> PieceModel {
    line(
        indent(4) + "ClientMessageData::Data"@ + decimal(bits) + "{..} => "@ + decimal(bits)
            + ","@,
    )
}

/// The line of a constructor that gives the sub-code of a `randr` notification.
pub open spec fn subcode_arm(c: SubcodeModel) -> PieceModel {
    line(
        indent(4) + "NotifyData::"@ + c.data
            + "{..} => std::mem::transmute::<_, u32>(Notify::"@ + c.code + ") as _,"@,
    )
}

impl GenModel {
    /// The lines of a constructor that compute the type of an event on the wire.
    pub open spec fn response_type_text(self, e: EventModel) -> PieceModel {
        line(
            indent(3) + "let response_type = "@ + (if self.is_core() {
                signed_decimal(e.number) + "u8"@
            } else if e.number == 0 {
                "event_base"@
            } else {
                signed_decimal(e.number) + "u8 + event_base"@
            }) + ";"@,
        )
    }

    /// The lines of a constructor that compute what depends on the data of an
    /// event.
    pub open spec fn implied_text(self, e: EventModel) -> Seq<PieceModel> {
        (if e.rs_typ == "ClientMessageEvent"@ {
            seq![
                line(indent(3) + "let format: u8 = match data {"@),
                format_arm(8),
                format_arm(16),
                format_arm(32),
                line(indent(3) + "};"@),
            ]
        } else {
            Seq::empty()
        }) + (if self.xcb_mod == "randr"@ && e.rs_typ == "NotifyEvent"@ {
            seq![line(indent(3) + "let sub_code: u8 = match u {"@)] + self.subcodes.map_values(
                |c: SubcodeModel| subcode_arm(c),
            ) + seq![line(indent(3) + "};"@)]
        } else {
            Seq::empty()
        })
    }

    /// The signature of the constructor of an event.
    pub open spec fn new_signature_text(self, e: EventModel) -> Seq<PieceModel> {
        seq![
            line("    pub fn "@ + (if self.is_core() {
                "new("@
            } else {
                "new(event_base: u8,"@
            })),
        ] + parameters(e.fields) + seq![line("    ) -> "@ + e.rs_typ + " {"@)]
    }

    /// What the constructor of an event computes before it writes the fields.
    pub open spec fn new_locals_text(self, e: EventModel) -> Seq<PieceModel> {
        seq![
            line(indent(2) + "unsafe {"@),
            line(indent(3) + "let ptr = libc::malloc(32) as *mut u8;"@),
            line(indent(3) + "let wire_buf = std::slice::from_raw_parts_mut(ptr, 32);"@),
            line(indent(3) + "let mut wire_off = 0usize;"@),
            self.response_type_text(e),
            line(indent(3) + "let sequence = 0u16;"@),
        ] + self.implied_text(e)
    }

    /// The constructor of an event.
    pub open spec fn event_new_text(self, e: EventModel) -> Seq<PieceModel> {
        self.new_signature_text(e) + self.new_locals_text(e) + new_writes_text(e)
    }
}

/// Whether a constructor can write the field.
fn is_writable(f: &Field) -> (b: bool)
    ensures
        b == writable(f@),
{
    match f {
        Field::Field { rs_typ, wire_sz, struct_style, .. } => {
            if !is_fixed_style(struct_style) {
                false
            } else if same(rs_typ, "bool") {
                match wire_sz {
                    Expr::Value(sz) => *sz <= usize::MAX / 8,
                    _ => true,
                }
            } else {
                true
            }
        },
        Field::List { struct_style, .. } => is_fixed_style(struct_style),
        Field::Pad { .. } => true,
        Field::Other { .. } => false,
    }
}

/// Whether the field is padding.
fn is_pad(f: &Field) -> (b: bool)
    ensures
        b == f@ is Pad,
{
    match f {
        Field::Pad { .. } => true,
        _ => false,
    }
}

/// Whether a constructor can be written for the event.
pub fn is_constructible(event: &Event) -> (b: bool)
    ensures
        b == constructible(event@),
{
    let fixed = match &event.wire_sz {
        Expr::Value(sz) => *sz <= 32,
        _ => false,
    };
    let n: usize = event.fields.len();
    if !fixed || n == 0 || (n < 2 && is_pad(&event.fields[n - 1])) {
        return false;
    }
    assert(event@.fields.last() == event.fields@[n - 1]@);
    let mut i: usize = 0;
    while i < n
        invariant
            n == event.fields@.len(),
            i <= n,
            forall|j: int| 0 <= j < i ==> writable(#[trigger] event@.fields[j]),
        decreases n - i,
    {
        assert(event@.fields[i as int] == event.fields@[i as int]@);
        if !is_writable(&event.fields[i]) {
            return false;
        }
        i = i + 1;
    }
    true
}

/// Whether a field of the name gets its value from the constructor itself.
fn is_implied(name: &String) -> (b: bool)
    ensures
        b == implied(name@),
{
    same(name, "response_type") || same(name, "sequence") || same(name, "format") || same(
        name,
        "sub_code",
    )
}

/// Adds the parameter for a field.
fn emit_parameter(out: &mut Output, f: &Field)
    ensures
        final(out)@ == old(out)@ + parameter(f@),
{
    match f {
        Field::Field { name, module, rs_typ, .. } => {
            if !is_implied(name) {
                let typ = qualified_rs_typ(module, rs_typ);
                out.line(cat5("        ", name.as_str(), ": ", typ.as_str(), ","));
            }
        },
        Field::List { name, module, rs_typ, len_expr, .. } => {
            let typ = qualified_rs_typ(module, rs_typ);
            match len_expr {
                Expr::Value(len) => {
                    out.line(
                        cat7(
                            "        ",
                            name.as_str(),
                            ": [",
                            typ.as_str(),
                            "; ",
                            dec(*len as u64).as_str(),
                            "],",
                        ),
                    );
                },
                _ => {
                    out.line(cat5("        ", name.as_str(), ": &[", typ.as_str(), "],"));
                },
            }
        },
        _ => {},
    }
    assert(out@ =~= old(out)@ + parameter(f@));
}

/// Adds the lines that write a field.
fn emit_write_field<'a>(out: &mut Output<'a>, f: &'a Field, moves: bool)
    requires
        writable(f@),
    ensures
        final(out)@ == old(out)@ + write_field(f@, moves),
{
    match f {
        Field::Field { name, rs_typ, wire_sz, .. } => {
            if same(rs_typ, "bool") {
                if let Expr::Value(sz) = wire_sz {
                    out.line(
                        cat8(
                            ind(3).as_str(),
                            "let ",
                            name.as_str(),
                            ": u",
                            dec((*sz * 8) as u64).as_str(),
                            " = if ",
                            name.as_str(),
                            " { 1 } else { 0 };",
                        ),
                    );
                }
            }
            let assignment = if moves {
                "wire_off += "
            } else {
                ""
            };
            out.line(
                cat4(
                    ind(3).as_str(),
                    assignment,
                    name.as_str(),
                    ".serialize(&mut wire_buf[wire_off ..]);",
                ),
            );
        },
        Field::List { name, module, rs_typ, len_expr, wire_sz, .. } => {
            let typ = qualified_rs_typ(module, rs_typ);
            out.push(
                Piece::ExprLine {
                    before: cat4(
                        ind(3).as_str(),
                        "std::slice::from_raw_parts_mut(ptr.add(wire_off) as *mut ",
                        typ.as_str(),
                        ", ",
                    ),
                    expr: len_expr,
                    after: ")".to_owned(),
                },
            );
            out.line(cat4(ind(3).as_str(), "    .copy_from_slice(&", name.as_str(), ");"));
            if moves {
                out.push(
                    Piece::ExprLine {
                        before: cat2(ind(3).as_str(), "wire_off += "),
                        expr: wire_sz,
                        after: ";".to_owned(),
                    },
                );
            }
        },
        _ => {},
    }
    assert(out@ =~= old(out)@ + write_field(f@, moves));
}

/// Adds the parameters for fields.
fn emit_parameters(out: &mut Output, fields: &Vec<Field>)
    ensures
        final(out)@ == old(out)@ + parameters(field_models(fields@)),
{
    let ghost all = field_models(fields@);
    let ghost f = |f: FieldModel| parameter(f);
    let ghost start = out@;
    let mut i: usize = 0;
    assert(out@ =~= start + all.take(0).flat_map(f));
    while i < fields.len()
        invariant
            i <= fields@.len(),
            all == field_models(fields@),
            f == (|f: FieldModel| parameter(f)),
            out@ == start + all.take(i as int).flat_map(f),
        decreases fields@.len() - i,
    {
        let ghost before = out@;
        emit_parameter(out, &fields[i]);
        proof {
            assert(all[i as int] == fields@[i as int]@);
            assert(out@ == before + f(all[i as int]));
            all.lemma_flat_map_take_append(f, i as int);
            assert(out@ =~= start + all.take(i + 1).flat_map(f));
        }
        i = i + 1;
    }
    assert(all.take(i as int) =~= all);
}

/// Adds the lines that write fields.
fn emit_write_fields<'a>(out: &mut Output<'a>, fields: &'a Vec<Field>)
    requires
        fields@.len() > 0,
        field_models(fields@).last() is Pad ==> fields@.len() >= 2,
        forall|i: int| 0 <= i < fields@.len() ==> writable(#[trigger] field_models(fields@)[i]),
    ensures
        final(out)@ == old(out)@ + write_fields(field_models(fields@)),
{
    let n: usize = fields.len();
    let ghost all = field_models(fields@);
    assert(all.last() == fields@[n - 1]@);
    let limit: usize = if is_pad(&fields[n - 1]) {
        n - 2
    } else {
        n - 1
    };
    let ghost places = Seq::new(all.len(), |i: int| i);
    let ghost f = |i: int| write_field(all[i], i < moving(all));
    let ghost start = out@;
    let mut i: usize = 0;
    assert(out@ =~= start + places.take(0).flat_map(f));
    while i < n
        invariant
            i <= n == fields@.len(),
            all == field_models(fields@),
            limit == moving(all),
            places == Seq::new(all.len(), |i: int| i),
            f == (|i: int| write_field(all[i], i < moving(all))),
            forall|i: int| 0 <= i < n ==> writable(#[trigger] all[i]),
            out@ == start + places.take(i as int).flat_map(f),
        decreases n - i,
    {
        let ghost before = out@;
        assert(all[i as int] == fields@[i as int]@);
        emit_write_field(out, &fields[i], i < limit);
        proof {
            assert(places[i as int] == i);
            assert(out@ == before + f(places[i as int]));
            places.lemma_flat_map_take_append(f, i as int);
            assert(out@ =~= start + places.take(i + 1).flat_map(f));
        }
        i = i + 1;
    }
    assert(places.take(i as int) =~= places);
}

/// Adds the line that gives the format of a client message.
fn emit_format_arm(out: &mut Output, bits: u64)
    ensures
        final(out)@ == old(out)@.push(format_arm(bits as nat)),
{
    let n = dec(bits);
    out.line(
        cat6(
            ind(4).as_str(),
            "ClientMessageData::Data",
            n.as_str(),
            "{..} => ",
            n.as_str(),
            ",",
        ),
    );
}

/// Adds what the constructor of an event writes and returns.
fn emit_new_writes<'a>(out: &mut Output<'a>, event: &'a Event)
    requires
        constructible(event@),
    ensures
        final(out)@ == old(out)@ + new_writes_text(event@),
{
    out.blank();
    emit_write_fields(out, &event.fields);
    out.blank();
    out.line(
        cat3(
            ind(3).as_str(),
            event.rs_typ.as_str(),
            "::from_raw(ptr as *mut xcb_generic_event_t)",
        ),
    );
    out.indented(2, "}");
    out.indented(1, "}");
    assert(out@ =~= old(out)@ + new_writes_text(event@));
}

/// Three parts that are added one by one are added as a whole.
proof fn lemma_three_parts(
    start: Seq<PieceModel>,
    a: Seq<PieceModel>,
    b: Seq<PieceModel>,
    c: Seq<PieceModel>,
)
    ensures
        start + a + b + c == start + (a + b + c),
{
    assert(start + a + b + c =~= start + (a + b + c));
}

impl CodeGen {
    /// Adds the lines that give the sub-codes of `randr` notifications.
    fn emit_subcode_arms(&self, out: &mut Output)
        ensures
            final(out)@ == old(out)@ + self@.subcodes.map_values(
                |c: SubcodeModel| subcode_arm(c),
            ),
    {
        let ghost all = self@.subcodes.map_values(|c: SubcodeModel| subcode_arm(c));
        let ghost start = out@;
        let mut i: usize = 0;
        assert(out@ =~= start + all.take(0));
        while i < self.randr_subcodes.len()
            invariant
                i <= self.randr_subcodes@.len(),
                all == self@.subcodes.map_values(|c: SubcodeModel| subcode_arm(c)),
                out@ == start + all.take(i as int),
            decreases self.randr_subcodes@.len() - i,
        {
            let c = &self.randr_subcodes[i];
            out.line(
                cat6(
                    ind(4).as_str(),
                    "NotifyData::",
                    c.data.as_str(),
                    "{..} => std::mem::transmute::<_, u32>(Notify::",
                    c.code.as_str(),
                    ") as _,",
                ),
            );
            proof {
                assert(all[i as int] == subcode_arm(c@));
                assert(out@ =~= start + all.take(i + 1));
            }
            i = i + 1;
        }
        assert(all.take(i as int) =~= all);
    }

    /// Adds the lines that compute what depends on the data of an event.
    fn emit_implied(&self, out: &mut Output, event: &Event)
        ensures
            final(out)@ == old(out)@ + self@.implied_text(event@),
    {
        if same(&event.rs_typ, "ClientMessageEvent") {
            out.indented(3, "let format: u8 = match data {");
            emit_format_arm(out, 8);
            emit_format_arm(out, 16);
            emit_format_arm(out, 32);
            out.indented(3, "};");
        }
        if same(&self.xcb_mod, "randr") && same(&event.rs_typ, "NotifyEvent") {
            out.indented(3, "let sub_code: u8 = match u {");
            self.emit_subcode_arms(out);
            out.indented(3, "};");
        }
        assert(out@ =~= old(out)@ + self@.implied_text(event@));
    }

    /// Adds the line that computes the type of an event on the wire.
    fn emit_response_type(&self, out: &mut Output, event: &Event)
        ensures
            final(out)@ == old(out)@.push(self@.response_type_text(event@)),
    {
        let number = signed_dec(event.number);
        let value = if self.is_core() {
            cat2(number.as_str(), "u8")
        } else if event.number == 0 {
            "event_base".to_owned()
        } else {
            cat2(number.as_str(), "u8 + event_base")
        };
        out.line(cat4(ind(3).as_str(), "let response_type = ", value.as_str(), ";"));
    }

    /// Adds the signature of the constructor of an event.
    fn emit_new_signature(&self, out: &mut Output, event: &Event)
        ensures
            final(out)@ == old(out)@ + self@.new_signature_text(event@),
    {
        let fn_decl = if self.is_core() {
            "new("
        } else {
            "new(event_base: u8,"
        };
        out.line(cat2("    pub fn ", fn_decl));
        emit_parameters(out, &event.fields);
        out.line(cat3("    ) -> ", event.rs_typ.as_str(), " {"));
        assert(out@ =~= old(out)@ + self@.new_signature_text(event@));
    }

    /// Adds what the constructor of an event computes before it writes the fields.
    fn emit_new_locals(&self, out: &mut Output, event: &Event)
        ensures
            final(out)@ == old(out)@ + self@.new_locals_text(event@),
    {
        out.indented(2, "unsafe {");
        out.indented(3, "let ptr = libc::malloc(32) as *mut u8;");
        out.indented(3, "let wire_buf = std::slice::from_raw_parts_mut(ptr, 32);");
        out.indented(3, "let mut wire_off = 0usize;");
        self.emit_response_type(out, event);
        out.indented(3, "let sequence = 0u16;");
        self.emit_implied(out, event);
        assert(out@ =~= old(out)@ + self@.new_locals_text(event@));
    }

    /// Adds the constructor of an event.
    pub fn emit_event_new<'a>(&self, out: &mut Output<'a>, event: &'a Event)
        requires
            constructible(event@),
        ensures
            final(out)@ == old(out)@ + self@.event_new_text(event@),
    {
        self.emit_new_signature(out, event);
        self.emit_new_locals(out, event);
        emit_new_writes(out, event);
        proof {
            lemma_three_parts(
                old(out)@,
                self@.new_signature_text(event@),
                self@.new_locals_text(event@),
                new_writes_text(event@),
            );
        }
    }
}

} // verus!
