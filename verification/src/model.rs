//! What the generator knows of a protocol module: its types, its events and
//! those of the modules that it depends on.

use vstd::prelude::*;

use crate::need_count::NeedCount;
use crate::text::{copy_opt, opt_text, same};

verus! {

/// A size on the wire or the length of a list.
#[derive(Debug, PartialEq)]
pub enum Expr {
    /// A number that is known when code is generated.
    Value(usize),
    /// Nothing is known of it, for the reason given.
    Unknown(String),
    /// An expression over other fields, in its source form.
    Formula(String),
}

/// The mathematical form of [`Expr`].
pub enum ExprModel {
    Value(nat),
    Unknown(Seq<char>),
    Formula(Seq<char>),
}

impl View for Expr {
    type V = ExprModel;

    open spec fn view(&self) -> ExprModel {
        match self {
            Expr::Value(n) => ExprModel::Value(*n as nat),
            Expr::Unknown(s) => ExprModel::Unknown(s@),
            Expr::Formula(s) => ExprModel::Formula(s@),
        }
    }
}

impl ExprModel {
    /// The number that the expression is known to be, if any.
    pub open spec fn fixed_length(self) -> Option<nat> {
        match self {
            ExprModel::Value(n) => Some(n),
            _ => None,
        }
    }
}

impl Expr {
    /// The number that the expression is known to be, if any.
    pub fn fixed_length(&self) -> (r: Option<usize>)
        ensures
            r is Some <==> self@.fixed_length() is Some,
            r matches Some(n) ==> self@.fixed_length() == Some(n as nat),
    {
        match self {
            Expr::Value(n) => Some(*n),
            _ => None,
        }
    }
}

impl Clone for Expr {
    fn clone(&self) -> (r: Self)
        ensures
            r@ == self@,
    {
        match self {
            Expr::Value(n) => Expr::Value(*n),
            Expr::Unknown(s) => Expr::Unknown(s.clone()),
            Expr::Formula(s) => Expr::Formula(s.clone()),
        }
    }
}

/// How the values of a structure are laid out in memory.
#[derive(Debug, Clone, Copy, PartialEq, Eq)]
pub enum StructStyle {
    /// In a buffer of fixed size.
    FixBuf,
    /// With the same layout as on the wire.
    WireLayout,
    /// In any other way.
    Other,
}

/// A field of an event, with the Rust type that it has in generated code.
#[derive(Debug, PartialEq)]
pub enum Field {
    /// A field of one value.
    Field {
        name: String,
        module: Option<String>,
        rs_typ: String,
        wire_sz: Expr,
        struct_style: Option<StructStyle>,
    },
    /// A list of values.
    List {
        name: String,
        module: Option<String>,
        rs_typ: String,
        len_expr: Expr,
        wire_sz: Expr,
        struct_style: Option<StructStyle>,
    },
    /// Padding.
    Pad { wire_sz: Expr },
    /// A field of any other kind.
    Other { name: String },
}

/// The mathematical form of [`Field`].
pub enum FieldModel {
    Field {
        name: Seq<char>,
        module: Option<Seq<char>>,
        rs_typ: Seq<char>,
        wire_sz: ExprModel,
        struct_style: Option<StructStyle>,
    },
    List {
        name: Seq<char>,
        module: Option<Seq<char>>,
        rs_typ: Seq<char>,
        len_expr: ExprModel,
        wire_sz: ExprModel,
        struct_style: Option<StructStyle>,
    },
    Pad { wire_sz: ExprModel },
    Other { name: Seq<char> },
}

impl View for Field {
    type V = FieldModel;

    open spec fn view(&self) -> FieldModel {
        match self {
            Field::Field { name, module, rs_typ, wire_sz, struct_style } => FieldModel::Field {
                name: name@,
                module: opt_text(*module),
                rs_typ: rs_typ@,
                wire_sz: wire_sz@,
                struct_style: *struct_style,
            },
            Field::List { name, module, rs_typ, len_expr, wire_sz, struct_style } =>
            FieldModel::List {
                name: name@,
                module: opt_text(*module),
                rs_typ: rs_typ@,
                len_expr: len_expr@,
                wire_sz: wire_sz@,
                struct_style: *struct_style,
            },
            Field::Pad { wire_sz } => FieldModel::Pad { wire_sz: wire_sz@ },
            Field::Other { name } => FieldModel::Other { name: name@ },
        }
    }
}

impl Clone for Field {
    fn clone(&self) -> (r: Self)
        ensures
            r@ == self@,
    {
        match self {
            Field::Field { name, module, rs_typ, wire_sz, struct_style } => Field::Field {
                name: name.clone(),
                module: copy_opt(module),
                rs_typ: rs_typ.clone(),
                wire_sz: wire_sz.clone(),
                struct_style: *struct_style,
            },
            Field::List { name, module, rs_typ, len_expr, wire_sz, struct_style } => Field::List {
                name: name.clone(),
                module: copy_opt(module),
                rs_typ: rs_typ.clone(),
                len_expr: len_expr.clone(),
                wire_sz: wire_sz.clone(),
                struct_style: *struct_style,
            },
            Field::Pad { wire_sz } => Field::Pad { wire_sz: wire_sz.clone() },
            Field::Other { name } => Field::Other { name: name.clone() },
        }
    }
}

/// The mathematical form of a list of fields.
pub open spec fn field_models(fields: Seq<Field>) -> Seq<FieldModel> {
    fields.map_values(|f: Field| f@)
}

/// A copy of a list of fields.
pub fn copy_fields(fields: &Vec<Field>) -> (r: Vec<Field>)
    ensures
        field_models(r@) == field_models(fields@),
{
    let mut r: Vec<Field> = Vec::new();
    let mut i: usize = 0;
    while i < fields.len()
        invariant
            i <= fields.len(),
            field_models(r@) == field_models(fields@).take(i as int),
        decreases fields.len() - i,
    {
        let ghost before = field_models(r@);
        r.push(fields[i].clone());
        i = i + 1;
        assert(field_models(r@) =~= before.push(fields@[i - 1]@));
    }
    assert(field_models(fields@).take(i as int) =~= field_models(fields@));
    r
}

/// Documentation of an event: the lines of its doc comment, as they are
/// written above an item that is not indented.
#[derive(Debug, PartialEq)]
pub struct Doc {
    pub lines: Vec<String>,
}

impl View for Doc {
    type V = Seq<Seq<char>>;

    open spec fn view(&self) -> Seq<Seq<char>> {
        self.lines@.map_values(|s: String| s@)
    }
}

impl Clone for Doc {
    fn clone(&self) -> (r: Self)
        ensures
            r@ == self@,
    {
        let mut lines: Vec<String> = Vec::new();
        let mut i: usize = 0;
        while i < self.lines.len()
            invariant
                i <= self.lines.len(),
                lines@.map_values(|s: String| s@) == self@.take(i as int),
            decreases self.lines.len() - i,
        {
            let ghost before = lines@.map_values(|s: String| s@);
            lines.push(self.lines[i].clone());
            i = i + 1;
            assert(lines@.map_values(|s: String| s@) =~= before.push(self.lines@[i - 1]@));
        }
        assert(self@.take(i as int) =~= self@);
        Doc { lines }
    }
}

/// The lines of optional documentation.
pub open spec fn opt_doc(doc: Option<Doc>) -> Option<Seq<Seq<char>>> {
    match doc {
        Some(d) => Some(d@),
        None => None,
    }
}

/// A copy of optional documentation.
pub fn copy_doc(doc: &Option<Doc>) -> (r: Option<Doc>)
    ensures
        opt_doc(r) == opt_doc(*doc),
{
    match doc {
        Some(d) => Some(d.clone()),
        None => None,
    }
}

/// An event of a protocol module.
#[derive(Debug, PartialEq)]
pub struct Event {
    /// The Rust type of the event.
    pub rs_typ: String,
    /// Its variant in the enumeration of the module's events.
    pub variant: String,
    /// Its number on the wire, relative to the first event of the module.
    pub number: i32,
    /// Its fields, in wire order.
    pub fields: Vec<Field>,
    /// For an event that has the same content as another one: the Rust type of
    /// that other event.
    pub copy_from_rs_typ: Option<String>,
    /// Its size on the wire.
    pub wire_sz: Expr,
    /// Its documentation.
    pub doc: Option<Doc>,
    /// Whether it is an extended (generic) event.
    pub is_xge: bool,
}

/// The mathematical form of [`Event`].
pub struct EventModel {
    pub rs_typ: Seq<char>,
    pub variant: Seq<char>,
    pub number: int,
    pub fields: Seq<FieldModel>,
    pub copy_from_rs_typ: Option<Seq<char>>,
    pub wire_sz: ExprModel,
    pub doc: Option<Seq<Seq<char>>>,
    pub is_xge: bool,
}

impl View for Event {
    type V = EventModel;

    open spec fn view(&self) -> EventModel {
        EventModel {
            rs_typ: self.rs_typ@,
            variant: self.variant@,
            number: self.number as int,
            fields: field_models(self.fields@),
            copy_from_rs_typ: opt_text(self.copy_from_rs_typ),
            wire_sz: self.wire_sz@,
            doc: opt_doc(self.doc),
            is_xge: self.is_xge,
        }
    }
}

/// The mathematical form of a list of events.
pub open spec fn event_models(events: Seq<Event>) -> Seq<EventModel> {
    events.map_values(|e: Event| e@)
}

/// The extension that a protocol module describes.
#[derive(Debug, PartialEq)]
pub struct ExtInfo {
    /// The variant of `ext::Extension` that stands for it.
    pub rs_name: String,
}

/// What is known of a module that the generated module depends on.
#[derive(Debug, PartialEq)]
pub struct DepInfo {
    /// The name of the module.
    pub xcb_mod: String,
    /// Its events.
    pub events: Vec<Event>,
}

/// The mathematical form of [`DepInfo`].
pub struct DepModel {
    pub xcb_mod: Seq<char>,
    pub events: Seq<EventModel>,
}

impl View for DepInfo {
    type V = DepModel;

    open spec fn view(&self) -> DepModel {
        DepModel { xcb_mod: self.xcb_mod@, events: event_models(self.events@) }
    }
}

/// The size on the wire of a type.
#[derive(Debug, PartialEq)]
pub struct TypInfo {
    /// The module that declarations qualify the type with, if they do.
    pub module: Option<String>,
    /// The name of the type.
    pub typ: String,
    /// Its size on the wire.
    pub wire_sz: Expr,
}

/// The mathematical form of [`TypInfo`].
pub struct TypModel {
    pub module: Option<Seq<char>>,
    pub typ: Seq<char>,
    pub wire_sz: ExprModel,
}

impl View for TypInfo {
    type V = TypModel;

    open spec fn view(&self) -> TypModel {
        TypModel { module: opt_text(self.module), typ: self.typ@, wire_sz: self.wire_sz@ }
    }
}

/// A case of the data of the `Notify` event of the `randr` module.
#[derive(Debug, PartialEq)]
pub struct Subcode {
    /// The variant of `Notify` that says which case it is.
    pub code: String,
    /// The variant of `NotifyData` that holds the data.
    pub data: String,
}

/// The mathematical form of [`Subcode`].
pub struct SubcodeModel {
    pub code: Seq<char>,
    pub data: Seq<char>,
}

impl View for Subcode {
    type V = SubcodeModel;

    open spec fn view(&self) -> SubcodeModel {
        SubcodeModel { code: self.code@, data: self.data@ }
    }
}

/// The code generator of one protocol module.
#[derive(Debug)]
pub struct CodeGen {
    /// The name of the module.
    pub xcb_mod: String,
    /// The extension that the module describes, if it is not the core protocol.
    pub ext_info: Option<ExtInfo>,
    /// The modules that it depends on.
    pub depinfo: Vec<DepInfo>,
    /// The types that its declarations may use.
    pub typinfos: Vec<TypInfo>,
    /// The cases of the `Notify` event of the `randr` module.
    pub randr_subcodes: Vec<Subcode>,
    /// Its events, in the order in which they were resolved.
    pub events: Vec<Event>,
    /// The Rust types that need to be counted.
    pub rs_typs_need_count: NeedCount,
}

/// The mathematical form of [`CodeGen`].
pub struct GenModel {
    pub xcb_mod: Seq<char>,
    pub extension: Option<Seq<char>>,
    pub deps: Seq<DepModel>,
    pub typs: Seq<TypModel>,
    pub subcodes: Seq<SubcodeModel>,
    pub events: Seq<EventModel>,
    pub need_count: Map<Seq<char>, usize>,
}

impl View for CodeGen {
    type V = GenModel;

    open spec fn view(&self) -> GenModel {
        GenModel {
            xcb_mod: self.xcb_mod@,
            extension: match self.ext_info {
                Some(x) => Some(x.rs_name@),
                None => None,
            },
            deps: self.depinfo@.map_values(|d: DepInfo| d@),
            typs: self.typinfos@.map_values(|t: TypInfo| t@),
            subcodes: self.randr_subcodes@.map_values(|c: Subcode| c@),
            events: event_models(self.events@),
            need_count: self.rs_typs_need_count@,
        }
    }
}

impl GenModel {
    /// Whether the module is the core protocol.
    pub open spec fn is_core(self) -> bool {
        self.xcb_mod == "xproto"@
    }
}

impl CodeGen {
    /// A generator for a module that has no events yet.
    pub fn new(
        xcb_mod: String,
        ext_info: Option<ExtInfo>,
        depinfo: Vec<DepInfo>,
        typinfos: Vec<TypInfo>,
        randr_subcodes: Vec<Subcode>,
    ) -> (g: CodeGen)
        ensures
            g@.xcb_mod == xcb_mod@,
            g@.extension == (match ext_info {
                Some(x) => Some(x.rs_name@),
                None => None,
            }),
            g@.deps == depinfo@.map_values(|d: DepInfo| d@),
            g@.typs == typinfos@.map_values(|t: TypInfo| t@),
            g@.subcodes == randr_subcodes@.map_values(|c: Subcode| c@),
            g@.events == Seq::<EventModel>::empty(),
            g@.need_count == Map::<Seq<char>, usize>::empty(),
    {
        let g = CodeGen {
            xcb_mod,
            ext_info,
            depinfo,
            typinfos,
            randr_subcodes,
            events: Vec::new(),
            rs_typs_need_count: NeedCount::new(),
        };
        assert(g@.events =~= Seq::<EventModel>::empty());
        g
    }

    /// Whether the module is the core protocol.
    pub fn is_core(&self) -> (b: bool)
        ensures
            b == self@.is_core(),
    {
        same(&self.xcb_mod, "xproto")
    }
}

} // verus!
