//! Field declarations, as the protocol description gives them.

use vstd::prelude::*;

use crate::text::opt_text;

verus! {

/// The length of a declared list.
#[derive(Debug, PartialEq)]
pub enum Expr {
    /// A number of elements.
    Value(usize),
    /// An expression over other fields, in its source form.
    Formula(String),
}

/// The mathematical form of [`Expr`].
pub enum ExprModel {
    Value(nat),
    Formula(Seq<char>),
}

impl View for Expr {
    type V = ExprModel;

    open spec fn view(&self) -> ExprModel {
        match self {
            Expr::Value(n) => ExprModel::Value(*n as nat),
            Expr::Formula(s) => ExprModel::Formula(s@),
        }
    }
}

/// A declared field. A type is given by its name and, where the declaration
/// qualifies it, by the module that it stands in.
#[derive(Debug, PartialEq)]
pub enum Field {
    /// A field of one value.
    Field { name: String, module: Option<String>, typ: String },
    /// A list whose length is declared.
    List { name: String, module: Option<String>, typ: String, len_expr: Expr },
    /// A list whose length is not declared.
    ListNoLen { name: String, module: Option<String>, typ: String },
    /// That many bytes of padding.
    Pad(usize),
    /// Any other declaration, in its source form.
    Other(String),
}

/// The mathematical form of [`Field`].
pub enum FieldModel {
    Field { name: Seq<char>, module: Option<Seq<char>>, typ: Seq<char> },
    List {
        name: Seq<char>,
        module: Option<Seq<char>>,
        typ: Seq<char>,
        len_expr: ExprModel,
    },
    ListNoLen { name: Seq<char>, module: Option<Seq<char>>, typ: Seq<char> },
    Pad(nat),
    Other(Seq<char>),
}

impl View for Field {
    type V = FieldModel;

    open spec fn view(&self) -> FieldModel {
        match self {
            Field::Field { name, module, typ } => FieldModel::Field {
                name: name@,
                module: opt_text(*module),
                typ: typ@,
            },
            Field::List { name, module, typ, len_expr } => FieldModel::List {
                name: name@,
                module: opt_text(*module),
                typ: typ@,
                len_expr: len_expr@,
            },
            Field::ListNoLen { name, module, typ } => FieldModel::ListNoLen {
                name: name@,
                module: opt_text(*module),
                typ: typ@,
            },
            Field::Pad(n) => FieldModel::Pad(*n as nat),
            Field::Other(s) => FieldModel::Other(s@),
        }
    }
}

/// The declarations of a list of fields.
pub open spec fn field_models(fields: Seq<Field>) -> Seq<FieldModel> {
    fields.map_values(|f: Field| f@)
}

/// The declaration of a field of one value whose type is not qualified.
pub open spec fn plain_field(name: Seq<char>, typ: Seq<char>) -> FieldModel {
    FieldModel::Field { name, module: None, typ }
}

/// The declaration of a field of one value whose type is not qualified.
pub fn make_field(name: &str, typ: &str) -> (f: Field)
    ensures
        f@ == plain_field(name@, typ@),
{
    Field::Field { name: name.to_owned(), module: None, typ: typ.to_owned() }
}

} // verus!
