//! Sizes on the wire of types and of declared fields.

use vstd::prelude::*;

use crate::ir;
use crate::model::{CodeGen, Expr, ExprModel, GenModel, TypInfo, TypModel};
use crate::text::{opt_text, same, same_opt};

verus! {

/// The size on the wire of the type that is called `typ` in `module`, or that is
/// called `typ` without a module: that of the first entry which agrees in both.
pub open spec fn wire_size_of(
    typs: Seq<TypModel>,
    module: Option<Seq<char>>,
    typ: Seq<char>,
) -> Option<ExprModel>
    decreases typs.len(),
{
    if typs.len() == 0 {
        None
    } else if typs[0].module == module && typs[0].typ == typ {
        Some(typs[0].wire_sz)
    } else {
        wire_size_of(typs.drop_first(), module, typ)
    }
}

impl GenModel {
    /// Whether the size on the wire of a declared field can be asked for.
    pub open spec fn sizable(self, f: ir::FieldModel) -> bool {
        match f {
            ir::FieldModel::Field { module, typ, .. } => wire_size_of(self.typs, module, typ) is Some,
            ir::FieldModel::List { module, typ, len_expr: ir::ExprModel::Value(len), .. } => {
                &&& wire_size_of(self.typs, module, typ) is Some
                &&& wire_size_of(self.typs, module, typ)->0 matches ExprModel::Value(sz) ==> len * sz
                    <= usize::MAX
            },
            ir::FieldModel::Other(_) => false,
            _ => true,
        }
    }

    /// The size on the wire of a declared field.
    pub open spec fn ir_field_size(self, f: ir::FieldModel) -> ExprModel {
        match f {
            ir::FieldModel::Field { module, typ, .. } => wire_size_of(self.typs, module, typ)->0,
            ir::FieldModel::List { module, typ, len_expr: ir::ExprModel::Value(len), .. } => {
                match wire_size_of(self.typs, module, typ)->0 {
                    ExprModel::Value(sz) => ExprModel::Value(len * sz),
                    _ => ExprModel::Unknown("variable list"@),
                }
            },
            ir::FieldModel::Pad(sz) => ExprModel::Value(sz),
            _ => ExprModel::Unknown("variable list"@),
        }
    }
}

impl CodeGen {
    /// What is known of the type that is called `typ` in `module`, or that is
    /// called `typ` without a module.
    pub fn find_typinfo(&self, module: &Option<String>, typ: &str) -> (r: Option<&TypInfo>)
        ensures
            wire_size_of(self@.typs, opt_text(*module), typ@) == (match r {
                Some(t) => Some(t.wire_sz@),
                None => None,
            }),
            r matches Some(t) ==> opt_text(t.module) == opt_text(*module) && t.typ@ == typ@,
    {
        let mut i: usize = 0;
        assert(self@.typs.skip(0) =~= self@.typs);
        while i < self.typinfos.len()
            invariant
                i <= self.typinfos@.len(),
                wire_size_of(self@.typs, opt_text(*module), typ@) == wire_size_of(
                    self@.typs.skip(i as int),
                    opt_text(*module),
                    typ@,
                ),
            decreases self.typinfos@.len() - i,
        {
            let ghost rest = self@.typs.skip(i as int);
            assert(rest[0] == self.typinfos@[i as int]@);
            if same_opt(&self.typinfos[i].module, module) && same(&self.typinfos[i].typ, typ) {
                return Some(&self.typinfos[i]);
            }
            assert(rest.drop_first() =~= self@.typs.skip(i + 1));
            i = i + 1;
        }
        None
    }

    /// The size on the wire of the type that is called `typ` in `module`, or that
    /// is called `typ` without a module.
    pub fn typ_wire_sz(&self, module: &Option<String>, typ: &str) -> (r: Expr)
        requires
            wire_size_of(self@.typs, opt_text(*module), typ@) is Some,
        ensures
            wire_size_of(self@.typs, opt_text(*module), typ@) == Some(r@),
    {
        self.find_typinfo(module, typ).unwrap().wire_sz.clone()
    }

    /// The size on the wire of a declared field.
    pub fn ir_field_sizeof(&self, f: &ir::Field) -> (r: Expr)
        requires
            self@.sizable(f@),
        ensures
            r@ == self@.ir_field_size(f@),
    {
        match f {
            ir::Field::Field { module, typ, .. } => self.typ_wire_sz(module, typ.as_str()),
            ir::Field::List { module, typ, len_expr: ir::Expr::Value(len), .. } => {
                if let Expr::Value(sz) = self.typ_wire_sz(module, typ.as_str()) {
                    Expr::Value(*len * sz)
                } else {
                    Expr::Unknown("variable list".to_owned())
                }
            },
            ir::Field::Pad(sz) => Expr::Value(*sz),
            _ => Expr::Unknown("variable list".to_owned()),
        }
    }

    /// Whether the size on the wire of a declared field can be asked for.
    pub fn is_sizable(&self, f: &ir::Field) -> (b: bool)
        ensures
            b == self@.sizable(f@),
    {
        match f {
            ir::Field::Field { module, typ, .. } => self.find_typinfo(module, typ.as_str()).is_some(),
            ir::Field::List { module, typ, len_expr: ir::Expr::Value(len), .. } => {
                if !self.find_typinfo(module, typ.as_str()).is_some() {
                    false
                } else if let Expr::Value(sz) = self.typ_wire_sz(module, typ.as_str()) {
                    len.checked_mul(sz).is_some()
                } else {
                    true
                }
            },
            ir::Field::Other(_) => false,
            _ => true,
        }
    }
}

} // verus!
