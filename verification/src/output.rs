//! Generated code, piece by piece.

use vstd::prelude::*;

use crate::model::{Event, Expr, ExprModel, FieldModel};
use crate::text::{cat2, ind, indent};

verus! {

/// A piece of generated code.
#[derive(Debug, PartialEq)]
pub enum Piece<'a> {
    /// A line of text.
    Line(String),
    /// A line with an expression in it, between two texts.
    ExprLine { before: String, expr: &'a Expr, after: String },
    /// The accessors of the fields of an event.
    Accessors(&'a Event),
    /// The implementation of `Debug` for an event.
    DebugImpl(&'a Event),
}

/// The mathematical form of [`Piece`].
pub enum PieceModel {
    Line(Seq<char>),
    ExprLine { before: Seq<char>, expr: ExprModel, after: Seq<char> },
    Accessors { rs_typ: Seq<char>, fields: Seq<FieldModel> },
    DebugImpl { rs_typ: Seq<char>, fields: Seq<FieldModel> },
}

impl<'a> View for Piece<'a> {
    type V = PieceModel;

    open spec fn view(&self) -> PieceModel {
        match self {
            Piece::Line(s) => PieceModel::Line(s@),
            Piece::ExprLine { before, expr, after } => PieceModel::ExprLine {
                before: before@,
                expr: expr@,
                after: after@,
            },
            Piece::Accessors(e) => PieceModel::Accessors { rs_typ: e@.rs_typ, fields: e@.fields },
            Piece::DebugImpl(e) => PieceModel::DebugImpl { rs_typ: e@.rs_typ, fields: e@.fields },
        }
    }
}

/// A line of text.
pub open spec fn line(s: Seq<char>) -> PieceModel {
    PieceModel::Line(s)
}

/// An empty line.
pub open spec fn blank() -> PieceModel {
    PieceModel::Line(Seq::empty())
}

/// Code that was generated so far.
#[derive(Debug, PartialEq)]
pub struct Output<'a> {
    /// Its pieces, in order.
    pub pieces: Vec<Piece<'a>>,
}

impl<'a> View for Output<'a> {
    type V = Seq<PieceModel>;

    open spec fn view(&self) -> Seq<PieceModel> {
        self.pieces@.map_values(|p: Piece<'a>| p@)
    }
}

impl<'a> Output<'a> {
    /// No code.
    pub fn new() -> (out: Self)
        ensures
            out@ == Seq::<PieceModel>::empty(),
    {
        let out = Output { pieces: Vec::new() };
        assert(out@ =~= Seq::<PieceModel>::empty());
        out
    }

    /// Adds a piece.
    pub fn push(&mut self, piece: Piece<'a>)
        ensures
            final(self)@ == old(self)@.push(piece@),
            final(self).pieces@ == old(self).pieces@.push(piece),
    {
        let ghost before = self@;
        self.pieces.push(piece);
        assert(self@ =~= before.push(piece@));
    }

    /// Adds a line.
    pub fn line(&mut self, s: String)
        ensures
            final(self)@ == old(self)@.push(line(s@)),
    {
        self.push(Piece::Line(s));
    }

    /// Adds a line that is always the same.
    pub fn text(&mut self, s: &str)
        ensures
            final(self)@ == old(self)@.push(line(s@)),
    {
        self.push(Piece::Line(s.to_owned()));
    }

    /// Adds an indented line that is always the same.
    pub fn indented(&mut self, levels: usize, s: &str)
        ensures
            final(self)@ == old(self)@.push(line(indent(levels as nat) + s@)),
    {
        self.line(cat2(ind(levels).as_str(), s));
    }

    /// Adds an empty line.
    pub fn blank(&mut self)
        ensures
            final(self)@ == old(self)@.push(blank()),
    {
        self.push(Piece::Line(String::new()));
    }
}

} // verus!
