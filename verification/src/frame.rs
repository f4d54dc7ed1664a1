//! The fields that all events have in common.
//!
//! A declaration names the fields that are particular to an event. Here the
//! others are put round them.

use vstd::prelude::*;

use crate::ir;
use crate::model::{opt_doc, CodeGen, Doc, GenModel};
use crate::text::cat2;

verus! {

/// The bytes that the fields common to all extended events take up.
pub open spec fn xge_header_size() -> nat {
    10
}

/// The number of bytes on the wire at which the sequence number in full is put
/// into an extended event.
pub open spec fn full_sequence_offset() -> nat {
    32
}

/// The fields that extended events begin with.
pub open spec fn xge_header() -> Seq<ir::FieldModel> {
    seq![
        ir::plain_field("response_type"@, "CARD8"@),
        ir::plain_field("extension"@, "CARD8"@),
        ir::plain_field("sequence"@, "CARD16"@),
        ir::plain_field("length"@, "CARD32"@),
        ir::plain_field("event_type"@, "CARD16"@),
    ]
}

/// The field that holds the sequence number in full.
pub open spec fn full_sequence() -> ir::FieldModel {
    ir::plain_field("full_sequence"@, "CARD32"@)
}

/// Why a declaration cannot be completed.
#[derive(Debug, Clone, Copy, PartialEq, Eq)]
pub enum FrameFault {
    /// A classic event has no field in front of its sequence number.
    NoFields,
    /// The size of the field with this index cannot be asked for.
    NoSize(usize),
    /// The size of the field with this index is not fixed, but decides on the
    /// place of the sequence number in full.
    NotFixed(usize),
    /// With the field with this index the event gets too long to be measured.
    TooLong(usize),
}

impl GenModel {
    /// The size on the wire of an extended event up to and with its first `k`
    /// declared fields.
    pub open spec fn xge_size(self, fields: Seq<ir::FieldModel>, k: int) -> nat
        decreases k,
    {
        if k <= 0 {
            xge_header_size()
        } else {
            self.xge_size(fields, k - 1) + (match self.ir_field_size(
                fields[k - 1],
            ).fixed_length() {
                Some(n) => n,
                None => 0,
            })
        }
    }

    /// Whether the sequence number in full comes right behind the first `k`
    /// declared fields: it is with the last of them that the event gets to be as
    /// long as a classic one.
    pub open spec fn full_sequence_at(self, fields: Seq<ir::FieldModel>, k: int) -> bool {
        &&& 1 <= k <= fields.len()
        &&& self.xge_size(fields, k - 1) < full_sequence_offset()
        &&& self.xge_size(fields, k) == full_sequence_offset()
    }

    /// Why an extended event cannot be completed, as far as its declared field `i`
    /// is the reason: its size cannot be asked for; or it stands where the size
    /// decides on the place of the sequence number in full, and is not fixed or
    /// makes the event too long to be measured.
    pub open spec fn fault_at(self, fields: Seq<ir::FieldModel>, i: int) -> Option<FrameFault> {
        if !self.sizable(fields[i]) {
            Some(FrameFault::NoSize(i as usize))
        } else if self.xge_size(fields, i) >= full_sequence_offset() {
            None
        } else if self.ir_field_size(fields[i]).fixed_length() is None {
            Some(FrameFault::NotFixed(i as usize))
        } else if self.xge_size(fields, i + 1) > usize::MAX {
            Some(FrameFault::TooLong(i as usize))
        } else {
            None
        }
    }

    /// Whether a declaration can be completed.
    pub open spec fn framable(
        self,
        fields: Seq<ir::FieldModel>,
        is_xge: bool,
        no_seq_number: bool,
    ) -> bool {
        if is_xge {
            forall|i: int|
                0 <= i < fields.len() ==> (#[trigger] self.fault_at(fields, i)) is None
        } else {
            no_seq_number || fields.len() > 0
        }
    }

    /// The fields of an event, those that all events have in common among them.
    pub open spec fn framed(
        self,
        fields: Seq<ir::FieldModel>,
        is_xge: bool,
        no_seq_number: bool,
    ) -> Seq<ir::FieldModel> {
        if is_xge {
            if exists|k: int| self.full_sequence_at(fields, k) {
                let k = choose|k: int| self.full_sequence_at(fields, k);
                xge_header() + fields.take(k) + seq![full_sequence()] + fields.skip(k)
            } else {
                xge_header() + fields
            }
        } else if no_seq_number {
            seq![ir::plain_field("response_type"@, "CARD8"@)] + fields
        } else {
            seq![
                ir::plain_field("response_type"@, "CARD8"@),
                fields[0],
                ir::plain_field("sequence"@, "CARD16"@),
            ] + fields.skip(1)
        }
    }
}

/// The size of an extended event does not shrink from field to field.
pub proof fn lemma_xge_size_monotonic(g: GenModel, fields: Seq<ir::FieldModel>, j: int, k: int)
    requires
        j <= k,
    ensures
        g.xge_size(fields, j) <= g.xge_size(fields, k),
    decreases k - j,
{
    if j < k {
        lemma_xge_size_monotonic(g, fields, j, k - 1);
    }
}

/// There is at most one place for the sequence number in full.
pub proof fn lemma_full_sequence_unique(g: GenModel, fields: Seq<ir::FieldModel>, j: int, k: int)
    requires
        g.full_sequence_at(fields, j),
        g.full_sequence_at(fields, k),
    ensures
        j == k,
{
    if j < k {
        lemma_xge_size_monotonic(g, fields, j, k - 1);
    } else if k < j {
        lemma_xge_size_monotonic(g, fields, k, j - 1);
    }
}

/// The fields of an extended event up to and with the first `i` declared ones,
/// where the sequence number in full comes behind the first `place` of them (0:
/// not yet).
#[verifier::opaque]
spec fn xge_so_far(decl: Seq<ir::FieldModel>, place: int, i: int) -> Seq<ir::FieldModel> {
    if place > 0 {
        xge_header() + decl.take(place) + seq![full_sequence()] + decl.subrange(place, i)
    } else {
        xge_header() + decl.take(i)
    }
}

proof fn lemma_xge_start(decl: Seq<ir::FieldModel>)
    ensures
        xge_so_far(decl, 0, 0) == xge_header(),
{
    reveal(xge_so_far);
    assert(xge_header() + decl.take(0) =~= xge_header());
}

proof fn lemma_xge_declared(decl: Seq<ir::FieldModel>, place: int, i: int)
    requires
        0 <= place <= i < decl.len(),
    ensures
        xge_so_far(decl, place, i + 1) == xge_so_far(decl, place, i).push(decl[i]),
{
    reveal(xge_so_far);
    assert(xge_so_far(decl, place, i + 1) =~= xge_so_far(decl, place, i).push(decl[i]));
}

proof fn lemma_xge_full_sequence(decl: Seq<ir::FieldModel>, i: int)
    requires
        0 < i <= decl.len(),
    ensures
        xge_so_far(decl, i, i) == xge_so_far(decl, 0, i).push(full_sequence()),
{
    reveal(xge_so_far);
    assert(xge_so_far(decl, i, i) =~= xge_so_far(decl, 0, i).push(full_sequence()));
}

proof fn lemma_xge_end(g: GenModel, decl: Seq<ir::FieldModel>, place: int)
    requires
        0 <= place <= decl.len(),
        place > 0 ==> g.full_sequence_at(decl, place),
        place == 0 ==> forall|k: int|
            k <= decl.len() ==> !(#[trigger] g.full_sequence_at(decl, k)),
    ensures
        xge_so_far(decl, place, decl.len() as int) == g.framed(decl, true, false),
{
    reveal(xge_so_far);
    if place > 0 {
        let k = choose|k: int| g.full_sequence_at(decl, k);
        lemma_full_sequence_unique(g, decl, k, place);
        assert(decl.subrange(place, decl.len() as int) =~= decl.skip(place));
    } else {
        assert(decl.take(decl.len() as int) =~= decl);
    }
}

impl CodeGen {
    /// The fields of an extended event with the given declaration.
    fn frame_xge(&self, fields: Vec<ir::Field>) -> (ff: Vec<ir::Field>)
        requires
            self@.framable(ir::field_models(fields@), true, false),
        ensures
            ir::field_models(ff@) == self@.framed(ir::field_models(fields@), true, false),
    {
        let ghost decl = ir::field_models(fields@);
        let mut ff: Vec<ir::Field> = Vec::new();
        ff.push(ir::make_field("response_type", "CARD8"));
        ff.push(ir::make_field("extension", "CARD8"));
        ff.push(ir::make_field("sequence", "CARD16"));
        ff.push(ir::make_field("length", "CARD32"));
        ff.push(ir::make_field("event_type", "CARD16"));
        let mut sz: usize = 10;
        let ghost mut place: int = 0;
        proof {
            assert(ir::field_models(ff@) =~= xge_header());
            lemma_xge_start(decl);
        }
        for f in it: fields
            invariant
                it.seq() == fields@,
                decl == ir::field_models(fields@),
                self@.framable(decl, true, false),
                sz < 32 ==> sz == self@.xge_size(decl, it.index()),
                sz < 32 <==> self@.xge_size(decl, it.index()) < 32,
                0 <= place <= it.index(),
                place > 0 ==> self@.full_sequence_at(decl, place),
                place > 0 ==> sz >= 32,
                place == 0 ==> forall|k: int|
                    k <= it.index() ==> !(#[trigger] self@.full_sequence_at(decl, k)),
                ir::field_models(ff@) == xge_so_far(decl, place, it.index()),
        {
            let ghost i = it.index();
            let ghost before = ir::field_models(ff@);
            assert(decl[i] == f@);
            assert(self@.fault_at(decl, i) is None);
            let fsz = self.ir_field_sizeof(&f);
            ff.push(f);
            proof {
                assert(ir::field_models(ff@) =~= before.push(decl[i]));
                lemma_xge_declared(decl, place, i);
            }
            if sz < 32 {
                sz = sz + fsz.fixed_length().unwrap();
                if sz == 32 {
                    let ghost before = ir::field_models(ff@);
                    ff.push(ir::make_field("full_sequence", "CARD32"));
                    proof {
                        assert(ir::field_models(ff@) =~= before.push(full_sequence()));
                        lemma_xge_full_sequence(decl, i + 1);
                        place = i + 1;
                    }
                }
            }
        }
        proof {
            lemma_xge_end(self@, decl, place);
        }
        ff
    }
}

/// An event whose fields are complete but whose types are still those of the
/// declaration.
#[derive(Debug, PartialEq)]
pub struct EventFrame {
    /// The Rust type of the event.
    pub rs_typ: String,
    /// Its variant in the enumeration of the module's events.
    pub variant: String,
    /// Its number on the wire.
    pub number: i32,
    /// Its fields.
    pub fields: Vec<ir::Field>,
    /// Whether it is an extended event.
    pub is_xge: bool,
    /// Its documentation.
    pub doc: Option<Doc>,
}

/// The mathematical form of [`EventFrame`].
pub struct FrameModel {
    pub rs_typ: Seq<char>,
    pub variant: Seq<char>,
    pub number: int,
    pub fields: Seq<ir::FieldModel>,
    pub is_xge: bool,
    pub doc: Option<Seq<Seq<char>>>,
}

impl View for EventFrame {
    type V = FrameModel;

    open spec fn view(&self) -> FrameModel {
        FrameModel {
            rs_typ: self.rs_typ@,
            variant: self.variant@,
            number: self.number as int,
            fields: ir::field_models(self.fields@),
            is_xge: self.is_xge,
            doc: opt_doc(self.doc),
        }
    }
}

/// The Rust type of the event that has the given variant.
pub open spec fn event_rs_typ(variant: Seq<char>) -> Seq<char> {
    variant + "Event"@
}

impl GenModel {
    /// The event that is declared with the given fields.
    pub open spec fn event_frame(
        self,
        variant: Seq<char>,
        number: int,
        fields: Seq<ir::FieldModel>,
        is_xge: bool,
        no_seq_number: bool,
        doc: Option<Seq<Seq<char>>>,
    ) -> FrameModel {
        FrameModel {
            rs_typ: event_rs_typ(variant),
            variant,
            number,
            fields: self.framed(fields, is_xge, no_seq_number),
            is_xge,
            doc,
        }
    }
}

impl CodeGen {
    /// Completes the fields of an event.
    ///
    /// `variant` is its name in Rust, `fields` what is declared of it. A classic
    /// event (not `is_xge`) has its sequence number behind the first declared
    /// field, unless it has none (`no_seq_number`).
    pub fn frame_event(
        &self,
        variant: String,
        number: i32,
        fields: Vec<ir::Field>,
        is_xge: bool,
        no_seq_number: bool,
        doc: Option<Doc>,
    ) -> (frame: EventFrame)
        requires
            self@.framable(ir::field_models(fields@), is_xge, no_seq_number),
        ensures
            frame@ == self@.event_frame(
                variant@,
                number as int,
                ir::field_models(fields@),
                is_xge,
                no_seq_number,
                opt_doc(doc),
            ),
            frame.rs_typ@ == variant@ + "Event"@,
            frame.variant == variant,
            frame.number == number,
            frame.is_xge == is_xge,
            frame.doc == doc,
            ir::field_models(frame.fields@) == self@.framed(
                ir::field_models(fields@),
                is_xge,
                no_seq_number,
            ),
    {
        let ghost decl = ir::field_models(fields@);
        let ff: Vec<ir::Field> = if is_xge {
            self.frame_xge(fields)
        } else {
            let mut fields = fields;
            let mut ff: Vec<ir::Field> = Vec::new();
            ff.push(ir::make_field("response_type", "CARD8"));
            if !no_seq_number {
                ff.push(fields.remove(0));
                ff.push(ir::make_field("sequence", "CARD16"));
            }
            ff.append(&mut fields);
            assert(ir::field_models(ff@) =~= self@.framed(decl, is_xge, no_seq_number));
            ff
        };
        EventFrame {
            rs_typ: cat2(variant.as_str(), "Event"),
            variant,
            number,
            fields: ff,
            is_xge,
            doc,
        }
    }

    /// Why a declaration cannot be completed, if it cannot: of an extended event
    /// the first of its fields that is a reason.
    pub fn frame_fault(
        &self,
        fields: &Vec<ir::Field>,
        is_xge: bool,
        no_seq_number: bool,
    ) -> (r: Option<FrameFault>)
        ensures
            r is None <==> self@.framable(ir::field_models(fields@), is_xge, no_seq_number),
            !is_xge ==> r is None || r == Some(FrameFault::NoFields),
            is_xge && r is Some ==> exists|i: int|
                {
                    &&& 0 <= i < fields@.len()
                    &&& r == #[trigger] self@.fault_at(ir::field_models(fields@), i)
                    &&& forall|j: int|
                        0 <= j < i ==> (#[trigger] self@.fault_at(
                            ir::field_models(fields@),
                            j,
                        )) is None
                },
    {
        if !is_xge {
            return if no_seq_number || fields.len() > 0 {
                None
            } else {
                Some(FrameFault::NoFields)
            };
        }
        let ghost decl = ir::field_models(fields@);
        let mut sz: usize = 10;
        let mut i: usize = 0;
        while i < fields.len()
            invariant
                is_xge,
                i <= fields@.len(),
                decl == ir::field_models(fields@),
                sz < 32 ==> sz == self@.xge_size(decl, i as int),
                sz < 32 <==> self@.xge_size(decl, i as int) < 32,
                forall|j: int| 0 <= j < i ==> (#[trigger] self@.fault_at(decl, j)) is None,
            decreases fields@.len() - i,
        {
            assert(decl[i as int] == fields@[i as int]@);
            if !self.is_sizable(&fields[i]) {
                assert(self@.fault_at(decl, i as int) == Some(FrameFault::NoSize(i)));
                return Some(FrameFault::NoSize(i));
            }
            if sz < 32 {
                match self.ir_field_sizeof(&fields[i]).fixed_length() {
                    Some(n) => match sz.checked_add(n) {
                        Some(sum) => {
                            sz = sum;
                        },
                        None => {
                            assert(self@.fault_at(decl, i as int) == Some(FrameFault::TooLong(i)));
                            return Some(FrameFault::TooLong(i));
                        },
                    },
                    None => {
                        assert(self@.fault_at(decl, i as int) == Some(FrameFault::NotFixed(i)));
                        return Some(FrameFault::NotFixed(i));
                    },
                }
            }
            i = i + 1;
        }
        None
    }
}

} // verus!
