//! Code that tells the events of a module apart by their numbers.

use vstd::prelude::*;

use crate::model::{event_models, CodeGen, Event, EventModel, GenModel};
use crate::output::{blank, line, Output, PieceModel};
use crate::text::{cat4, cat7, ind, indent, same, signed_dec, signed_decimal};

verus! {

/// The match arm for an event.
pub open spec fn arm(e: EventModel) -> PieceModel {
    line(
        indent(3) + signed_decimal(e.number) + " => Event::"@ + e.variant + "("@ + e.rs_typ
            + "::from_raw(raw)),"@,
    )
}

/// The match arms for the events that are extended, or for those that are not.
pub open spec fn arms(events: Seq<EventModel>, xge: bool) -> Seq<PieceModel> {
    events.flat_map(
        |e: EventModel|
            if e.is_xge == xge {
                seq![arm(e)]
            } else {
                Seq::empty()
            },
    )
}

impl GenModel {
    /// What is matched on to tell the classic events apart.
    pub open spec fn wire_match_text(self) -> Seq<PieceModel> {
        if self.xcb_mod == "xkb"@ {
            seq![
                line(
                    indent(2)
                        + "assert_eq!(response_type, first_event, \"This is not an Xkb event\");"@,
                ),
                line(indent(2) + "let ptr = raw as *const u8;"@),
                line(indent(2) + "let xkb_type = *(ptr.add(1));"@),
                line(indent(2) + "match xkb_type {"@),
            ]
        } else {
            seq![line(indent(2) + "match response_type - first_event {"@)]
        }
    }

    /// The implementation of `base::ResolveWireEvent` for the events of the module.
    pub open spec fn resolve_wire_event_text(self) -> Seq<PieceModel> {
        seq![
            blank(),
            line("impl base::ResolveWireEvent for Event {"@),
            line(
                indent(1)
                    + "unsafe fn resolve_wire_event(first_event: u8, raw: *mut xcb_generic_event_t) -> Self {"@,
            ),
            line(indent(2) + "debug_assert!(!raw.is_null());"@),
            line(indent(2) + "let response_type = (*raw).response_type & 0x7F;"@),
            line(
                indent(2)
                    + "debug_assert!(response_type != 0, \"This is not an event but an error!\");"@,
            ),
            line(
                indent(2)
                    + "debug_assert!(response_type != XCB_GE_GENERIC, \"This is a GE_GENERIC event!\");"@,
            ),
        ] + self.wire_match_text() + arms(self.events, false) + seq![
            line(indent(3) + "_ => unreachable!("@),
            line(
                indent(4) + "\"Could not resolve "@ + self.xcb_mod
                    + " Event with response_type {} and first_event {}\","@,
            ),
            line(indent(4) + "response_type, first_event"@),
            line(indent(3) + "),"@),
            line(indent(2) + "}"@),
            line(indent(1) + "}"@),
            line("}"@),
        ]
    }

    /// The implementation of `base::ResolveWireGeEvent` for the events of the module.
    pub open spec fn resolve_wire_ge_event_text(self) -> Seq<PieceModel> {
        seq![
            line("impl base::ResolveWireGeEvent for Event {"@),
            line(
                indent(1)
                    + "unsafe fn resolve_wire_ge_event(raw: *mut xcb_ge_generic_event_t) -> Self{"@,
            ),
            line(indent(2) + "debug_assert!(!raw.is_null());"@),
            line(indent(2) + "debug_assert!(((*raw).response_type & 0x7F) == XCB_GE_GENERIC);"@),
            line(indent(2) + "let event_type = (*raw).event_type;"@),
            line(indent(2) + "match event_type {"@),
        ] + arms(self.events, true) + seq![
            line(
                indent(3) + "_ => panic!(\"Could not resolve GE event for "@ + self.xcb_mod
                    + ": {}\", event_type),"@,
            ),
            line(indent(2) + "}"@),
            line(indent(1) + "}"@),
            line("}"@),
        ]
    }
}

/// Adds the match arms for the events that are extended, or for those that are
/// not.
fn emit_arms(out: &mut Output, events: &Vec<Event>, xge: bool)
    ensures
        final(out)@ == old(out)@ + arms(event_models(events@), xge),
{
    let ghost all = event_models(events@);
    let ghost f = |e: EventModel|
        if e.is_xge == xge {
            seq![arm(e)]
        } else {
            Seq::empty()
        };
    let ghost start = out@;
    let mut i: usize = 0;
    assert(out@ =~= start + all.take(0).flat_map(f));
    while i < events.len()
        invariant
            i <= events@.len(),
            all == event_models(events@),
            f == (|e: EventModel|
                if e.is_xge == xge {
                    seq![arm(e)]
                } else {
                    Seq::empty()
                }),
            out@ == start + all.take(i as int).flat_map(f),
        decreases events@.len() - i,
    {
        let e = &events[i];
        let ghost before = out@;
        if e.is_xge == xge {
            out.line(
                cat7(
                    ind(3).as_str(),
                    signed_dec(e.number).as_str(),
                    " => Event::",
                    e.variant.as_str(),
                    "(",
                    e.rs_typ.as_str(),
                    "::from_raw(raw)),",
                ),
            );
        }
        proof {
            assert(all[i as int] == e@);
            assert(out@ =~= before + f(all[i as int]));
            all.lemma_flat_map_take_append(f, i as int);
        }
        i = i + 1;
    }
    assert(all.take(i as int) =~= all);
}

impl CodeGen {
    /// Adds the lines that say what is matched on to tell the classic events
    /// apart.
    fn emit_wire_match(&self, out: &mut Output)
        ensures
            final(out)@ == old(out)@ + self@.wire_match_text(),
    {
        if same(&self.xcb_mod, "xkb") {
            out.indented(
                2,
                "assert_eq!(response_type, first_event, \"This is not an Xkb event\");",
            );
            out.indented(2, "let ptr = raw as *const u8;");
            out.indented(2, "let xkb_type = *(ptr.add(1));");
            out.indented(2, "match xkb_type {");
        } else {
            out.indented(2, "match response_type - first_event {");
        }
        assert(out@ =~= old(out)@ + self@.wire_match_text());
    }

    /// Adds the implementation of `base::ResolveWireEvent`, which makes a classic
    /// event of the module of what came over the wire.
    pub fn emit_resolve_wire_event(&self, out: &mut Output)
        ensures
            final(out)@ == old(out)@ + self@.resolve_wire_event_text(),
    {
        out.blank();
        out.text("impl base::ResolveWireEvent for Event {");
        out.indented(
            1,
            "unsafe fn resolve_wire_event(first_event: u8, raw: *mut xcb_generic_event_t) -> Self {",
        );
        out.indented(2, "debug_assert!(!raw.is_null());");
        out.indented(2, "let response_type = (*raw).response_type & 0x7F;");
        out.indented(
            2,
            "debug_assert!(response_type != 0, \"This is not an event but an error!\");",
        );
        out.indented(
            2,
            "debug_assert!(response_type != XCB_GE_GENERIC, \"This is a GE_GENERIC event!\");",
        );
        self.emit_wire_match(out);
        emit_arms(out, &self.events, false);
        out.indented(3, "_ => unreachable!(");
        out.line(
            cat4(
                ind(4).as_str(),
                "\"Could not resolve ",
                self.xcb_mod.as_str(),
                " Event with response_type {} and first_event {}\",",
            ),
        );
        out.indented(4, "response_type, first_event");
        out.indented(3, "),");
        out.indented(2, "}");
        out.indented(1, "}");
        out.text("}");
        assert(out@ =~= old(out)@ + self@.resolve_wire_event_text());
    }

    /// Adds the implementation of `base::ResolveWireGeEvent`, which makes an
    /// extended event of the module of what came over the wire.
    pub fn emit_resolve_wire_ge_event(&self, out: &mut Output)
        ensures
            final(out)@ == old(out)@ + self@.resolve_wire_ge_event_text(),
    {
        out.text("impl base::ResolveWireGeEvent for Event {");
        out.indented(
            1,
            "unsafe fn resolve_wire_ge_event(raw: *mut xcb_ge_generic_event_t) -> Self{",
        );
        out.indented(2, "debug_assert!(!raw.is_null());");
        out.indented(2, "debug_assert!(((*raw).response_type & 0x7F) == XCB_GE_GENERIC);");
        out.indented(2, "let event_type = (*raw).event_type;");
        out.indented(2, "match event_type {");
        emit_arms(out, &self.events, true);
        out.line(
            cat4(
                ind(3).as_str(),
                "_ => panic!(\"Could not resolve GE event for ",
                self.xcb_mod.as_str(),
                ": {}\", event_type),",
            ),
        );
        out.indented(2, "}");
        out.indented(1, "}");
        out.text("}");
        assert(out@ =~= old(out)@ + self@.resolve_wire_ge_event_text());
    }
}

} // verus!
