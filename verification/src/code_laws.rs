//! What holds of the generated code: which lines stand in it for which events.

use vstd::prelude::*;

use crate::constructor::{
    constructible, format_arm, implied, moving, new_writes_text, parameter,
    parameters, qualified, subcode_arm, writable, write_field, write_fields,
};
use crate::dispatch::{arm, arms};
use crate::emit::{alias_text, as_slice_text, doc_text, drop_text, raw_text, struct_text};
use crate::laws::{
    law_every_variant_is_resolved, law_signed_decimal_injective, law_trailing_pad_is_not_written,
};
use crate::model::{EventModel, ExprModel, FieldModel, GenModel, StructStyle, SubcodeModel};
use crate::model_laws::law_sign_is_written;
use crate::output::PieceModel;
use crate::text::{decimal, indent, signed_decimal};

verus! {

/// A line that says `s`.
pub open spec fn says(s: Seq<char>) -> PieceModel {
    PieceModel::Line(s)
}

/// A line that says nothing.
pub open spec fn silent() -> PieceModel {
    PieceModel::Line(Seq::empty())
}

// The module as a whole.

/// A module without events has no code.
pub proof fn law_no_events_no_code(g: GenModel)
    requires
        g.events.len() == 0,
    ensures
        g.events_text() == Seq::<PieceModel>::empty(),
{
}

/// The code of a module is that of its events, in their order, and their enumeration;
/// then the dispatch of the classic events, if there is one; then the dispatch of the
/// extended events, if there is one and the module is not the core protocol.
pub proof fn law_order_of_the_code(g: GenModel, classic: bool, extended: bool)
    requires
        g.events.len() > 0,
        classic <==> exists|i: int| 0 <= i < g.events.len() && !(#[trigger] g.events[i]).is_xge,
        extended <==> exists|i: int| 0 <= i < g.events.len() && (#[trigger] g.events[i]).is_xge,
    ensures
        g.events_text() == g.events.flat_map(|e: EventModel| g.event_text(e)) + g.enum_text() + (
        if classic {
            g.resolve_wire_event_text()
        } else {
            Seq::empty()
        }) + (if extended && g.xcb_mod != "xproto"@ {
            g.resolve_wire_ge_event_text()
        } else {
            Seq::empty()
        }),
{
    assert(classic == g.has_classic());
    assert(extended == g.has_xge());
}

/// The enumeration has a variant with the type of each event in it, except for the
/// extended events of the core protocol.
pub proof fn law_enumeration(g: GenModel)
    ensures
        g.enum_text() == seq![
            silent(),
            says(
                match g.extension {
                    Some(x) => "/// Unified event type for the "@ + x + " extension"@,
                    None => "/// Unified event type for the X core protocol"@,
                },
            ),
            says("#[derive(Debug)]"@),
            says("pub enum Event {"@),
        ] + g.events.flat_map(
            |e: EventModel|
                if e.is_xge && g.xcb_mod == "xproto"@ {
                    Seq::empty()
                } else {
                    seq![says("    "@ + e.variant + "("@ + e.rs_typ + "),"@)]
                },
        ) + seq![says("}"@)],
{
    let f = |e: EventModel|
        if e.is_xge && g.xcb_mod == "xproto"@ {
            Seq::empty()
        } else {
            seq![says("    "@ + e.variant + "("@ + e.rs_typ + "),"@)]
        };
    let v = |e: EventModel| g.variant_text(e);
    assert forall|e: EventModel| #[trigger] f(e) == v(e) by {
        assert(f(e) =~= v(e));
    }
    assert(g.events.map_values(f) =~= g.events.map_values(v));
    assert(g.enum_text() =~= seq![
        silent(),
        says(
            match g.extension {
                Some(x) => "/// Unified event type for the "@ + x + " extension"@,
                None => "/// Unified event type for the X core protocol"@,
            },
        ),
        says("#[derive(Debug)]"@),
        says("pub enum Event {"@),
    ] + g.events.flat_map(f) + seq![says("}"@)]);
}

// Dispatch.

/// The arm of an event matches its number and makes its variant of its type.
pub proof fn law_arm_matches_the_number(e: EventModel)
    ensures
        arm(e) == says(
            indent(3) + signed_decimal(e.number) + " => Event::"@ + e.variant + "("@ + e.rs_typ
                + "::from_raw(raw)),"@,
        ),
{
}

/// There are no arms without events, and each further event adds its arm where it is
/// of the kind that is asked for.
pub proof fn law_arms_follow_the_events(events: Seq<EventModel>, e: EventModel, xge: bool)
    ensures
        arms(Seq::empty(), xge) == Seq::<PieceModel>::empty(),
        arms(events.push(e), xge) == (if e.is_xge == xge {
            arms(events, xge).push(arm(e))
        } else {
            arms(events, xge)
        }),
{
    let f = |e: EventModel|
        if e.is_xge == xge {
            seq![arm(e)]
        } else {
            Seq::empty()
        };
    assert(arms(Seq::empty(), xge) =~= Seq::<PieceModel>::empty());
    events.lemma_flat_map_push(f, e);
    assert(arms(events.push(e), xge) == events.push(e).flat_map(f));
    assert(arms(events, xge) == events.flat_map(f));
    assert(arms(events, xge) + f(e) =~= (if e.is_xge == xge {
        arms(events, xge).push(arm(e))
    } else {
        arms(events, xge)
    }));
}

/// Where the arms of the classic events begin.
pub open spec fn before_the_arms(g: GenModel) -> int {
    g.resolve_wire_event_text().len() - arms(g.events, false).len() - 7
}

/// In every module but `xkb`, core protocol or extension, the classic events are told
/// apart by their response type less the number of the first event: so an event of
/// number `n` is made of the response type `first_event + n`.
pub proof fn law_dispatch_is_relative_to_the_first_event(g: GenModel)
    requires
        g.xcb_mod != "xkb"@,
    ensures
        g.resolve_wire_event_text() == seq![
            silent(),
            says("impl base::ResolveWireEvent for Event {"@),
            says(
                indent(1)
                    + "unsafe fn resolve_wire_event(first_event: u8, raw: *mut xcb_generic_event_t) -> Self {"@,
            ),
            says(indent(2) + "debug_assert!(!raw.is_null());"@),
            says(indent(2) + "let response_type = (*raw).response_type & 0x7F;"@),
            says(
                indent(2)
                    + "debug_assert!(response_type != 0, \"This is not an event but an error!\");"@,
            ),
            says(
                indent(2)
                    + "debug_assert!(response_type != XCB_GE_GENERIC, \"This is a GE_GENERIC event!\");"@,
            ),
            says(indent(2) + "match response_type - first_event {"@),
        ] + arms(g.events, false) + seq![
            says(indent(3) + "_ => unreachable!("@),
            says(
                indent(4) + "\"Could not resolve "@ + g.xcb_mod
                    + " Event with response_type {} and first_event {}\","@,
            ),
            says(indent(4) + "response_type, first_event"@),
            says(indent(3) + "),"@),
            says(indent(2) + "}"@),
            says(indent(1) + "}"@),
            says("}"@),
        ],
        g.resolve_wire_event_text()[before_the_arms(g) - 1] == says(
            indent(2) + "match response_type - first_event {"@,
        ),
{
    assert(g.resolve_wire_event_text() =~= seq![
        silent(),
        says("impl base::ResolveWireEvent for Event {"@),
        says(
            indent(1)
                + "unsafe fn resolve_wire_event(first_event: u8, raw: *mut xcb_generic_event_t) -> Self {"@,
        ),
        says(indent(2) + "debug_assert!(!raw.is_null());"@),
        says(indent(2) + "let response_type = (*raw).response_type & 0x7F;"@),
        says(
            indent(2)
                + "debug_assert!(response_type != 0, \"This is not an event but an error!\");"@,
        ),
        says(
            indent(2)
                + "debug_assert!(response_type != XCB_GE_GENERIC, \"This is a GE_GENERIC event!\");"@,
        ),
        says(indent(2) + "match response_type - first_event {"@),
    ] + arms(g.events, false) + seq![
        says(indent(3) + "_ => unreachable!("@),
        says(
            indent(4) + "\"Could not resolve "@ + g.xcb_mod
                + " Event with response_type {} and first_event {}\","@,
        ),
        says(indent(4) + "response_type, first_event"@),
        says(indent(3) + "),"@),
        says(indent(2) + "}"@),
        says(indent(1) + "}"@),
        says("}"@),
    ]);
}

/// The events of `xkb` all have the response type of the first event and are told
/// apart by the byte behind it. The rest of the dispatch is that of any other module.
pub proof fn law_dispatch_of_xkb(g: GenModel, other: GenModel)
    requires
        g.xcb_mod == "xkb"@,
        other.xcb_mod != "xkb"@,
        other.events == g.events,
    ensures
        ({
            let t = g.resolve_wire_event_text();
            let o = other.resolve_wire_event_text();
            let n = arms(g.events, false).len() as int;
            &&& t.len() == o.len() + 3
            &&& t.take(7) == o.take(7)
            &&& t[7] == says(
                indent(2)
                    + "assert_eq!(response_type, first_event, \"This is not an Xkb event\");"@,
            )
            &&& t[8] == says(indent(2) + "let ptr = raw as *const u8;"@)
            &&& t[9] == says(indent(2) + "let xkb_type = *(ptr.add(1));"@)
            &&& t[10] == says(indent(2) + "match xkb_type {"@)
            &&& t.subrange(11, 12 + n) == o.subrange(8, 9 + n)
            &&& t[12 + n] == says(
                indent(4) + "\"Could not resolve "@ + g.xcb_mod
                    + " Event with response_type {} and first_event {}\","@,
            )
            &&& t.skip(13 + n) == o.skip(10 + n)
        }),
{
    let t = g.resolve_wire_event_text();
    let o = other.resolve_wire_event_text();
    let n = arms(g.events, false).len() as int;
    assert(t.take(7) =~= o.take(7));
    assert(t.subrange(11, 12 + n) =~= o.subrange(8, 9 + n));
    assert(t.skip(13 + n) =~= o.skip(10 + n));
}

/// The extended events are told apart by their number in the extension alone.
pub proof fn law_dispatch_of_extended_events(g: GenModel)
    ensures
        g.resolve_wire_ge_event_text() == seq![
            says("impl base::ResolveWireGeEvent for Event {"@),
            says(
                indent(1)
                    + "unsafe fn resolve_wire_ge_event(raw: *mut xcb_ge_generic_event_t) -> Self{"@,
            ),
            says(indent(2) + "debug_assert!(!raw.is_null());"@),
            says(indent(2) + "debug_assert!(((*raw).response_type & 0x7F) == XCB_GE_GENERIC);"@),
            says(indent(2) + "let event_type = (*raw).event_type;"@),
            says(indent(2) + "match event_type {"@),
        ] + arms(g.events, true) + seq![
            says(
                indent(3) + "_ => panic!(\"Could not resolve GE event for "@ + g.xcb_mod
                    + ": {}\", event_type),"@,
            ),
            says(indent(2) + "}"@),
            says(indent(1) + "}"@),
            says("}"@),
        ],
{
    assert(g.resolve_wire_ge_event_text() =~= seq![
        says("impl base::ResolveWireGeEvent for Event {"@),
        says(
            indent(1)
                + "unsafe fn resolve_wire_ge_event(raw: *mut xcb_ge_generic_event_t) -> Self{"@,
        ),
        says(indent(2) + "debug_assert!(!raw.is_null());"@),
        says(indent(2) + "debug_assert!(((*raw).response_type & 0x7F) == XCB_GE_GENERIC);"@),
        says(indent(2) + "let event_type = (*raw).event_type;"@),
        says(indent(2) + "match event_type {"@),
    ] + arms(g.events, true) + seq![
        says(
            indent(3) + "_ => panic!(\"Could not resolve GE event for "@ + g.xcb_mod
                + ": {}\", event_type),"@,
        ),
        says(indent(2) + "}"@),
        says(indent(1) + "}"@),
        says("}"@),
    ]);
}

// One event.

/// The core protocol's extended events have no code. A copy is an alias of the type
/// that it was copied from. Every other event has its type, the trait of its kind, its
/// methods, its `Debug` and its `Drop`, in this order.
pub proof fn law_parts_of_the_code_of_an_event(g: GenModel, e: EventModel)
    ensures
        e.is_xge && g.xcb_mod == "xproto"@ ==> g.event_text(e) == Seq::<PieceModel>::empty(),
        !(e.is_xge && g.xcb_mod == "xproto"@) ==> (match e.copy_from_rs_typ {
            Some(source) => g.event_text(e) == seq![silent()] + doc_text(e) + seq![
                says("pub type "@ + e.rs_typ + " = "@ + source + ";"@),
            ],
            None => g.event_text(e) == struct_text(e) + g.trait_text(e) + g.methods_text(e)
                + seq![PieceModel::DebugImpl { rs_typ: e.rs_typ, fields: e.fields }] + drop_text(e),
        }),
{
    if let Some(source) = e.copy_from_rs_typ {
        assert(alias_text(e, source) =~= seq![silent()] + doc_text(e) + seq![
            says("pub type "@ + e.rs_typ + " = "@ + source + ";"@),
        ]);
    }
}

/// An event is documented by its own documentation, line by line, or else by its name.
pub proof fn law_documentation(e: EventModel, i: int)
    ensures
        e.doc matches Some(lines) ==> {
            &&& doc_text(e).len() == lines.len()
            &&& 0 <= i < lines.len() ==> doc_text(e)[i] == says(lines[i])
        },
        e.doc is None ==> doc_text(e) == seq![says("/// The `"@ + e.rs_typ + "` event."@)],
{
    if e.doc is None {
        assert(doc_text(e) =~= seq![says("/// The `"@ + e.rs_typ + "` event."@)]);
    }
}

/// The type of an event holds a pointer to what an event of its kind is on the wire.
pub proof fn law_type_of_an_event(e: EventModel)
    ensures
        struct_text(e) == seq![silent()] + doc_text(e) + seq![
            says("pub struct "@ + e.rs_typ + " {"@),
            says(
                if e.is_xge {
                    "    raw: *mut "@ + "xcb_ge_generic_event_t"@ + ","@
                } else {
                    "    raw: *mut "@ + "xcb_generic_event_t"@ + ","@
                },
            ),
            says("}"@),
        ],
{
    assert(struct_text(e) =~= seq![silent()] + doc_text(e) + seq![
        says("pub struct "@ + e.rs_typ + " {"@),
        says(
            if e.is_xge {
                "    raw: *mut "@ + "xcb_ge_generic_event_t"@ + ","@
            } else {
                "    raw: *mut "@ + "xcb_generic_event_t"@ + ","@
            },
        ),
        says("}"@),
    ]);
}

/// The lines that tie an event to the pointer `raw_typ`, and give its number.
pub open spec fn ties_to(e: EventModel, raw_typ: Seq<char>) -> Seq<PieceModel> {
    seq![
        says("    const NUMBER: u32 = "@ + signed_decimal(e.number) + ";"@),
        silent(),
        says(
            "    unsafe fn from_raw(raw: *mut "@ + raw_typ + ") -> Self { "@ + e.rs_typ
                + " { raw } }"@,
        ),
        silent(),
        says("    unsafe fn into_raw(self) -> *mut "@ + raw_typ + " {"@),
        says("        let raw = self.raw;"@),
        says("        std::mem::forget(self);"@),
        says("        raw"@),
        says("    }"@),
        silent(),
        says("    fn as_raw(&self) -> *mut "@ + raw_typ + " {"@),
        says("        self.raw"@),
        says("    }"@),
    ]
}

/// An event gives its number, and its pointer back and forth without freeing it. What
/// it points to depends on its kind alone.
pub proof fn law_raw_conversions(e: EventModel)
    ensures
        e.is_xge ==> raw_text(e) == ties_to(e, "xcb_ge_generic_event_t"@),
        !e.is_xge ==> raw_text(e) == ties_to(e, "xcb_generic_event_t"@),
{
    if e.is_xge {
        assert(raw_text(e) =~= ties_to(e, "xcb_ge_generic_event_t"@));
    } else {
        assert(raw_text(e) =~= ties_to(e, "xcb_generic_event_t"@));
    }
}

/// A classic event is 32 bytes long, whatever its fields and its size: all classic
/// events are taken as slices in the same way.
pub proof fn law_classic_events_are_32_bytes(a: EventModel, b: EventModel)
    requires
        !a.is_xge,
        !b.is_xge,
    ensures
        as_slice_text(a) == as_slice_text(b),
        as_slice_text(a) == seq![
            silent(),
            says("    fn as_slice(&self) -> &[u8] {"@),
            says("        unsafe {"@),
            says(
                "            std::slice::from_raw_parts(self.raw as *const u8, "@ + "32"@ + ")"@,
            ),
            says("        }"@),
            says("    }"@),
        ],
{
    assert(as_slice_text(a) =~= as_slice_text(b));
    assert(as_slice_text(a) =~= seq![
        silent(),
        says("    fn as_slice(&self) -> &[u8] {"@),
        says("        unsafe {"@),
        says("            std::slice::from_raw_parts(self.raw as *const u8, "@ + "32"@ + ")"@),
        says("        }"@),
        says("    }"@),
    ]);
}

/// An extended event is as long as it says itself: all extended events are taken as
/// slices in the same way, which differs from that of a classic event in one line.
pub proof fn law_extended_events_give_their_length(a: EventModel, b: EventModel, c: EventModel)
    requires
        a.is_xge,
        b.is_xge,
        !c.is_xge,
    ensures
        as_slice_text(a) == as_slice_text(b),
        as_slice_text(a) == as_slice_text(c).update(
            3,
            says(
                "            std::slice::from_raw_parts(self.raw as *const u8, "@
                    + "self.length() as usize"@ + ")"@,
            ),
        ),
{
    assert(as_slice_text(a) =~= as_slice_text(b));
    assert(as_slice_text(a) =~= as_slice_text(c).update(
        3,
        says(
            "            std::slice::from_raw_parts(self.raw as *const u8, "@
                + "self.length() as usize"@ + ")"@,
        ),
    ));
}

/// A classic event is a `base::BaseEvent` of the extension of its module, if that is
/// one.
pub proof fn law_trait_of_a_classic_event(g: GenModel, e: EventModel)
    requires
        !e.is_xge,
    ensures
        g.trait_text(e) == seq![
            silent(),
            says("impl "@ + "base::BaseEvent"@ + " for "@ + e.rs_typ + " {"@),
            says(
                match g.extension {
                    Some(x) =>
                    "    const EXTENSION: std::option::Option<ext::Extension> = Some(ext::Extension::"@
                        + x + ");"@,
                    None => "    const EXTENSION: std::option::Option<ext::Extension> = None;"@,
                },
            ),
        ] + raw_text(e) + as_slice_text(e) + seq![says("}"@)],
{
    assert(g.trait_text(e) =~= seq![
        silent(),
        says("impl "@ + "base::BaseEvent"@ + " for "@ + e.rs_typ + " {"@),
        says(
            match g.extension {
                Some(x) =>
                "    const EXTENSION: std::option::Option<ext::Extension> = Some(ext::Extension::"@
                    + x + ");"@,
                None => "    const EXTENSION: std::option::Option<ext::Extension> = None;"@,
            },
        ),
    ] + raw_text(e) + as_slice_text(e) + seq![says("}"@)]);
}

/// An extended event is a `base::GeEvent` of the extension of its module.
pub proof fn law_trait_of_an_extended_event(g: GenModel, e: EventModel, x: Seq<char>)
    requires
        e.is_xge,
        g.extension == Some(x),
    ensures
        g.trait_text(e) == seq![
            silent(),
            says("impl "@ + "base::GeEvent"@ + " for "@ + e.rs_typ + " {"@),
            says("    const EXTENSION: ext::Extension = ext::Extension::"@ + x + ";"@),
            silent(),
        ] + raw_text(e) + as_slice_text(e) + seq![says("}"@)],
{
    assert(g.trait_text(e) =~= seq![
        silent(),
        says("impl "@ + "base::GeEvent"@ + " for "@ + e.rs_typ + " {"@),
        says("    const EXTENSION: ext::Extension = ext::Extension::"@ + x + ";"@),
        silent(),
    ] + raw_text(e) + as_slice_text(e) + seq![says("}"@)]);
}

/// The methods of an event are its constructor, if it is classic, the access to its
/// bytes and the accessors of its fields.
pub proof fn law_methods_of_an_event(g: GenModel, e: EventModel)
    ensures
        g.methods_text(e) == seq![silent(), says("impl "@ + e.rs_typ + " {"@)] + (if e.is_xge {
            Seq::empty()
        } else {
            g.event_new_text(e) + seq![silent()]
        }) + seq![
            says("    fn wire_ptr(&self) -> *const u8 { self.raw as *const u8 }"@),
            PieceModel::Accessors { rs_typ: e.rs_typ, fields: e.fields },
            says("}"@),
        ],
{
    assert(g.methods_text(e) =~= seq![silent(), says("impl "@ + e.rs_typ + " {"@)] + (if e.is_xge {
        Seq::empty()
    } else {
        g.event_new_text(e) + seq![silent()]
    }) + seq![
        says("    fn wire_ptr(&self) -> *const u8 { self.raw as *const u8 }"@),
        PieceModel::Accessors { rs_typ: e.rs_typ, fields: e.fields },
        says("}"@),
    ]);
}

/// An event frees what it points to when it is dropped.
pub proof fn law_events_free_their_data(e: EventModel)
    ensures
        drop_text(e) == seq![
            silent(),
            says("impl Drop for "@ + e.rs_typ + " {"@),
            says("    fn drop(&mut self) {"@),
            says("        unsafe { libc::free(self.raw as *mut _); }"@),
            says("    }"@),
            says("}"@),
        ],
{
    assert(drop_text(e) =~= seq![
        silent(),
        says("impl Drop for "@ + e.rs_typ + " {"@),
        says("    fn drop(&mut self) {"@),
        says("        unsafe { libc::free(self.raw as *mut _); }"@),
        says("    }"@),
        says("}"@),
    ]);
}

/// The type, the trait and the `Drop` of an event depend on its type, number, kind and
/// documentation and on the extension alone, not on its fields, its size or its variant.
pub proof fn law_shape_depends_on_identity(
    g: GenModel,
    h: GenModel,
    a: EventModel,
    b: EventModel,
)
    requires
        g.extension == h.extension,
        a.rs_typ == b.rs_typ,
        a.number == b.number,
        a.is_xge == b.is_xge,
        a.doc == b.doc,
    ensures
        struct_text(a) == struct_text(b),
        g.trait_text(a) == h.trait_text(b),
        drop_text(a) == drop_text(b),
{
    assert(struct_text(a) =~= struct_text(b));
    assert(g.trait_text(a) =~= h.trait_text(b));
    assert(drop_text(a) =~= drop_text(b));
}

// Constructors.

/// A constructor declares its parameters, computes what it needs, and writes.
pub proof fn law_parts_of_a_constructor(g: GenModel, e: EventModel)
    ensures
        g.event_new_text(e) == seq![
            says(
                if g.xcb_mod == "xproto"@ {
                    "    pub fn "@ + "new("@
                } else {
                    "    pub fn "@ + "new(event_base: u8,"@
                },
            ),
        ] + parameters(e.fields) + seq![
            says("    ) -> "@ + e.rs_typ + " {"@),
            says(indent(2) + "unsafe {"@),
            says(indent(3) + "let ptr = libc::malloc(32) as *mut u8;"@),
            says(indent(3) + "let wire_buf = std::slice::from_raw_parts_mut(ptr, 32);"@),
            says(indent(3) + "let mut wire_off = 0usize;"@),
            g.response_type_text(e),
            says(indent(3) + "let sequence = 0u16;"@),
        ] + g.implied_text(e) + seq![silent()] + write_fields(e.fields) + seq![
            silent(),
            says(indent(3) + e.rs_typ + "::from_raw(ptr as *mut xcb_generic_event_t)"@),
            says(indent(2) + "}"@),
            says(indent(1) + "}"@),
        ],
{
    assert(g.new_signature_text(e) =~= seq![
        says(
            if g.xcb_mod == "xproto"@ {
                "    pub fn "@ + "new("@
            } else {
                "    pub fn "@ + "new(event_base: u8,"@
            },
        ),
    ] + parameters(e.fields) + seq![says("    ) -> "@ + e.rs_typ + " {"@)]);
    assert(g.new_locals_text(e) =~= seq![
        says(indent(2) + "unsafe {"@),
        says(indent(3) + "let ptr = libc::malloc(32) as *mut u8;"@),
        says(indent(3) + "let wire_buf = std::slice::from_raw_parts_mut(ptr, 32);"@),
        says(indent(3) + "let mut wire_off = 0usize;"@),
        g.response_type_text(e),
        says(indent(3) + "let sequence = 0u16;"@),
    ] + g.implied_text(e));
    assert(new_writes_text(e) =~= seq![silent()] + write_fields(e.fields) + seq![
        silent(),
        says(indent(3) + e.rs_typ + "::from_raw(ptr as *mut xcb_generic_event_t)"@),
        says(indent(2) + "}"@),
        says(indent(1) + "}"@),
    ]);
    assert(g.event_new_text(e) =~= seq![
        says(
            if g.xcb_mod == "xproto"@ {
                "    pub fn "@ + "new("@
            } else {
                "    pub fn "@ + "new(event_base: u8,"@
            },
        ),
    ] + parameters(e.fields) + seq![
        says("    ) -> "@ + e.rs_typ + " {"@),
        says(indent(2) + "unsafe {"@),
        says(indent(3) + "let ptr = libc::malloc(32) as *mut u8;"@),
        says(indent(3) + "let wire_buf = std::slice::from_raw_parts_mut(ptr, 32);"@),
        says(indent(3) + "let mut wire_off = 0usize;"@),
        g.response_type_text(e),
        says(indent(3) + "let sequence = 0u16;"@),
    ] + g.implied_text(e) + seq![silent()] + write_fields(e.fields) + seq![
        silent(),
        says(indent(3) + e.rs_typ + "::from_raw(ptr as *mut xcb_generic_event_t)"@),
        says(indent(2) + "}"@),
        says(indent(1) + "}"@),
    ]);
}

/// The response type that a constructor of an extension computes is the event's number
/// above the base of the extension; in the core protocol it is the number itself.
pub proof fn law_response_type_is_the_number(g: GenModel, e: EventModel)
    ensures
        g.xcb_mod == "xproto"@ ==> g.response_type_text(e) == says(
            indent(3) + "let response_type = "@ + (signed_decimal(e.number) + "u8"@) + ";"@,
        ),
        g.xcb_mod != "xproto"@ && e.number != 0 ==> g.response_type_text(e) == says(
            indent(3) + "let response_type = "@ + (signed_decimal(e.number)
                + "u8 + event_base"@) + ";"@,
        ),
        g.xcb_mod != "xproto"@ && e.number == 0 ==> g.response_type_text(e) == says(
            indent(3) + "let response_type = "@ + "event_base"@ + ";"@,
        ),
{
}

/// What stands between the two given texts in a line.
pub open spec fn between(s: Seq<char>, front: Seq<char>, back: Seq<char>) -> Seq<char> {
    s.subrange(front.len() as int, s.len() - back.len())
}

proof fn lemma_between(front: Seq<char>, middle: Seq<char>, back: Seq<char>)
    ensures
        between(front + middle + back, front, back) == middle,
{
    assert(between(front + middle + back, front, back) =~= middle);
}

/// Events of one module with different numbers have different response types.
pub proof fn law_different_numbers_different_response_types(
    g: GenModel,
    a: EventModel,
    b: EventModel,
)
    requires
        a.number != b.number,
    ensures
        g.response_type_text(a) != g.response_type_text(b),
{
    if g.response_type_text(a) == g.response_type_text(b) {
        let front = indent(3) + "let response_type = "@;
        let na = signed_decimal(a.number);
        let nb = signed_decimal(b.number);
        law_sign_is_written(a.number);
        law_sign_is_written(b.number);
        law_response_type_is_the_number(g, a);
        law_response_type_is_the_number(g, b);
        if g.xcb_mod == "xproto"@ {
            lemma_between(front, na + "u8"@, ";"@);
            lemma_between(front, nb + "u8"@, ";"@);
            lemma_between(Seq::empty(), na, "u8"@);
            lemma_between(Seq::empty(), nb, "u8"@);
            assert(Seq::empty() + na + "u8"@ =~= na + "u8"@);
            assert(Seq::empty() + nb + "u8"@ =~= nb + "u8"@);
            law_signed_decimal_injective(a.number, b.number);
        } else {
            let tail = "u8 + event_base"@;
            reveal_strlit("u8 + event_base");
            reveal_strlit("event_base");
            reveal_strlit("-");
            let ta = if a.number == 0 {
                "event_base"@
            } else {
                na + tail
            };
            let tb = if b.number == 0 {
                "event_base"@
            } else {
                nb + tail
            };
            lemma_between(front, ta, ";"@);
            lemma_between(front, tb, ";"@);
            assert(ta == tb);
            if a.number == 0 {
                assert(tb.len() > 10);
            } else if b.number == 0 {
                assert(ta.len() > 10);
            } else {
                lemma_between(Seq::empty(), na, tail);
                lemma_between(Seq::empty(), nb, tail);
                assert(Seq::empty() + na + tail =~= na + tail);
                assert(Seq::empty() + nb + tail =~= nb + tail);
                law_signed_decimal_injective(a.number, b.number);
            }
        }
    }
}

/// In an extension other than `xkb` the number that the constructor of an event adds to
/// the base of the extension is the one that the event's arm matches once the first
/// event is taken off.
pub proof fn law_constructed_events_are_dispatched(g: GenModel, i: int)
    requires
        0 <= i < g.events.len(),
        !g.events[i].is_xge,
        g.xcb_mod != "xproto"@,
        g.xcb_mod != "xkb"@,
    ensures
        ({
            let e = g.events[i];
            let n = signed_decimal(e.number);
            &&& g.response_type_text(e) == says(
                indent(3) + "let response_type = "@ + (if e.number == 0 {
                    "event_base"@
                } else {
                    n + "u8 + event_base"@
                }) + ";"@,
            )
            &&& g.resolve_wire_event_text()[7] == says(
                indent(2) + "match response_type - first_event {"@,
            )
            &&& g.resolve_wire_event_text().contains(
                says(
                    indent(3) + n + " => Event::"@ + e.variant + "("@ + e.rs_typ
                        + "::from_raw(raw)),"@,
                ),
            )
        }),
{
    law_every_variant_is_resolved(g, i);
}

/// Two events that differ in their numbers alone have constructors that differ in one
/// line alone, the one that computes the response type.
pub proof fn law_number_changes_one_line(g: GenModel, a: EventModel, number: int)
    ensures
        ({
            let b = EventModel { number, ..a };
            let place = parameters(a.fields).len() + 6;
            &&& place < g.event_new_text(a).len()
            &&& g.event_new_text(b) == g.event_new_text(a).update(
                place as int,
                g.response_type_text(b),
            )
        }),
{
    let b = EventModel { number, ..a };
    let place = parameters(a.fields).len() + 6;
    law_parts_of_a_constructor(g, a);
    law_parts_of_a_constructor(g, b);
    assert(g.event_new_text(b) =~= g.event_new_text(a).update(
        place as int,
        g.response_type_text(b),
    ));
}

/// The constructor of an event is the same in every extension, whatever else the module
/// holds, unless it is the notification of `randr`.
pub proof fn law_constructors_are_the_same_in_all_extensions(
    g: GenModel,
    h: GenModel,
    e: EventModel,
)
    requires
        g.xcb_mod != "xproto"@,
        h.xcb_mod != "xproto"@,
        e.rs_typ != "NotifyEvent"@ || g.xcb_mod != "randr"@ && h.xcb_mod != "randr"@,
    ensures
        g.event_new_text(e) == h.event_new_text(e),
{
    law_parts_of_a_constructor(g, e);
    law_parts_of_a_constructor(h, e);
    law_response_type_is_the_number(g, e);
    law_response_type_is_the_number(h, e);
    assert(g.implied_text(e) =~= h.implied_text(e));
    assert(g.event_new_text(e) =~= h.event_new_text(e));
}

/// The format of a client message, and the sub-code of a `randr` notification, are
/// computed from the data of the event; of no other event is anything computed.
pub proof fn law_what_is_computed(g: GenModel, e: EventModel)
    ensures
        e.rs_typ != "ClientMessageEvent"@ && !(g.xcb_mod == "randr"@ && e.rs_typ
            == "NotifyEvent"@) ==> g.implied_text(e) == Seq::<PieceModel>::empty(),
        e.rs_typ == "ClientMessageEvent"@ ==> g.implied_text(e) == seq![
            says(indent(3) + "let format: u8 = match data {"@),
            says(
                indent(4) + "ClientMessageData::Data"@ + decimal(8) + "{..} => "@ + decimal(8)
                    + ","@,
            ),
            says(
                indent(4) + "ClientMessageData::Data"@ + decimal(16) + "{..} => "@ + decimal(16)
                    + ","@,
            ),
            says(
                indent(4) + "ClientMessageData::Data"@ + decimal(32) + "{..} => "@ + decimal(32)
                    + ","@,
            ),
            says(indent(3) + "};"@),
        ],
        g.xcb_mod == "randr"@ && e.rs_typ == "NotifyEvent"@ ==> g.implied_text(e) == seq![
            says(indent(3) + "let sub_code: u8 = match u {"@),
        ] + g.subcodes.map_values(|c: SubcodeModel| subcode_arm(c)) + seq![
            says(indent(3) + "};"@),
        ],
{
    reveal_strlit("ClientMessageEvent");
    reveal_strlit("NotifyEvent");
    assert("ClientMessageEvent"@.len() != "NotifyEvent"@.len());
    let codes = g.subcodes.map_values(|c: SubcodeModel| subcode_arm(c));
    if e.rs_typ == "ClientMessageEvent"@ {
        assert(g.implied_text(e) =~= seq![
            says(indent(3) + "let format: u8 = match data {"@),
            format_arm(8),
            format_arm(16),
            format_arm(32),
            says(indent(3) + "};"@),
        ]);
    } else if g.xcb_mod == "randr"@ && e.rs_typ == "NotifyEvent"@ {
        assert(g.implied_text(e) =~= seq![says(indent(3) + "let sub_code: u8 = match u {"@)] + codes
            + seq![says(indent(3) + "};"@)]);
    } else {
        assert(g.implied_text(e) =~= Seq::<PieceModel>::empty());
    }
}

/// Each case of the data of a `randr` notification gives the code of that case.
pub proof fn law_sub_code_follows_the_data(c: SubcodeModel)
    ensures
        subcode_arm(c) == says(
            indent(4) + "NotifyData::"@ + c.data
                + "{..} => std::mem::transmute::<_, u32>(Notify::"@ + c.code + ") as _,"@,
        ),
{
}

/// The type of a parameter stands in its module, if it has one.
pub proof fn law_types_are_qualified(module: Seq<char>, rs_typ: Seq<char>)
    ensures
        qualified(Some(module), rs_typ) == module + "::"@ + rs_typ,
        qualified(None, rs_typ) == rs_typ,
{
}

/// The names of the fields whose values a constructor has without a parameter.
pub proof fn law_implied_names(name: Seq<char>)
    ensures
        implied(name) <==> name == "response_type"@ || name == "sequence"@ || name == "format"@
            || name == "sub_code"@,
{
}

/// A constructor without fields has no parameters, and each further field adds its own.
pub proof fn law_parameters_follow_the_fields(fields: Seq<FieldModel>, f: FieldModel)
    ensures
        parameters(Seq::empty()) == Seq::<PieceModel>::empty(),
        parameters(fields.push(f)) == parameters(fields) + parameter(f),
{
    let p = |f: FieldModel| parameter(f);
    assert(parameters(Seq::empty()) =~= Seq::<PieceModel>::empty());
    fields.lemma_flat_map_push(p, f);
}

/// A field of one value is a parameter of its type, unless its value is had without
/// one; a list is an array where its length is a number and a slice where it is not;
/// padding is no parameter.
pub proof fn law_parameter_of_a_field(f: FieldModel)
    ensures
        match f {
            FieldModel::Field { name, module, rs_typ, wire_sz, struct_style } => if name
                == "response_type"@ || name == "sequence"@ || name == "format"@ || name
                == "sub_code"@ {
                parameter(f) == Seq::<PieceModel>::empty()
            } else {
                parameter(f) == seq![
                    says("        "@ + name + ": "@ + qualified(module, rs_typ) + ","@),
                ]
            },
            FieldModel::List { name, module, rs_typ, len_expr, wire_sz, struct_style } => match len_expr {
                ExprModel::Value(n) => parameter(f) == seq![
                    says(
                        "        "@ + name + ": ["@ + qualified(module, rs_typ) + "; "@ + decimal(n)
                            + "],"@,
                    ),
                ],
                _ => parameter(f) == seq![
                    says("        "@ + name + ": &["@ + qualified(module, rs_typ) + "],"@),
                ],
            },
            _ => parameter(f) == Seq::<PieceModel>::empty(),
        },
{
}

/// A field of one value is serialized at the position, and the position moved by what
/// that takes up if the field moves it. A `bool` of a known size is first turned into
/// an integer of that size.
pub proof fn law_writing_a_field(
    name: Seq<char>,
    module: Option<Seq<char>>,
    rs_typ: Seq<char>,
    wire_sz: ExprModel,
    struct_style: Option<StructStyle>,
)
    ensures
        ({
            let f = FieldModel::Field { name, module, rs_typ, wire_sz, struct_style };
            let integer = match wire_sz {
                ExprModel::Value(sz) => if rs_typ == "bool"@ {
                    seq![
                        says(
                            indent(3) + "let "@ + name + ": u"@ + decimal(8 * sz) + " = if "@ + name
                                + " { 1 } else { 0 };"@,
                        ),
                    ]
                } else {
                    Seq::empty()
                },
                _ => Seq::empty(),
            };
            &&& write_field(f, true) == integer + seq![
                says(
                    indent(3) + "wire_off += "@ + name + ".serialize(&mut wire_buf[wire_off ..]);"@,
                ),
            ]
            &&& write_field(f, false) == integer + seq![
                says(indent(3) + name + ".serialize(&mut wire_buf[wire_off ..]);"@),
            ]
        }),
{
    reveal_strlit("");
    assert(indent(3) + ""@ =~= indent(3));
}

/// A list is copied to the position, and the position moved by its size if the list
/// moves it.
pub proof fn law_writing_a_list(
    name: Seq<char>,
    module: Option<Seq<char>>,
    rs_typ: Seq<char>,
    len_expr: ExprModel,
    wire_sz: ExprModel,
    struct_style: Option<StructStyle>,
)
    ensures
        ({
            let f = FieldModel::List { name, module, rs_typ, len_expr, wire_sz, struct_style };
            &&& write_field(f, false) == seq![
                PieceModel::ExprLine {
                    before: indent(3)
                        + "std::slice::from_raw_parts_mut(ptr.add(wire_off) as *mut "@ + qualified(
                        module,
                        rs_typ,
                    ) + ", "@,
                    expr: len_expr,
                    after: ")"@,
                },
                says(indent(3) + "    .copy_from_slice(&"@ + name + ");"@),
            ]
            &&& write_field(f, true) == write_field(f, false).push(
                PieceModel::ExprLine {
                    before: indent(3) + "wire_off += "@,
                    expr: wire_sz,
                    after: ";"@,
                },
            )
        }),
{
    let f = FieldModel::List { name, module, rs_typ, len_expr, wire_sz, struct_style };
    assert(write_field(f, false) =~= seq![
        PieceModel::ExprLine {
            before: indent(3) + "std::slice::from_raw_parts_mut(ptr.add(wire_off) as *mut "@
                + qualified(module, rs_typ) + ", "@,
            expr: len_expr,
            after: ")"@,
        },
        says(indent(3) + "    .copy_from_slice(&"@ + name + ");"@),
    ]);
    assert(write_field(f, true) =~= write_field(f, false).push(
        PieceModel::ExprLine { before: indent(3) + "wire_off += "@, expr: wire_sz, after: ";"@ },
    ));
}

/// Padding and fields of other kinds are not written.
pub proof fn law_what_is_not_written(wire_sz: ExprModel, name: Seq<char>, moves: bool)
    ensures
        write_field(FieldModel::Pad { wire_sz }, moves) == Seq::<PieceModel>::empty(),
        write_field(FieldModel::Other { name }, moves) == Seq::<PieceModel>::empty(),
{
}

proof fn lemma_written_front(fields: Seq<FieldModel>, n: int)
    requires
        0 <= n <= fields.len(),
        n <= moving(fields),
    ensures
        Seq::new(fields.len(), |i: int| i).take(n).flat_map(
            |i: int| write_field(fields[i], i < moving(fields)),
        ) == fields.take(n).flat_map(|f: FieldModel| write_field(f, true)),
    decreases n,
{
    let places = Seq::new(fields.len(), |i: int| i);
    let p = |i: int| write_field(fields[i], i < moving(fields));
    let w = |f: FieldModel| write_field(f, true);
    if n == 0 {
        assert(places.take(0).flat_map(p) =~= fields.take(0).flat_map(w));
    } else {
        lemma_written_front(fields, n - 1);
        places.lemma_flat_map_take_append(p, n - 1);
        fields.lemma_flat_map_take_append(w, n - 1);
        assert(places[n - 1] == n - 1);
        assert(p(places[n - 1]) == w(fields[n - 1]));
    }
}

/// The fields are written one behind the other: each moves the position for the next
/// one, but for the last.
pub proof fn law_fields_are_written_in_order(front: Seq<FieldModel>, last: FieldModel)
    requires
        !(last is Pad),
    ensures
        write_fields(front.push(last)) == front.flat_map(
            |f: FieldModel| write_field(f, true),
        ) + write_field(last, false),
{
    let fields = front.push(last);
    let n = front.len() as int;
    let places = Seq::new(fields.len(), |i: int| i);
    let p = |i: int| write_field(fields[i], i < moving(fields));
    assert(fields.last() == last);
    lemma_written_front(fields, n);
    places.lemma_flat_map_take_append(p, n);
    assert(places.take(n + 1) =~= places);
    assert(fields.take(n) =~= front);
    assert(places[n] == n);
}

/// Padding at the end is not written. In front of a single pad the last field does not
/// move the position; in front of two pads every field does.
pub proof fn law_pads_at_the_end_are_not_written(
    front: Seq<FieldModel>,
    last: FieldModel,
    pad: FieldModel,
    pad2: FieldModel,
)
    requires
        !(last is Pad),
        pad is Pad,
        pad2 is Pad,
    ensures
        write_fields(front.push(last).push(pad)) == front.flat_map(
            |f: FieldModel| write_field(f, true),
        ) + write_field(last, false),
        write_fields(front.push(pad).push(pad2)) == front.flat_map(
            |f: FieldModel| write_field(f, true),
        ),
{
    law_fields_are_written_in_order(front, last);
    law_trailing_pad_is_not_written(front.push(last), pad);
    let fields = front.push(pad).push(pad2);
    let n = front.len() as int;
    let places = Seq::new(fields.len(), |i: int| i);
    let p = |i: int| write_field(fields[i], i < moving(fields));
    assert(fields.last() == pad2);
    lemma_written_front(fields, n);
    places.lemma_flat_map_take_append(p, n);
    places.lemma_flat_map_take_append(p, n + 1);
    assert(places.take(n + 2) =~= places);
    assert(fields.take(n) =~= front);
    assert(p(places[n]) =~= Seq::<PieceModel>::empty());
    assert(p(places[n + 1]) =~= Seq::<PieceModel>::empty());
    assert(write_fields(fields) =~= front.flat_map(|f: FieldModel| write_field(f, true)));
}

// What code can be generated for.

/// A field can be written unless it is of another kind or of a style that is not
/// fixed, or a `bool` whose size in bits is larger than any number.
pub proof fn law_what_can_be_written(f: FieldModel)
    ensures
        writable(f) <==> (match f {
            FieldModel::Field { name, module, rs_typ, wire_sz, struct_style } => {
                &&& struct_style is None || struct_style == Some(StructStyle::FixBuf)
                    || struct_style == Some(StructStyle::WireLayout)
                &&& !(rs_typ == "bool"@ && wire_sz is Value && 8 * wire_sz->Value_0 > usize::MAX)
            },
            FieldModel::List { name, module, rs_typ, len_expr, wire_sz, struct_style } => {
                ||| struct_style is None
                ||| struct_style == Some(StructStyle::FixBuf)
                ||| struct_style == Some(StructStyle::WireLayout)
            },
            FieldModel::Pad { wire_sz } => true,
            FieldModel::Other { name } => false,
        }),
{
    let style = match f {
        FieldModel::Field { struct_style, .. } => struct_style,
        FieldModel::List { struct_style, .. } => struct_style,
        _ => None,
    };
    match style {
        Some(StructStyle::FixBuf) => {},
        Some(StructStyle::WireLayout) => {},
        Some(StructStyle::Other) => {},
        None => {},
    }
}

/// Only events of a fixed size of at most 32 bytes are constructed, whose fields can
/// all be written; a pad alone is not enough.
pub proof fn law_what_can_be_constructed(e: EventModel)
    ensures
        constructible(e) <==> {
            &&& e.wire_sz is Value
            &&& e.wire_sz->Value_0 <= 32
            &&& e.fields.len() >= 1
            &&& !(e.fields.len() == 1 && e.fields[0] is Pad)
            &&& forall|i: int| 0 <= i < e.fields.len() ==> writable(#[trigger] e.fields[i])
        },
{
}

/// Code can be generated for a copy, for an extended event of the core protocol or of
/// an extension, and for a classic event that can be constructed.
pub proof fn law_what_code_can_be_generated_for(g: GenModel, e: EventModel)
    ensures
        e.copy_from_rs_typ is Some ==> g.emittable(e),
        e.copy_from_rs_typ is None && !e.is_xge ==> (g.emittable(e) <==> constructible(e)),
        e.copy_from_rs_typ is None && e.is_xge ==> (g.emittable(e) <==> g.xcb_mod == "xproto"@
            || g.extension is Some),
{
}

/// Code can be generated for a module if and only if it can be for each of its events:
/// always for one without events, and with one event more if it can be for that too.
pub proof fn law_code_can_be_generated_event_by_event(g: GenModel, e: EventModel)
    ensures
        g.events.len() == 0 ==> g.all_emittable(),
        (GenModel { events: g.events.push(e), ..g }).all_emittable() <==> g.all_emittable()
            && g.emittable(e),
{
    let more = GenModel { events: g.events.push(e), ..g };
    assert forall|x: EventModel| more.emittable(x) == g.emittable(x) by {}
    if more.all_emittable() {
        assert forall|i: int| 0 <= i < g.events.len() implies g.emittable(
            #[trigger] g.events[i],
        ) by {
            assert(more.events[i] == g.events[i]);
        }
        assert(more.events[g.events.len() as int] == e);
    }
    if g.all_emittable() && g.emittable(e) {
        assert forall|i: int| 0 <= i < more.events.len() implies more.emittable(
            #[trigger] more.events[i],
        ) by {
            if i < g.events.len() {
                assert(more.events[i] == g.events[i]);
            }
        }
    }
}

} // verus!
