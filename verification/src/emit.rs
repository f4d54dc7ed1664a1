//! Code of the events of a module.

use vstd::prelude::*;

use crate::constructor::{constructible, is_constructible};
use crate::model::{CodeGen, Event, EventModel, GenModel};
use crate::output::{blank, line, Output, Piece, PieceModel};
use crate::text::{cat3, cat5, signed_dec, signed_decimal};

verus! {

/// The raw type that an event points to.
pub open spec fn raw_typ(e: EventModel) -> Seq<char> {
    if e.is_xge {
        "xcb_ge_generic_event_t"@
    } else {
        "xcb_generic_event_t"@
    }
}

/// The trait that all events of the kind of `e` implement.
pub open spec fn event_trait(e: EventModel) -> Seq<char> {
    if e.is_xge {
        "base::GeEvent"@
    } else {
        "base::BaseEvent"@
    }
}

/// The documentation of an event.
pub open spec fn doc_text(e: EventModel) -> Seq<PieceModel> {
    match e.doc {
        Some(lines) => lines.map_values(|s: Seq<char>| line(s)),
        None => seq![line("/// The `"@ + e.rs_typ + "` event."@)],
    }
}

/// The type of an event that has the content of the event of type `source`.
pub open spec fn alias_text(e: EventModel, source: Seq<char>) -> Seq<PieceModel> {
    seq![blank()] + doc_text(e) + seq![
        line("pub type "@ + e.rs_typ + " = "@ + source + ";"@),
    ]
}

/// The type of an event. It holds a pointer to data that it owns.
pub open spec fn struct_text(e: EventModel) -> Seq<PieceModel> {
    seq![blank()] + doc_text(e) + seq![
        line("pub struct "@ + e.rs_typ + " {"@),
        line("    raw: *mut "@ + raw_typ(e) + ","@),
        line("}"@),
    ]
}

/// The implementation of `Drop` for an event, which frees the data.
pub open spec fn drop_text(e: EventModel) -> Seq<PieceModel> {
    seq![
        blank(),
        line("impl Drop for "@ + e.rs_typ + " {"@),
        line("    fn drop(&mut self) {"@),
        line("        unsafe { libc::free(self.raw as *mut _); }"@),
        line("    }"@),
        line("}"@),
    ]
}

/// The conversions between an event and its raw pointer.
pub open spec fn raw_text(e: EventModel) -> Seq<PieceModel> {
    seq![
        line("    const NUMBER: u32 = "@ + signed_decimal(e.number) + ";"@),
        blank(),
        line(
            "    unsafe fn from_raw(raw: *mut "@ + raw_typ(e) + ") -> Self { "@ + e.rs_typ
                + " { raw } }"@,
        ),
        blank(),
        line("    unsafe fn into_raw(self) -> *mut "@ + raw_typ(e) + " {"@),
        line("        let raw = self.raw;"@),
        line("        std::mem::forget(self);"@),
        line("        raw"@),
        line("    }"@),
        blank(),
        line("    fn as_raw(&self) -> *mut "@ + raw_typ(e) + " {"@),
        line("        self.raw"@),
        line("    }"@),
    ]
}

/// The access to the bytes of an event.
pub open spec fn as_slice_text(e: EventModel) -> Seq<PieceModel> {
    seq![
        blank(),
        line("    fn as_slice(&self) -> &[u8] {"@),
        line("        unsafe {"@),
        line(
            "            std::slice::from_raw_parts(self.raw as *const u8, "@ + (if e.is_xge {
                "self.length() as usize"@
            } else {
                "32"@
            }) + ")"@,
        ),
        line("        }"@),
        line("    }"@),
    ]
}

impl GenModel {
    /// The extension that an event belongs to.
    pub open spec fn extension_text(self, e: EventModel) -> Seq<PieceModel> {
        if e.is_xge {
            seq![
                line(
                    "    const EXTENSION: ext::Extension = ext::Extension::"@ + self.extension->0
                        + ";"@,
                ),
                blank(),
            ]
        } else {
            match self.extension {
                Some(x) => seq![
                    line(
                        "    const EXTENSION: std::option::Option<ext::Extension> = Some(ext::Extension::"@
                            + x + ");"@,
                    ),
                ],
                None => seq![
                    line("    const EXTENSION: std::option::Option<ext::Extension> = None;"@),
                ],
            }
        }
    }

    /// The implementation of the trait of all events of its kind for an event.
    pub open spec fn trait_text(self, e: EventModel) -> Seq<PieceModel> {
        seq![blank(), line("impl "@ + event_trait(e) + " for "@ + e.rs_typ + " {"@)]
            + self.extension_text(e) + raw_text(e) + as_slice_text(e) + seq![line("}"@)]
    }

    /// The methods of an event. Classic events can be constructed, to be sent.
    pub open spec fn methods_text(self, e: EventModel) -> Seq<PieceModel> {
        seq![blank(), line("impl "@ + e.rs_typ + " {"@)] + (if e.is_xge {
            Seq::empty()
        } else {
            self.event_new_text(e).push(blank())
        }) + seq![
            line("    fn wire_ptr(&self) -> *const u8 { self.raw as *const u8 }"@),
            PieceModel::Accessors { rs_typ: e.rs_typ, fields: e.fields },
            line("}"@),
        ]
    }

    /// Whether an event is one that only stands for the extended events of the
    /// extensions. No code is generated for it.
    pub open spec fn placeholder(self, e: EventModel) -> bool {
        e.is_xge && self.is_core()
    }

    /// The code of an event.
    pub open spec fn event_text(self, e: EventModel) -> Seq<PieceModel> {
        if self.placeholder(e) {
            Seq::empty()
        } else if e.copy_from_rs_typ is Some {
            alias_text(e, e.copy_from_rs_typ->0)
        } else {
            struct_text(e) + self.trait_text(e) + self.methods_text(e) + seq![
                PieceModel::DebugImpl { rs_typ: e.rs_typ, fields: e.fields },
            ] + drop_text(e)
        }
    }

    /// The variant of an event in the enumeration of the events of the module.
    pub open spec fn variant_text(self, e: EventModel) -> Seq<PieceModel> {
        if self.placeholder(e) {
            Seq::empty()
        } else {
            seq![line("    "@ + e.variant + "("@ + e.rs_typ + "),"@)]
        }
    }

    /// The enumeration of the events of the module.
    pub open spec fn enum_text(self) -> Seq<PieceModel> {
        seq![
            blank(),
            line(
                match self.extension {
                    Some(x) => "/// Unified event type for the "@ + x + " extension"@,
                    None => "/// Unified event type for the X core protocol"@,
                },
            ),
            line("#[derive(Debug)]"@),
            line("pub enum Event {"@),
        ] + self.events.flat_map(|e: EventModel| self.variant_text(e)) + seq![line("}"@)]
    }

    /// Whether the module has classic events.
    pub open spec fn has_classic(self) -> bool {
        exists|i: int| 0 <= i < self.events.len() && !(#[trigger] self.events[i]).is_xge
    }

    /// Whether the module has extended events.
    pub open spec fn has_xge(self) -> bool {
        exists|i: int| 0 <= i < self.events.len() && (#[trigger] self.events[i]).is_xge
    }

    /// The code of the events of the module.
    pub open spec fn events_text(self) -> Seq<PieceModel> {
        if self.events.len() == 0 {
            Seq::empty()
        } else {
            self.events.flat_map(|e: EventModel| self.event_text(e)) + self.enum_text() + (
            if self.has_classic() {
                self.resolve_wire_event_text()
            } else {
                Seq::empty()
            }) + (if self.has_xge() && !self.is_core() {
                self.resolve_wire_ge_event_text()
            } else {
                Seq::empty()
            })
        }
    }

    /// Whether code can be generated for an event: an extended event belongs to
    /// an extension, and a classic one can be constructed.
    pub open spec fn emittable(self, e: EventModel) -> bool {
        ||| self.placeholder(e)
        ||| e.copy_from_rs_typ is Some
        ||| if e.is_xge {
            self.extension is Some
        } else {
            constructible(e)
        }
    }

    /// Whether code can be generated for all events of the module.
    pub open spec fn all_emittable(self) -> bool {
        forall|i: int| 0 <= i < self.events.len() ==> self.emittable(#[trigger] self.events[i])
    }
}

/// The raw type that an event points to.
fn raw_typ_of(event: &Event) -> (s: &'static str)
    ensures
        s@ == raw_typ(event@),
{
    if event.is_xge {
        "xcb_ge_generic_event_t"
    } else {
        "xcb_generic_event_t"
    }
}

/// Adds the documentation of an event.
fn emit_doc(out: &mut Output, event: &Event)
    ensures
        final(out)@ == old(out)@ + doc_text(event@),
{
    match &event.doc {
        Some(doc) => {
            let ghost all = doc_text(event@);
            let ghost start = out@;
            let mut i: usize = 0;
            assert(out@ =~= start + all.take(0));
            while i < doc.lines.len()
                invariant
                    i <= doc.lines@.len(),
                    all == doc@.map_values(|s: Seq<char>| line(s)),
                    out@ == start + all.take(i as int),
                decreases doc.lines@.len() - i,
            {
                out.text(doc.lines[i].as_str());
                assert(all[i as int] == line(doc.lines@[i as int]@));
                i = i + 1;
                assert(out@ =~= start + all.take(i as int));
            }
            assert(all.take(i as int) =~= all);
        },
        None => {
            out.line(cat3("/// The `", event.rs_typ.as_str(), "` event."));
            assert(out@ =~= old(out)@ + doc_text(event@));
        },
    }
}

/// Adds the type of an event that has the content of the event of type `source`.
fn emit_alias(out: &mut Output, event: &Event, source: &String)
    ensures
        final(out)@ == old(out)@ + alias_text(event@, source@),
{
    out.blank();
    emit_doc(out, event);
    out.line(cat5("pub type ", event.rs_typ.as_str(), " = ", source.as_str(), ";"));
    assert(out@ =~= old(out)@ + alias_text(event@, source@));
}

/// Adds the type of an event.
fn emit_struct(out: &mut Output, event: &Event)
    ensures
        final(out)@ == old(out)@ + struct_text(event@),
{
    out.blank();
    emit_doc(out, event);
    out.line(cat3("pub struct ", event.rs_typ.as_str(), " {"));
    out.line(cat3("    raw: *mut ", raw_typ_of(event), ","));
    out.text("}");
    assert(out@ =~= old(out)@ + struct_text(event@));
}

/// Adds the implementation of `Drop` for an event.
fn emit_drop(out: &mut Output, event: &Event)
    ensures
        final(out)@ == old(out)@ + drop_text(event@),
{
    out.blank();
    out.line(cat3("impl Drop for ", event.rs_typ.as_str(), " {"));
    out.text("    fn drop(&mut self) {");
    out.text("        unsafe { libc::free(self.raw as *mut _); }");
    out.text("    }");
    out.text("}");
    assert(out@ =~= old(out)@ + drop_text(event@));
}

/// Adds the conversions between an event and its raw pointer.
fn emit_raw(out: &mut Output, event: &Event)
    ensures
        final(out)@ == old(out)@ + raw_text(event@),
{
    let raw = raw_typ_of(event);
    out.line(cat3("    const NUMBER: u32 = ", signed_dec(event.number).as_str(), ";"));
    out.blank();
    out.line(
        cat5(
            "    unsafe fn from_raw(raw: *mut ",
            raw,
            ") -> Self { ",
            event.rs_typ.as_str(),
            " { raw } }",
        ),
    );
    out.blank();
    out.line(cat3("    unsafe fn into_raw(self) -> *mut ", raw, " {"));
    out.text("        let raw = self.raw;");
    out.text("        std::mem::forget(self);");
    out.text("        raw");
    out.text("    }");
    out.blank();
    out.line(cat3("    fn as_raw(&self) -> *mut ", raw, " {"));
    out.text("        self.raw");
    out.text("    }");
    assert(out@ =~= old(out)@ + raw_text(event@));
}

/// Adds the access to the bytes of an event.
fn emit_as_slice(out: &mut Output, event: &Event)
    ensures
        final(out)@ == old(out)@ + as_slice_text(event@),
{
    let len_expr = if event.is_xge {
        "self.length() as usize"
    } else {
        "32"
    };
    out.blank();
    out.text("    fn as_slice(&self) -> &[u8] {");
    out.text("        unsafe {");
    out.line(
        cat3(
            "            std::slice::from_raw_parts(self.raw as *const u8, ",
            len_expr,
            ")",
        ),
    );
    out.text("        }");
    out.text("    }");
    assert(out@ =~= old(out)@ + as_slice_text(event@));
}

impl CodeGen {
    /// Adds the extension that an event belongs to.
    fn emit_extension(&self, out: &mut Output, event: &Event)
        requires
            event@.is_xge ==> self@.extension is Some,
        ensures
            final(out)@ == old(out)@ + self@.extension_text(event@),
    {
        match &self.ext_info {
            Some(x) => {
                if event.is_xge {
                    out.line(
                        cat3(
                            "    const EXTENSION: ext::Extension = ext::Extension::",
                            x.rs_name.as_str(),
                            ";",
                        ),
                    );
                    out.blank();
                } else {
                    out.line(
                        cat3(
                            "    const EXTENSION: std::option::Option<ext::Extension> = Some(ext::Extension::",
                            x.rs_name.as_str(),
                            ");",
                        ),
                    );
                }
            },
            None => {
                out.text("    const EXTENSION: std::option::Option<ext::Extension> = None;");
            },
        }
        assert(out@ =~= old(out)@ + self@.extension_text(event@));
    }

    /// Adds the implementation of the trait of all events of its kind.
    fn emit_trait(&self, out: &mut Output, event: &Event)
        requires
            event@.is_xge ==> self@.extension is Some,
        ensures
            final(out)@ == old(out)@ + self@.trait_text(event@),
    {
        let name = if event.is_xge {
            "base::GeEvent"
        } else {
            "base::BaseEvent"
        };
        out.blank();
        out.line(cat5("impl ", name, " for ", event.rs_typ.as_str(), " {"));
        self.emit_extension(out, event);
        emit_raw(out, event);
        emit_as_slice(out, event);
        out.text("}");
        assert(out@ =~= old(out)@ + self@.trait_text(event@));
    }

    /// Adds the methods of an event.
    fn emit_methods<'a>(&self, out: &mut Output<'a>, event: &'a Event)
        requires
            event@.is_xge || constructible(event@),
        ensures
            final(out)@ == old(out)@ + self@.methods_text(event@),
    {
        out.blank();
        out.line(cat3("impl ", event.rs_typ.as_str(), " {"));
        if !event.is_xge {
            self.emit_event_new(out, event);
            out.blank();
        }
        out.text("    fn wire_ptr(&self) -> *const u8 { self.raw as *const u8 }");
        out.push(Piece::Accessors(event));
        out.text("}");
        assert(out@ =~= old(out)@ + self@.methods_text(event@));
    }

    /// Whether an event only stands for the extended events of the extensions.
    fn is_placeholder(&self, event: &Event) -> (b: bool)
        ensures
            b == self@.placeholder(event@),
    {
        event.is_xge && self.is_core()
    }

    /// Adds the code of an event.
    fn emit_event<'a>(&self, out: &mut Output<'a>, event: &'a Event)
        requires
            self@.emittable(event@),
        ensures
            final(out)@ == old(out)@ + self@.event_text(event@),
    {
        if !self.is_placeholder(event) {
            match &event.copy_from_rs_typ {
                Some(source) => {
                    emit_alias(out, event, source);
                },
                None => {
                    emit_struct(out, event);
                    self.emit_trait(out, event);
                    self.emit_methods(out, event);
                    out.push(Piece::DebugImpl(event));
                    emit_drop(out, event);
                },
            }
        }
        assert(out@ =~= old(out)@ + self@.event_text(event@));
    }

    /// Adds the enumeration of the events of the module.
    fn emit_enum(&self, out: &mut Output)
        ensures
            final(out)@ == old(out)@ + self@.enum_text(),
    {
        out.blank();
        match &self.ext_info {
            Some(x) => {
                out.line(
                    cat3("/// Unified event type for the ", x.rs_name.as_str(), " extension"),
                );
            },
            None => {
                out.text("/// Unified event type for the X core protocol");
            },
        }
        out.text("#[derive(Debug)]");
        out.text("pub enum Event {");
        let ghost f = |e: EventModel| self@.variant_text(e);
        let ghost start = out@;
        let mut i: usize = 0;
        assert(out@ =~= start + self@.events.take(0).flat_map(f));
        while i < self.events.len()
            invariant
                i <= self.events@.len(),
                f == (|e: EventModel| self@.variant_text(e)),
                out@ == start + self@.events.take(i as int).flat_map(f),
            decreases self.events@.len() - i,
        {
            let event = &self.events[i];
            let ghost before = out@;
            if !self.is_placeholder(event) {
                out.line(
                    cat5("    ", event.variant.as_str(), "(", event.rs_typ.as_str(), "),"),
                );
            }
            proof {
                assert(self@.events[i as int] == event@);
                assert(out@ =~= before + f(self@.events[i as int]));
                self@.events.lemma_flat_map_take_append(f, i as int);
                assert(out@ =~= start + self@.events.take(i + 1).flat_map(f));
            }
            i = i + 1;
        }
        assert(self@.events.take(i as int) =~= self@.events);
        out.text("}");
        assert(out@ =~= old(out)@ + self@.enum_text());
    }

    /// Whether the module has an event that is extended or, without `xge`, one
    /// that is not.
    fn has_kind(&self, xge: bool) -> (b: bool)
        ensures
            b == (if xge {
                self@.has_xge()
            } else {
                self@.has_classic()
            }),
    {
        let mut i: usize = 0;
        while i < self.events.len()
            invariant
                i <= self.events@.len(),
                forall|j: int| 0 <= j < i ==> (#[trigger] self@.events[j]).is_xge != xge,
            decreases self.events@.len() - i,
        {
            assert(self@.events[i as int] == self.events@[i as int]@);
            if self.events[i].is_xge == xge {
                return true;
            }
            i = i + 1;
        }
        false
    }

    /// Adds the code of the first `n` events of the module.
    pub fn emit_first_events<'a>(&'a self, n: usize, out: &mut Output<'a>)
        requires
            n <= self@.events.len(),
            forall|i: int| 0 <= i < n ==> self@.emittable(#[trigger] self@.events[i]),
        ensures
            final(out)@ == old(out)@ + self@.events.take(n as int).flat_map(
                |e: EventModel| self@.event_text(e),
            ),
    {
        let ghost start = out@;
        let ghost f = |e: EventModel| self@.event_text(e);
        let mut i: usize = 0;
        assert(out@ =~= start + self@.events.take(0).flat_map(f));
        while i < n
            invariant
                i <= n <= self.events@.len(),
                forall|i: int| 0 <= i < n ==> self@.emittable(#[trigger] self@.events[i]),
                f == (|e: EventModel| self@.event_text(e)),
                out@ == start + self@.events.take(i as int).flat_map(f),
            decreases n - i,
        {
            let ghost before = out@;
            assert(self@.events[i as int] == self.events@[i as int]@);
            self.emit_event(out, &self.events[i]);
            proof {
                assert(out@ == before + f(self@.events[i as int]));
                self@.events.lemma_flat_map_take_append(f, i as int);
                assert(out@ =~= start + self@.events.take(i + 1).flat_map(f));
            }
            i = i + 1;
        }
    }

    /// Adds the code of the events of the module.
    pub fn emit_events<'a>(&'a self, out: &mut Output<'a>)
        requires
            self@.all_emittable(),
        ensures
            final(out)@ == old(out)@ + self@.events_text(),
    {
        let ghost start = out@;
        if self.events.is_empty() {
            assert(out@ =~= start + self@.events_text());
            return ;
        }
        self.emit_first_events(self.events.len(), out);
        assert(self@.events.take(self.events@.len() as int) =~= self@.events);
        self.emit_enum(out);
        if self.has_kind(false) {
            self.emit_resolve_wire_event(out);
        }
        if self.has_kind(true) && !self.is_core() {
            self.emit_resolve_wire_ge_event(out);
        }
        assert(out@ =~= start + self@.events_text());
    }

    /// The index of the first event that no code can be generated for.
    pub fn first_not_emittable(&self) -> (r: Option<usize>)
        ensures
            r is None <==> self@.all_emittable(),
            r matches Some(i) ==> {
                &&& i < self@.events.len()
                &&& !self@.emittable(self@.events[i as int])
                &&& forall|j: int| 0 <= j < i ==> self@.emittable(#[trigger] self@.events[j])
            },
    {
        let mut i: usize = 0;
        while i < self.events.len()
            invariant
                i <= self.events@.len(),
                forall|j: int| 0 <= j < i ==> self@.emittable(#[trigger] self@.events[j]),
            decreases self.events@.len() - i,
        {
            let event = &self.events[i];
            assert(self@.events[i as int] == event@);
            let emittable = self.is_placeholder(event) || event.copy_from_rs_typ.is_some() || (
            if event.is_xge {
                self.ext_info.is_some()
            } else {
                is_constructible(event)
            });
            if !emittable {
                return Some(i);
            }
            i = i + 1;
        }
        None
    }
}

} // verus!
