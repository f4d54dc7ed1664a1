//! Registration of events with the generator.

use vstd::prelude::*;

use crate::frame::{event_rs_typ, EventFrame, FrameModel};
use crate::ir;
use crate::model::{
    copy_doc, copy_fields, event_models, field_models, opt_doc, CodeGen, DepInfo, DepModel, Doc,
    Event, EventModel, Expr, ExprModel, Field, FieldModel, GenModel,
};
use crate::text::{cat2, opt_text, same};

verus! {

/// The fields of an event with the types that they have in generated code.
#[derive(Debug, PartialEq)]
pub struct ResolvedFields {
    /// The fields.
    pub fields: Vec<Field>,
    /// The size on the wire of all of them.
    pub wire_sz: Expr,
}

/// The name that a field called `name` gets in an event: `new` is that of the
/// event's constructor.
pub open spec fn event_field_name(name: Seq<char>) -> Seq<char> {
    if name == "new"@ {
        "new_"@
    } else {
        name
    }
}

/// A field as it stands in an event.
pub open spec fn event_field(f: FieldModel) -> FieldModel {
    match f {
        FieldModel::Field { name, module, rs_typ, wire_sz, struct_style } => FieldModel::Field {
            name: event_field_name(name),
            module,
            rs_typ,
            wire_sz,
            struct_style,
        },
        _ => f,
    }
}

/// Fields as they stand in an event.
pub open spec fn event_fields(fields: Seq<FieldModel>) -> Seq<FieldModel> {
    fields.map_values(|f: FieldModel| event_field(f))
}

/// The event that a frame becomes.
pub open spec fn resolved_event(
    frame: FrameModel,
    fields: Seq<FieldModel>,
    wire_sz: ExprModel,
) -> EventModel {
    EventModel {
        rs_typ: frame.rs_typ,
        variant: frame.variant,
        number: frame.number,
        fields: event_fields(fields),
        copy_from_rs_typ: None,
        wire_sz,
        doc: frame.doc,
        is_xge: frame.is_xge,
    }
}

impl GenModel {
    /// The generator with one more event.
    pub open spec fn with_event(
        self,
        frame: FrameModel,
        fields: Seq<FieldModel>,
        wire_sz: ExprModel,
    ) -> GenModel {
        GenModel {
            events: self.events.push(resolved_event(frame, fields, wire_sz)),
            need_count: self.need_count.insert(frame.rs_typ, 1),
            ..self
        }
    }
}

/// Gives the field the name that it has in an event.
fn rename_field(f: Field) -> (r: Field)
    ensures
        r@ == event_field(f@),
{
    match f {
        Field::Field { name, module, rs_typ, wire_sz, struct_style } => {
            let name = if same(&name, "new") {
                "new_".to_owned()
            } else {
                name
            };
            Field::Field { name, module, rs_typ, wire_sz, struct_style }
        },
        f => f,
    }
}

/// Gives the fields the names that they have in an event.
fn rename_fields(fields: Vec<Field>) -> (r: Vec<Field>)
    ensures
        field_models(r@) == event_fields(field_models(fields@)),
{
    let mut r: Vec<Field> = Vec::new();
    for f in it: fields
        invariant
            it.seq() == fields@,
            field_models(r@) == event_fields(field_models(fields@)).take(it.index()),
    {
        let ghost before = field_models(r@);
        r.push(rename_field(f));
        proof {
            let all = event_fields(field_models(fields@));
            assert(field_models(r@) =~= before.push(all[it.index()]));
            assert(all.take(it.index() + 1) =~= all.take(it.index()).push(all[it.index()]));
        }
    }
    assert(event_fields(field_models(fields@)).take(fields@.len() as int) =~= event_fields(
        field_models(fields@),
    ));
    r
}

impl CodeGen {
    /// Registers the event of a frame, once its fields are resolved.
    pub fn add_event(&mut self, frame: EventFrame, resolved: ResolvedFields)
        ensures
            final(self)@ == old(self)@.with_event(
                frame@,
                field_models(resolved.fields@),
                resolved.wire_sz@,
            ),
            final(self).xcb_mod == old(self).xcb_mod,
            final(self).ext_info == old(self).ext_info,
            final(self).depinfo == old(self).depinfo,
            final(self).typinfos == old(self).typinfos,
            final(self).randr_subcodes == old(self).randr_subcodes,
            final(self).events@.len() == old(self).events@.len() + 1,
            final(self).events@.drop_last() == old(self).events@,
            final(self).events@.last().rs_typ == frame.rs_typ,
            final(self).events@.last().variant == frame.variant,
            final(self).events@.last().number == frame.number,
            final(self).events@.last().fields@.len() == resolved.fields@.len(),
            final(self).events@.last().copy_from_rs_typ is None,
            final(self).events@.last().wire_sz == resolved.wire_sz,
            final(self).events@.last().doc == frame.doc,
            final(self).events@.last().is_xge == frame.is_xge,
            final(self).rs_typs_need_count@ == old(self).rs_typs_need_count@.insert(
                frame.rs_typ@,
                1,
            ),
    {
        let fields = rename_fields(resolved.fields);
        assert(field_models(fields@).len() == field_models(resolved.fields@).len());
        self.rs_typs_need_count.insert(frame.rs_typ.clone(), 1);
        let ghost before = self@.events;
        self.events.push(
            Event {
                rs_typ: frame.rs_typ,
                variant: frame.variant,
                number: frame.number,
                fields,
                copy_from_rs_typ: None,
                wire_sz: resolved.wire_sz,
                doc: frame.doc,
                is_xge: frame.is_xge,
            },
        );
        assert(self@.events =~= before.push(self.events@.last()@));
        assert(self.events@.drop_last() =~= old(self).events@);
    }

    /// Resolves and registers the event that is declared with the given fields.
    ///
    /// `variant` is its name in Rust. `resolve_fields` looks up the types of the
    /// fields in the frame that it is given.
    pub fn resolve_event<R: FnOnce(&EventFrame) -> ResolvedFields>(
        &mut self,
        variant: String,
        number: i32,
        fields: Vec<ir::Field>,
        is_xge: bool,
        no_seq_number: bool,
        doc: Option<Doc>,
        resolve_fields: R,
    )
        requires
            old(self)@.framable(ir::field_models(fields@), is_xge, no_seq_number),
            forall|frame: &EventFrame|
                frame@ == old(self)@.event_frame(
                    variant@,
                    number as int,
                    ir::field_models(fields@),
                    is_xge,
                    no_seq_number,
                    opt_doc(doc),
                ) ==> #[trigger] call_requires(resolve_fields, (frame,)),
        ensures
            exists|frame: &EventFrame, resolved: ResolvedFields|
                {
                    &&& frame@ == old(self)@.event_frame(
                        variant@,
                        number as int,
                        ir::field_models(fields@),
                        is_xge,
                        no_seq_number,
                        opt_doc(doc),
                    )
                    &&& #[trigger] call_ensures(resolve_fields, (frame,), resolved)
                    &&& final(self)@ == old(self)@.with_event(
                        frame@,
                        field_models(resolved.fields@),
                        resolved.wire_sz@,
                    )
                    &&& final(self).events@.last().wire_sz == resolved.wire_sz
                    &&& final(self).events@.last().fields@.len() == resolved.fields@.len()
                },
            final(self).xcb_mod == old(self).xcb_mod,
            final(self).ext_info == old(self).ext_info,
            final(self).depinfo == old(self).depinfo,
            final(self).typinfos == old(self).typinfos,
            final(self).randr_subcodes == old(self).randr_subcodes,
            final(self).events@.len() == old(self).events@.len() + 1,
            final(self).events@.drop_last() == old(self).events@,
            final(self).events@.last().rs_typ@ == variant@ + "Event"@,
            final(self).events@.last().variant@ == variant@,
            final(self).events@.last().number == number,
            final(self).events@.last().copy_from_rs_typ is None,
            final(self).events@.last().doc == doc,
            final(self).events@.last().is_xge == is_xge,
            final(self)@.events.last().number == number,
            final(self)@.events.last().variant == variant@,
            final(self)@.events.last().is_xge == is_xge,
            final(self).rs_typs_need_count@ == old(self).rs_typs_need_count@.insert(
                variant@ + "Event"@,
                1,
            ),
    {
        let frame = self.frame_event(variant, number, fields, is_xge, no_seq_number, doc);
        let resolved = resolve_fields(&frame);
        self.add_event(frame, resolved);
    }
}

/// The first of the events that has the given variant.
pub open spec fn first_event(events: Seq<EventModel>, variant: Seq<char>) -> Option<EventModel>
    decreases events.len(),
{
    if events.len() == 0 {
        None
    } else if events[0].variant == variant {
        Some(events[0])
    } else {
        first_event(events.drop_first(), variant)
    }
}

/// The first of the modules that has the given name.
pub open spec fn first_dep(deps: Seq<DepModel>, xcb_mod: Seq<char>) -> Option<DepModel>
    decreases deps.len(),
{
    if deps.len() == 0 {
        None
    } else if deps[0].xcb_mod == xcb_mod {
        Some(deps[0])
    } else {
        first_dep(deps.drop_first(), xcb_mod)
    }
}

/// The first event with the given variant, module after module.
pub open spec fn first_dep_event(deps: Seq<DepModel>, variant: Seq<char>) -> Option<EventModel>
    decreases deps.len(),
{
    if deps.len() == 0 {
        None
    } else {
        match first_event(deps[0].events, variant) {
            Some(e) => Some(e),
            None => first_dep_event(deps.drop_first(), variant),
        }
    }
}

impl GenModel {
    /// The event that a reference means: one of the module that it names or, if
    /// it names none, one of this module or else of the modules that it depends
    /// on.
    pub open spec fn find_event(
        self,
        module: Option<Seq<char>>,
        variant: Seq<char>,
    ) -> Option<EventModel> {
        match module {
            Some(m) => match first_dep(self.deps, m) {
                Some(d) => first_event(d.events, variant),
                None => None,
            },
            None => match first_event(self.events, variant) {
                Some(e) => Some(e),
                None => first_dep_event(self.deps, variant),
            },
        }
    }

    /// The generator with one more event, which has the content of `source`.
    pub open spec fn with_copy(
        self,
        variant: Seq<char>,
        number: int,
        source: EventModel,
    ) -> GenModel {
        GenModel {
            events: self.events.push(
                EventModel {
                    rs_typ: event_rs_typ(variant),
                    variant,
                    number,
                    copy_from_rs_typ: Some(source.rs_typ),
                    ..source
                },
            ),
            ..self
        }
    }
}

/// The first of the events that has the given variant.
fn find_variant<'a>(events: &'a Vec<Event>, variant: &String) -> (r: Option<&'a Event>)
    ensures
        first_event(event_models(events@), variant@) == (match r {
            Some(e) => Some(e@),
            None => None,
        }),
{
    let ghost all = event_models(events@);
    let mut i: usize = 0;
    assert(all.skip(0) =~= all);
    while i < events.len()
        invariant
            i <= events@.len(),
            all == event_models(events@),
            first_event(all, variant@) == first_event(all.skip(i as int), variant@),
        decreases events@.len() - i,
    {
        let ghost rest = all.skip(i as int);
        assert(rest[0] == events@[i as int]@);
        if events[i].variant == *variant {
            return Some(&events[i]);
        }
        assert(rest.drop_first() =~= all.skip(i + 1));
        i = i + 1;
    }
    None
}

impl CodeGen {
    /// The first module with the given name among those that this one depends on.
    pub fn find_dep(&self, module: &String) -> (r: Option<&DepInfo>)
        ensures
            first_dep(self@.deps, module@) == (match r {
                Some(d) => Some(d@),
                None => None,
            }),
    {
        let mut i: usize = 0;
        assert(self@.deps.skip(0) =~= self@.deps);
        while i < self.depinfo.len()
            invariant
                i <= self.depinfo@.len(),
                first_dep(self@.deps, module@) == first_dep(self@.deps.skip(i as int), module@),
            decreases self.depinfo@.len() - i,
        {
            let ghost rest = self@.deps.skip(i as int);
            assert(rest[0] == self.depinfo@[i as int]@);
            if self.depinfo[i].xcb_mod == *module {
                return Some(&self.depinfo[i]);
            }
            assert(rest.drop_first() =~= self@.deps.skip(i + 1));
            i = i + 1;
        }
        None
    }

    /// The first event with the given variant in the modules that this one
    /// depends on.
    fn find_dep_event(&self, variant: &String) -> (r: Option<&Event>)
        ensures
            first_dep_event(self@.deps, variant@) == (match r {
                Some(e) => Some(e@),
                None => None,
            }),
    {
        let mut i: usize = 0;
        assert(self@.deps.skip(0) =~= self@.deps);
        while i < self.depinfo.len()
            invariant
                i <= self.depinfo@.len(),
                first_dep_event(self@.deps, variant@) == first_dep_event(
                    self@.deps.skip(i as int),
                    variant@,
                ),
            decreases self.depinfo@.len() - i,
        {
            let ghost rest = self@.deps.skip(i as int);
            assert(rest[0] == self.depinfo@[i as int]@);
            let found = find_variant(&self.depinfo[i].events, variant);
            if found.is_some() {
                return found;
            }
            assert(rest.drop_first() =~= self@.deps.skip(i + 1));
            i = i + 1;
        }
        None
    }

    /// The event that a reference means, if there is one.
    pub fn find_event(&self, module: &Option<String>, variant: &String) -> (r: Option<&Event>)
        ensures
            self@.find_event(opt_text(*module), variant@) == (match r {
                Some(e) => Some(e@),
                None => None,
            }),
    {
        match module {
            Some(m) => match self.find_dep(m) {
                Some(d) => find_variant(&d.events, variant),
                None => None,
            },
            None => {
                let own = find_variant(&self.events, variant);
                if own.is_some() {
                    own
                } else {
                    self.find_dep_event(variant)
                }
            },
        }
    }

    /// Registers an event that has the same content as another one.
    ///
    /// `variant` is its name in Rust; `ref_module` and `ref_variant` say which
    /// event it copies.
    pub fn resolve_eventcopy(
        &mut self,
        variant: String,
        number: i32,
        ref_module: Option<String>,
        ref_variant: String,
    )
        requires
            old(self)@.find_event(opt_text(ref_module), ref_variant@) is Some,
        ensures
            final(self)@ == old(self)@.with_copy(
                variant@,
                number as int,
                old(self)@.find_event(opt_text(ref_module), ref_variant@)->0,
            ),
            final(self).xcb_mod == old(self).xcb_mod,
            final(self).ext_info == old(self).ext_info,
            final(self).depinfo == old(self).depinfo,
            final(self).typinfos == old(self).typinfos,
            final(self).randr_subcodes == old(self).randr_subcodes,
            final(self).events@.len() == old(self).events@.len() + 1,
            final(self).events@.drop_last() == old(self).events@,
            final(self).rs_typs_need_count@ == old(self).rs_typs_need_count@,
            final(self).events@.last().rs_typ@ == variant@ + "Event"@,
            final(self).events@.last().variant@ == variant@,
            final(self).events@.last().number == number,
            final(self).events@.last().copy_from_rs_typ is Some,
            final(self)@.events.last().number == number,
            final(self)@.events.last().variant == variant@,
    {
        let source = self.find_event(&ref_module, &ref_variant).unwrap();
        let event = Event {
            rs_typ: cat2(variant.as_str(), "Event"),
            variant,
            number,
            copy_from_rs_typ: Some(source.rs_typ.clone()),
            fields: copy_fields(&source.fields),
            wire_sz: source.wire_sz.clone(),
            is_xge: source.is_xge,
            doc: copy_doc(&source.doc),
        };
        let ghost before = self@.events;
        self.events.push(event);
        assert(self@.events =~= before.push(event@));
        assert(self.events@.drop_last() =~= old(self).events@);
    }
}

} // verus!
