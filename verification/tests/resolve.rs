use xcb_events::frame::{EventFrame, FrameFault};
use xcb_events::ir;
use xcb_events::model::{
    CodeGen, DepInfo, Doc, Event, Expr, Field, StructStyle, Subcode, TypInfo,
};
use xcb_events::need_count::NeedCount;
use xcb_events::resolve::ResolvedFields;

fn s(text: &str) -> String {
    text.to_string()
}

fn typ(module: Option<&str>, name: &str, sz: usize) -> TypInfo {
    TypInfo { module: module.map(s), typ: s(name), wire_sz: Expr::Value(sz) }
}

fn generator(xcb_mod: &str, depinfo: Vec<DepInfo>) -> CodeGen {
    let typinfos = vec![
        typ(None, "CARD8", 1),
        typ(None, "CARD16", 2),
        typ(None, "CARD32", 4),
        typ(Some("xproto"), "WINDOW", 4),
        typ(Some("xproto"), "EVENT", 12),
        typ(Some("sync"), "EVENT", 20),
        TypInfo { module: None, typ: s("NAMES"), wire_sz: Expr::Formula(s("len * 4")) },
        typ(None, "CARD8", 99),
    ];
    CodeGen::new(s(xcb_mod), None, depinfo, typinfos, Vec::<Subcode>::new())
}

fn one(name: &str, typ: &str) -> ir::Field {
    ir::make_field(name, typ)
}

fn of_module(name: &str, module: &str, typ: &str) -> ir::Field {
    ir::Field::Field { name: s(name), module: Some(s(module)), typ: s(typ) }
}

fn list(name: &str, typ: &str, len: usize) -> ir::Field {
    let len_expr = ir::Expr::Value(len);
    ir::Field::List { name: s(name), module: None, typ: s(typ), len_expr }
}

fn var_list(name: &str, typ: &str) -> ir::Field {
    let len_expr = ir::Expr::Formula(s("n"));
    ir::Field::List { name: s(name), module: None, typ: s(typ), len_expr }
}

fn event(variant: &str) -> Event {
    Event {
        rs_typ: format!("{}Event", variant),
        variant: s(variant),
        number: 1,
        fields: vec![Field::Pad { wire_sz: Expr::Value(3) }],
        copy_from_rs_typ: None,
        wire_sz: Expr::Value(32),
        doc: Some(Doc { lines: vec![s("/// Of another module.")] }),
        is_xge: false,
    }
}

fn plain(name: &str) -> Field {
    Field::Field {
        name: s(name),
        module: None,
        rs_typ: s("u8"),
        wire_sz: Expr::Value(1),
        struct_style: None,
    }
}

fn names(frame: &EventFrame) -> Vec<String> {
    let mut all = Vec::new();
    for f in &frame.fields {
        all.push(match f {
            ir::Field::Field { name, module: Some(m), typ } => format!("{}:{}:{}", name, m, typ),
            ir::Field::Field { name, module: None, typ } => format!("{}:{}", name, typ),
            ir::Field::List { name, typ, .. } => format!("{}:{}[]", name, typ),
            ir::Field::ListNoLen { name, typ, .. } => format!("{}:{}[?]", name, typ),
            ir::Field::Pad(n) => format!("pad{}", n),
            ir::Field::Other(text) => text.clone(),
        });
    }
    all
}

fn framed(g: &CodeGen, fields: Vec<ir::Field>, is_xge: bool, no_seq_number: bool) -> Vec<String> {
    assert_eq!(g.frame_fault(&fields, is_xge, no_seq_number), None);
    names(&g.frame_event(s("Some"), 0, fields, is_xge, no_seq_number, None))
}

#[test]
fn types_have_the_size_of_their_first_entry() {
    let g = generator("xproto", vec![]);
    assert_eq!(g.typ_wire_sz(&None, "CARD8"), Expr::Value(1));
    assert_eq!(g.typ_wire_sz(&None, "NAMES"), Expr::Formula(s("len * 4")));
    assert!(g.find_typinfo(&None, "NOTHING").is_none());
}

#[test]
fn qualified_types_are_looked_up_in_their_module() {
    let g = generator("xinput", vec![]);
    let xproto = Some(s("xproto"));
    assert_eq!(g.typ_wire_sz(&xproto, "WINDOW"), Expr::Value(4));
    assert!(g.find_typinfo(&None, "WINDOW").is_none());
    assert!(g.find_typinfo(&Some(s("sync")), "WINDOW").is_none());
    assert!(g.find_typinfo(&xproto, "CARD8").is_none());
    assert!(g.find_typinfo(&None, "xproto:WINDOW").is_none());
    assert_eq!(g.ir_field_sizeof(&of_module("w", "xproto", "WINDOW")), Expr::Value(4));
    assert!(!g.is_sizable(&one("w", "WINDOW")));
}

#[test]
fn types_of_the_same_name_in_two_modules() {
    let g = generator("xinput", vec![]);
    assert_eq!(g.typ_wire_sz(&Some(s("xproto")), "EVENT"), Expr::Value(12));
    assert_eq!(g.typ_wire_sz(&Some(s("sync")), "EVENT"), Expr::Value(20));
    assert_eq!(g.ir_field_sizeof(&of_module("e", "sync", "EVENT")), Expr::Value(20));
    let three = ir::Field::List {
        name: s("e"),
        module: Some(s("xproto")),
        typ: s("EVENT"),
        len_expr: ir::Expr::Value(3),
    };
    assert_eq!(g.ir_field_sizeof(&three), Expr::Value(36));
    let fields = vec![of_module("e", "sync", "EVENT"), one("b", "CARD16"), one("c", "CARD8")];
    assert_eq!(
        framed(&g, fields, true, false)[5..],
        vec!["e:sync:EVENT", "b:CARD16", "full_sequence:CARD32", "c:CARD8"]
    );
    let fields = vec![of_module("e", "xproto", "EVENT"), one("b", "CARD16"), one("c", "CARD8")];
    assert_eq!(
        framed(&g, fields, true, false)[5..],
        vec!["e:xproto:EVENT", "b:CARD16", "c:CARD8"]
    );
}

#[test]
fn sizes_of_declared_fields() {
    let g = generator("xproto", vec![]);
    let unknown = Expr::Unknown(s("variable list"));
    assert_eq!(g.ir_field_sizeof(&one("a", "CARD32")), Expr::Value(4));
    assert_eq!(g.ir_field_sizeof(&one("a", "NAMES")), Expr::Formula(s("len * 4")));
    assert_eq!(g.ir_field_sizeof(&list("a", "CARD16", 7)), Expr::Value(14));
    assert_eq!(g.ir_field_sizeof(&list("a", "NAMES", 7)), unknown);
    assert_eq!(g.ir_field_sizeof(&var_list("a", "CARD16")), unknown);
    assert_eq!(g.ir_field_sizeof(&var_list("a", "NOTHING")), unknown);
    let no_len = ir::Field::ListNoLen { name: s("a"), module: None, typ: s("CARD8") };
    assert_eq!(g.ir_field_sizeof(&no_len), unknown);
    assert_eq!(g.ir_field_sizeof(&ir::Field::Pad(3)), Expr::Value(3));
}

#[test]
fn fields_without_a_size() {
    let g = generator("xproto", vec![]);
    assert!(!g.is_sizable(&one("a", "NOTHING")));
    assert!(!g.is_sizable(&list("a", "NOTHING", 1)));
    assert!(!g.is_sizable(&list("a", "CARD16", usize::MAX)));
    assert!(!g.is_sizable(&ir::Field::Other(s("switch"))));
    assert!(g.is_sizable(&list("a", "CARD8", usize::MAX)));
    assert!(g.is_sizable(&var_list("a", "NOTHING")));
}

#[test]
fn classic_event_has_its_sequence_number_behind_the_first_field() {
    let g = generator("xproto", vec![]);
    let fields = vec![one("detail", "KEYCODE"), one("time", "TIMESTAMP"), ir::Field::Pad(1)];
    assert_eq!(
        framed(&g, fields, false, false),
        vec!["response_type:CARD8", "detail:KEYCODE", "sequence:CARD16", "time:TIMESTAMP", "pad1"]
    );
    assert_eq!(
        framed(&g, vec![one("keys", "CARD8")], false, true),
        vec!["response_type:CARD8", "keys:CARD8"]
    );
    assert_eq!(framed(&g, vec![], false, true), vec!["response_type:CARD8"]);
    assert_eq!(g.frame_fault(&vec![], false, false), Some(FrameFault::NoFields));
}

#[test]
fn extended_event_has_the_full_sequence_number_behind_32_bytes() {
    let g = generator("xinput", vec![]);
    let fields = vec![list("a", "CARD32", 5), one("b", "CARD16"), one("c", "CARD8")];
    assert_eq!(
        framed(&g, fields, true, false),
        vec![
            "response_type:CARD8",
            "extension:CARD8",
            "sequence:CARD16",
            "length:CARD32",
            "event_type:CARD16",
            "a:CARD32[]",
            "b:CARD16",
            "full_sequence:CARD32",
            "c:CARD8",
        ]
    );
}

#[test]
fn extended_event_that_does_not_end_at_32_bytes_has_no_full_sequence_number() {
    let g = generator("xinput", vec![]);
    let short = framed(&g, vec![list("a", "CARD32", 5), one("b", "CARD8")], true, false);
    assert_eq!(short.len(), 7);
    assert!(!short.contains(&s("full_sequence:CARD32")));
    let over = framed(&g, vec![list("a", "CARD32", 6), ir::Field::Pad(0)], true, false);
    assert_eq!(over.len(), 7);
    assert!(!over.contains(&s("full_sequence:CARD32")));
}

#[test]
fn full_sequence_number_comes_only_once() {
    let g = generator("xinput", vec![]);
    let fields = vec![ir::Field::Pad(22), ir::Field::Pad(0), var_list("v", "CARD8")];
    assert_eq!(
        framed(&g, fields, true, true)[5..],
        vec!["pad22", "full_sequence:CARD32", "pad0", "v:CARD8[]"]
    );
}

#[test]
fn extended_event_needs_fixed_sizes_up_to_32_bytes() {
    let g = generator("xinput", vec![]);
    let fault = |fields: Vec<ir::Field>| g.frame_fault(&fields, true, false);
    assert_eq!(fault(vec![var_list("v", "CARD8")]), Some(FrameFault::NotFixed(0)));
    assert_eq!(fault(vec![one("n", "NAMES")]), Some(FrameFault::NotFixed(0)));
    assert_eq!(fault(vec![one("n", "NOTHING")]), Some(FrameFault::NoSize(0)));
    assert_eq!(
        fault(vec![ir::Field::Pad(22), one("n", "NOTHING")]),
        Some(FrameFault::NoSize(1))
    );
    assert_eq!(
        fault(vec![ir::Field::Pad(1), var_list("v", "CARD8"), ir::Field::Other(s("switch"))]),
        Some(FrameFault::NotFixed(1))
    );
    assert_eq!(fault(vec![ir::Field::Pad(usize::MAX)]), Some(FrameFault::TooLong(0)));
    assert_eq!(fault(vec![ir::Field::Pad(22), var_list("v", "CARD8")]), None);
    assert_eq!(fault(vec![]), None);
}

#[test]
fn resolved_event_is_registered() {
    let mut g = generator("xproto", vec![]);
    let doc = Doc { lines: vec![s("/// A key is pressed.")] };
    g.resolve_event(
        s("KeyPress"),
        2,
        vec![one("detail", "KEYCODE")],
        false,
        false,
        Some(doc.clone()),
        |frame: &EventFrame| {
            assert_eq!(frame.rs_typ, "KeyPressEvent");
            assert_eq!(
                names(frame),
                vec!["response_type:CARD8", "detail:KEYCODE", "sequence:CARD16"]
            );
            ResolvedFields {
                fields: vec![
                    plain("response_type"),
                    plain("new"),
                    plain("news"),
                    Field::List {
                        name: s("new"),
                        module: None,
                        rs_typ: s("u8"),
                        len_expr: Expr::Value(1),
                        wire_sz: Expr::Value(1),
                        struct_style: Some(StructStyle::FixBuf),
                    },
                ],
                wire_sz: Expr::Value(4),
            }
        },
    );
    assert_eq!(g.events.len(), 1);
    let e = &g.events[0];
    assert_eq!(e.rs_typ, "KeyPressEvent");
    assert_eq!(e.variant, "KeyPress");
    assert_eq!(e.number, 2);
    assert_eq!(e.copy_from_rs_typ, None);
    assert_eq!(e.wire_sz, Expr::Value(4));
    assert_eq!(e.doc, Some(doc));
    assert!(!e.is_xge);
    assert_eq!(e.fields[0], plain("response_type"));
    assert_eq!(e.fields[1], plain("new_"));
    assert_eq!(e.fields[2], plain("news"));
    assert!(matches!(&e.fields[3], Field::List { name, .. } if name == "new"));
    assert_eq!(g.rs_typs_need_count.get(&s("KeyPressEvent")), Some(1));
    assert_eq!(g.rs_typs_need_count.get(&s("KeyPress")), None);
}

#[test]
fn copies_refer_to_events_of_the_module_first() {
    let dep = DepInfo { xcb_mod: s("other"), events: vec![event("Notify"), event("Extra")] };
    let mut g = generator("xproto", vec![dep]);
    g.resolve_eventcopy(s("Copied"), 7, None, s("Extra"));
    assert_eq!(g.events[0].copy_from_rs_typ, Some(s("ExtraEvent")));
    assert_eq!(g.events[0].rs_typ, "CopiedEvent");
    assert_eq!(g.events[0].number, 7);
    assert_eq!(g.events[0].fields, event("Extra").fields);
    assert_eq!(g.events[0].doc, event("Extra").doc);
    assert_eq!(g.rs_typs_need_count.get(&s("CopiedEvent")), None);

    let mut own = event("Notify");
    own.wire_sz = Expr::Value(8);
    g.events.push(own);
    g.resolve_eventcopy(s("Own"), 8, None, s("Notify"));
    assert_eq!(g.events[2].wire_sz, Expr::Value(8));
    g.resolve_eventcopy(s("Theirs"), 9, Some(s("other")), s("Notify"));
    assert_eq!(g.events[3].wire_sz, Expr::Value(32));
    g.resolve_eventcopy(s("Again"), 10, None, s("Copied"));
    assert_eq!(g.events[4].copy_from_rs_typ, Some(s("CopiedEvent")));
    assert_eq!(g.events[4].fields, event("Extra").fields);
}

#[test]
fn references_that_mean_nothing() {
    let first = DepInfo { xcb_mod: s("other"), events: vec![] };
    let second = DepInfo { xcb_mod: s("other"), events: vec![event("Notify")] };
    let g = generator("xproto", vec![first, second]);
    assert!(g.find_event(&Some(s("missing")), &s("Notify")).is_none());
    assert!(g.find_dep(&s("missing")).is_none());
    assert!(g.find_event(&Some(s("other")), &s("Notify")).is_none());
    assert!(g.find_event(&None, &s("Missing")).is_none());
    assert_eq!(g.find_event(&None, &s("Notify")).unwrap().rs_typ, "NotifyEvent");
}

#[test]
fn counted_types_stand_once() {
    let mut t = NeedCount::new();
    assert_eq!(t.get(&s("A")), None);
    t.insert(s("A"), 1);
    t.insert(s("B"), 2);
    t.insert(s("A"), 3);
    assert_eq!(t.get(&s("A")), Some(3));
    assert_eq!(t.get(&s("B")), Some(2));
    assert_eq!(t.get(&s("C")), None);
}

#[test]
fn earlier_events_and_references_stay() {
    let mut g = generator("xproto", vec![]);
    g.events.push(event("Notify"));
    let frame = g.frame_event(s("Notify"), 9, vec![], false, true, None);
    let resolved = ResolvedFields { fields: vec![plain("new_")], wire_sz: Expr::Value(1) };
    g.add_event(frame, resolved);
    assert_eq!(g.events[0], event("Notify"));
    assert_eq!(g.events[1].number, 9);
    assert_eq!(g.events[1].fields, vec![plain("new_")]);
    assert_eq!(g.find_event(&None, &s("Notify")).unwrap().number, 1);
}
