use xcb_events::constructor::{is_constructible, qualified_rs_typ};
use xcb_events::model::{CodeGen, Doc, Event, Expr, ExtInfo, Field, StructStyle, Subcode};
use xcb_events::output::{Output, Piece};

fn s(text: &str) -> String {
    text.to_string()
}

fn field(name: &str, module: Option<&str>, rs_typ: &str, sz: usize) -> Field {
    Field::Field {
        name: s(name),
        module: module.map(s),
        rs_typ: s(rs_typ),
        wire_sz: Expr::Value(sz),
        struct_style: None,
    }
}

fn list(name: &str, rs_typ: &str, len_expr: Expr, wire_sz: Expr) -> Field {
    Field::List {
        name: s(name),
        module: None,
        rs_typ: s(rs_typ),
        len_expr,
        wire_sz,
        struct_style: Some(StructStyle::WireLayout),
    }
}

fn pad(sz: usize) -> Field {
    Field::Pad { wire_sz: Expr::Value(sz) }
}

fn event(variant: &str, number: i32, is_xge: bool, fields: Vec<Field>) -> Event {
    Event {
        rs_typ: format!("{}Event", variant),
        variant: s(variant),
        number,
        fields,
        copy_from_rs_typ: None,
        wire_sz: Expr::Value(32),
        doc: None,
        is_xge,
    }
}

fn generator(xcb_mod: &str, extension: Option<&str>, events: Vec<Event>) -> CodeGen {
    let ext_info = extension.map(|x| ExtInfo { rs_name: s(x) });
    let subcodes = vec![
        Subcode { code: s("CrtcChange"), data: s("Cc") },
        Subcode { code: s("Lease"), data: s("Lc") },
    ];
    let mut g = CodeGen::new(s(xcb_mod), ext_info, vec![], vec![], subcodes);
    g.events = events;
    g
}

fn code(expr: &Expr) -> String {
    match expr {
        Expr::Value(n) => format!("{}", n),
        Expr::Unknown(why) => format!("<{}>", why),
        Expr::Formula(text) => text.clone(),
    }
}

fn render(out: &Output) -> Vec<String> {
    let mut lines = Vec::new();
    for p in &out.pieces {
        lines.push(match p {
            Piece::Line(text) => text.clone(),
            Piece::ExprLine { before, expr, after } => {
                format!("{}{}{}", before, code(expr), after)
            }
            Piece::Accessors(e) => format!("<accessors of {}: {}>", e.rs_typ, e.fields.len()),
            Piece::DebugImpl(e) => format!("<debug of {}: {}>", e.rs_typ, e.fields.len()),
        });
    }
    lines
}

fn events_code(g: &CodeGen) -> Vec<String> {
    assert_eq!(g.first_not_emittable(), None);
    let mut out = Output::new();
    g.emit_events(&mut out);
    render(&out)
}

fn constructor(g: &CodeGen, e: &Event) -> Vec<String> {
    assert!(is_constructible(e));
    let mut out = Output::new();
    g.emit_event_new(&mut out, e);
    render(&out)
}

#[test]
fn module_without_events_has_no_code() {
    assert!(events_code(&generator("xproto", None, vec![])).is_empty());
}

#[test]
fn core_protocol() {
    let mut copy = event("KeyRelease", 3, false, vec![]);
    copy.copy_from_rs_typ = Some(s("KeyPressEvent"));
    copy.doc = Some(Doc { lines: vec![s("/// A key"), s("/// is released.")] });
    let press = event(
        "KeyPress",
        2,
        false,
        vec![field("response_type", None, "u8", 1), field("detail", None, "Keycode", 1)],
    );
    let placeholder = event("GeGeneric", 35, true, vec![]);
    let g = generator("xproto", None, vec![press, copy, placeholder]);
    let expected = r#"
/// The `KeyPressEvent` event.
pub struct KeyPressEvent {
    raw: *mut xcb_generic_event_t,
}

impl base::BaseEvent for KeyPressEvent {
    const EXTENSION: std::option::Option<ext::Extension> = None;
    const NUMBER: u32 = 2;

    unsafe fn from_raw(raw: *mut xcb_generic_event_t) -> Self { KeyPressEvent { raw } }

    unsafe fn into_raw(self) -> *mut xcb_generic_event_t {
        let raw = self.raw;
        std::mem::forget(self);
        raw
    }

    fn as_raw(&self) -> *mut xcb_generic_event_t {
        self.raw
    }

    fn as_slice(&self) -> &[u8] {
        unsafe {
            std::slice::from_raw_parts(self.raw as *const u8, 32)
        }
    }
}

impl KeyPressEvent {
    pub fn new(
        detail: Keycode,
    ) -> KeyPressEvent {
        unsafe {
            let ptr = libc::malloc(32) as *mut u8;
            let wire_buf = std::slice::from_raw_parts_mut(ptr, 32);
            let mut wire_off = 0usize;
            let response_type = 2u8;
            let sequence = 0u16;

            wire_off += response_type.serialize(&mut wire_buf[wire_off ..]);
            detail.serialize(&mut wire_buf[wire_off ..]);

            KeyPressEvent::from_raw(ptr as *mut xcb_generic_event_t)
        }
    }

    fn wire_ptr(&self) -> *const u8 { self.raw as *const u8 }
<accessors of KeyPressEvent: 2>
}
<debug of KeyPressEvent: 2>

impl Drop for KeyPressEvent {
    fn drop(&mut self) {
        unsafe { libc::free(self.raw as *mut _); }
    }
}

/// A key
/// is released.
pub type KeyReleaseEvent = KeyPressEvent;

/// Unified event type for the X core protocol
#[derive(Debug)]
pub enum Event {
    KeyPress(KeyPressEvent),
    KeyRelease(KeyReleaseEvent),
}

impl base::ResolveWireEvent for Event {
    unsafe fn resolve_wire_event(first_event: u8, raw: *mut xcb_generic_event_t) -> Self {
        debug_assert!(!raw.is_null());
        let response_type = (*raw).response_type & 0x7F;
        debug_assert!(response_type != 0, "This is not an event but an error!");
        debug_assert!(response_type != XCB_GE_GENERIC, "This is a GE_GENERIC event!");
        match response_type - first_event {
            2 => Event::KeyPress(KeyPressEvent::from_raw(raw)),
            3 => Event::KeyRelease(KeyReleaseEvent::from_raw(raw)),
            _ => unreachable!(
                "Could not resolve xproto Event with response_type {} and first_event {}",
                response_type, first_event
            ),
        }
    }
}"#;
    let lines: Vec<&str> = expected.split('\n').collect();
    assert_eq!(events_code(&g), lines);
}

#[test]
fn extension_with_extended_events() {
    let motion = event("Motion", 6, true, vec![field("response_type", None, "u8", 1)]);
    let g = generator("xinput", Some("Input"), vec![motion]);
    let expected = r#"
/// The `MotionEvent` event.
pub struct MotionEvent {
    raw: *mut xcb_ge_generic_event_t,
}

impl base::GeEvent for MotionEvent {
    const EXTENSION: ext::Extension = ext::Extension::Input;

    const NUMBER: u32 = 6;

    unsafe fn from_raw(raw: *mut xcb_ge_generic_event_t) -> Self { MotionEvent { raw } }

    unsafe fn into_raw(self) -> *mut xcb_ge_generic_event_t {
        let raw = self.raw;
        std::mem::forget(self);
        raw
    }

    fn as_raw(&self) -> *mut xcb_ge_generic_event_t {
        self.raw
    }

    fn as_slice(&self) -> &[u8] {
        unsafe {
            std::slice::from_raw_parts(self.raw as *const u8, self.length() as usize)
        }
    }
}

impl MotionEvent {
    fn wire_ptr(&self) -> *const u8 { self.raw as *const u8 }
<accessors of MotionEvent: 1>
}
<debug of MotionEvent: 1>

impl Drop for MotionEvent {
    fn drop(&mut self) {
        unsafe { libc::free(self.raw as *mut _); }
    }
}

/// Unified event type for the Input extension
#[derive(Debug)]
pub enum Event {
    Motion(MotionEvent),
}
impl base::ResolveWireGeEvent for Event {
    unsafe fn resolve_wire_ge_event(raw: *mut xcb_ge_generic_event_t) -> Self{
        debug_assert!(!raw.is_null());
        debug_assert!(((*raw).response_type & 0x7F) == XCB_GE_GENERIC);
        let event_type = (*raw).event_type;
        match event_type {
            6 => Event::Motion(MotionEvent::from_raw(raw)),
            _ => panic!("Could not resolve GE event for xinput: {}", event_type),
        }
    }
}"#;
    let lines: Vec<&str> = expected.split('\n').collect();
    assert_eq!(events_code(&g), lines);
}

#[test]
fn both_kinds_of_events_in_one_module() {
    let classic = event("Bell", 0, false, vec![field("response_type", None, "u8", 1)]);
    let extended = event("Motion", 6, true, vec![]);
    let g = generator("xinput", Some("Input"), vec![extended, classic]);
    let lines = events_code(&g);
    let count = |text: &str| lines.iter().filter(|l| l.as_str() == text).count();
    assert_eq!(count("    Motion(MotionEvent),"), 1);
    assert_eq!(count("    Bell(BellEvent),"), 1);
    assert_eq!(count("            6 => Event::Motion(MotionEvent::from_raw(raw)),"), 1);
    assert_eq!(count("            0 => Event::Bell(BellEvent::from_raw(raw)),"), 1);
    assert_eq!(
        count("    const EXTENSION: std::option::Option<ext::Extension> = Some(ext::Extension::Input);"),
        1
    );
    assert_eq!(count("impl base::ResolveWireEvent for Event {"), 1);
    assert_eq!(count("impl base::ResolveWireGeEvent for Event {"), 1);
}

#[test]
fn xkb_events_are_told_apart_by_their_second_byte() {
    let e = event("BellNotify", 8, false, vec![field("response_type", None, "u8", 1)]);
    let g = generator("xkb", Some("Xkb"), vec![e]);
    let mut out = Output::new();
    g.emit_resolve_wire_event(&mut out);
    let lines = render(&out);
    assert_eq!(
        lines[7..13],
        vec![
            "        assert_eq!(response_type, first_event, \"This is not an Xkb event\");",
            "        let ptr = raw as *const u8;",
            "        let xkb_type = *(ptr.add(1));",
            "        match xkb_type {",
            "            8 => Event::BellNotify(BellNotifyEvent::from_raw(raw)),",
            "            _ => unreachable!(",
        ]
    );
}

#[test]
fn constructor_of_an_extension_event() {
    let mut e = event(
        "Selection",
        4,
        false,
        vec![
            field("response_type", None, "u8", 1),
            field("on", None, "bool", 1),
            field("sequence", None, "u16", 2),
            field("owner", Some("xproto"), "Window", 4),
            list("data", "u32", Expr::Value(5), Expr::Value(20)),
            list("rest", "u8", Expr::Formula(s("(n as usize)")), Expr::Formula(s("n * 1"))),
            pad(1),
            field("last", None, "u8", 1),
            pad(2),
        ],
    );
    e.wire_sz = Expr::Value(12);
    let g = generator("xfixes", Some("XFixes"), vec![]);
    let expected = r#"    pub fn new(event_base: u8,
        on: bool,
        owner: xproto::Window,
        data: [u32; 5],
        rest: &[u8],
        last: u8,
    ) -> SelectionEvent {
        unsafe {
            let ptr = libc::malloc(32) as *mut u8;
            let wire_buf = std::slice::from_raw_parts_mut(ptr, 32);
            let mut wire_off = 0usize;
            let response_type = 4u8 + event_base;
            let sequence = 0u16;

            wire_off += response_type.serialize(&mut wire_buf[wire_off ..]);
            let on: u8 = if on { 1 } else { 0 };
            wire_off += on.serialize(&mut wire_buf[wire_off ..]);
            wire_off += sequence.serialize(&mut wire_buf[wire_off ..]);
            wire_off += owner.serialize(&mut wire_buf[wire_off ..]);
            std::slice::from_raw_parts_mut(ptr.add(wire_off) as *mut u32, 5)
                .copy_from_slice(&data);
            wire_off += 20;
            std::slice::from_raw_parts_mut(ptr.add(wire_off) as *mut u8, (n as usize))
                .copy_from_slice(&rest);
            wire_off += n * 1;
            last.serialize(&mut wire_buf[wire_off ..]);

            SelectionEvent::from_raw(ptr as *mut xcb_generic_event_t)
        }
    }"#;
    let lines: Vec<&str> = expected.split('\n').collect();
    assert_eq!(constructor(&g, &e), lines);
}

#[test]
fn trailing_pad_does_not_change_the_constructor() {
    let g = generator("xfixes", Some("XFixes"), vec![]);
    let fields = vec![
        field("response_type", None, "u8", 1),
        list("data", "u8", Expr::Value(3), Expr::Value(3)),
    ];
    let mut padded = fields.clone();
    padded.push(pad(28));
    let e = event("A", 0, false, fields);
    let p = event("A", 0, false, padded);
    assert_eq!(constructor(&g, &e), constructor(&g, &p));
    assert!(!constructor(&g, &e).contains(&s("            wire_off += 3;")));
}

#[test]
fn response_type_of_the_first_event_is_the_base() {
    let g = generator("shape", Some("Shape"), vec![]);
    let e = event("Notify", 0, false, vec![field("kind", None, "Kind", 1)]);
    assert!(constructor(&g, &e).contains(&s("            let response_type = event_base;")));
    let core = generator("xproto", None, vec![]);
    assert!(constructor(&core, &e).contains(&s("            let response_type = 0u8;")));
}

#[test]
fn format_of_a_client_message_follows_from_its_data() {
    let g = generator("xproto", None, vec![]);
    let e = event(
        "ClientMessage",
        33,
        false,
        vec![
            field("response_type", None, "u8", 1),
            field("format", None, "u8", 1),
            field("data", None, "ClientMessageData", 20),
        ],
    );
    let lines = constructor(&g, &e);
    assert_eq!(lines[1], "        data: ClientMessageData,");
    assert_eq!(
        lines[9..15],
        vec![
            "            let format: u8 = match data {",
            "                ClientMessageData::Data8{..} => 8,",
            "                ClientMessageData::Data16{..} => 16,",
            "                ClientMessageData::Data32{..} => 32,",
            "            };",
            "",
        ]
    );
}

#[test]
fn sub_code_of_a_randr_notification_follows_from_its_data() {
    let e = event(
        "Notify",
        1,
        false,
        vec![
            field("response_type", None, "u8", 1),
            field("sub_code", None, "Notify", 1),
            field("u", None, "NotifyData", 28),
        ],
    );
    let lines = constructor(&generator("randr", Some("RandR"), vec![]), &e);
    assert_eq!(
        lines[9..14],
        vec![
            "            let sub_code: u8 = match u {",
            "                NotifyData::Cc{..} => std::mem::transmute::<_, u32>(Notify::CrtcChange) as _,",
            "                NotifyData::Lc{..} => std::mem::transmute::<_, u32>(Notify::Lease) as _,",
            "            };",
            "",
        ]
    );
    let elsewhere = constructor(&generator("shape", Some("Shape"), vec![]), &e);
    assert!(!elsewhere.contains(&s("            let sub_code: u8 = match u {")));
}

#[test]
fn bool_of_unknown_size_is_written_as_it_is() {
    let g = generator("shape", Some("Shape"), vec![]);
    let f = Field::Field {
        name: s("on"),
        module: None,
        rs_typ: s("bool"),
        wire_sz: Expr::Formula(s("n")),
        struct_style: Some(StructStyle::FixBuf),
    };
    let lines = constructor(&g, &event("Notify", 0, false, vec![f]));
    assert_eq!(lines[10], "            on.serialize(&mut wire_buf[wire_off ..]);");
    let four = field("on", None, "bool", 4);
    let lines = constructor(&g, &event("Notify", 0, false, vec![four]));
    assert_eq!(lines[10], "            let on: u32 = if on { 1 } else { 0 };");
}

#[test]
fn events_that_cannot_be_constructed() {
    let with_fields = |fields: Vec<Field>| event("A", 0, false, fields);
    assert!(is_constructible(&with_fields(vec![field("a", None, "u8", 1)])));
    let mut long = with_fields(vec![field("a", None, "u8", 1)]);
    long.wire_sz = Expr::Value(33);
    assert!(!is_constructible(&long));
    long.wire_sz = Expr::Unknown(s("variable list"));
    assert!(!is_constructible(&long));
    assert!(!is_constructible(&with_fields(vec![])));
    assert!(!is_constructible(&with_fields(vec![pad(1)])));
    assert!(is_constructible(&with_fields(vec![pad(1), pad(1)])));
    assert!(!is_constructible(&with_fields(vec![Field::Other { name: s("switch") }])));
    let style = Field::Field {
        name: s("a"),
        module: None,
        rs_typ: s("A"),
        wire_sz: Expr::Value(1),
        struct_style: Some(StructStyle::Other),
    };
    assert!(!is_constructible(&with_fields(vec![style])));
}

#[test]
fn events_that_code_cannot_be_generated_for() {
    let fault = |g: CodeGen| g.first_not_emittable();
    let extended = event("Motion", 6, true, vec![]);
    assert_eq!(fault(generator("xinput", None, vec![extended])), Some(0));
    let extended = event("Motion", 6, true, vec![]);
    assert_eq!(fault(generator("xproto", None, vec![extended])), None);
    let mut copy = event("Copy", 6, true, vec![]);
    copy.copy_from_rs_typ = Some(s("MotionEvent"));
    let classic = event("Bell", 0, false, vec![]);
    let g = generator("xinput", None, vec![copy, classic]);
    assert_eq!(g.first_not_emittable(), Some(1));
    let mut out = Output::new();
    g.emit_first_events(1, &mut out);
    assert_eq!(
        render(&out),
        vec!["", "/// The `CopyEvent` event.", "pub type CopyEvent = MotionEvent;"]
    );
}

#[test]
fn placeholders_add_no_code() {
    let bell = || event("Bell", 0, false, vec![field("response_type", None, "u8", 1)]);
    let generic = || event("GeGeneric", 35, true, vec![]);
    let without = events_code(&generator("xproto", None, vec![bell()]));
    let around = generator("xproto", None, vec![generic(), bell(), generic()]);
    assert_eq!(events_code(&around), without);
}

#[test]
fn types_are_qualified_by_their_module() {
    assert_eq!(qualified_rs_typ(&Some(s("xproto")), &s("Window")), "xproto::Window");
    assert_eq!(qualified_rs_typ(&None, &s("Window")), "Window");
}

#[test]
fn different_numbers_have_different_arms() {
    let events = vec![
        event("A", 1, false, vec![]),
        event("A", 11, false, vec![]),
        event("A", -1, false, vec![]),
    ];
    let g = generator("shape", Some("Shape"), events);
    let mut out = Output::new();
    g.emit_resolve_wire_event(&mut out);
    assert_eq!(
        render(&out)[8..11],
        vec![
            "            1 => Event::A(AEvent::from_raw(raw)),",
            "            11 => Event::A(AEvent::from_raw(raw)),",
            "            -1 => Event::A(AEvent::from_raw(raw)),",
        ]
    );
}
