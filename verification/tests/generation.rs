use mock_derive::extract::{describe_method, parse_impl};
use mock_derive::mock;
use mock_derive::model::{
    Declaration, Member, Method, MethodDescriptor, MockError, Param, Receiver,
};
use mock_derive::reading::{holds_unreadable_byte_literal, read_declaration};
use mock_derive::synth::{generate, synthesize, synthesize_pieces, STUB_ENTRY};
use mock_derive::text::{concat_idents, decimal_text, join, quote_name};

fn text(s: &str) -> String {
    s.to_string()
}

fn method(name: &str, inputs: Vec<Param>, output: Option<&str>) -> Method {
    Method { name: text(name), inputs, output: output.map(text) }
}

fn block(capability: Option<&str>, target: &str, members: Vec<Member>) -> Declaration {
    Declaration::Impl { capability: capability.map(text), target: text(target), members }
}

fn descriptor(name: &str, params: Vec<&str>, return_type: &str) -> MethodDescriptor {
    MethodDescriptor {
        name: text(name),
        receiver: Receiver::Ref,
        params: params.into_iter().map(text).collect(),
        return_type: text(return_type),
    }
}

#[test]
fn extraction_keeps_declaration_order_and_plain_parameters() {
    let item = block(
        Some("Shape"),
        "Circle",
        vec![
            Member::Method(method("area", vec![Param::Receiver(Receiver::Ref)], Some("f64"))),
            Member::Other,
            Member::Method(method(
                "scale",
                vec![Param::Receiver(Receiver::Ref), Param::Plain(text("u32")), Param::Plain(text("& str"))],
                None,
            )),
        ],
    );
    assert_eq!(
        parse_impl(&item),
        Ok(vec![
            descriptor("area", vec![], "f64"),
            descriptor("scale", vec!["u32", "& str"], "( )"),
        ])
    );
}

#[test]
fn extraction_of_an_empty_block_is_empty() {
    assert_eq!(parse_impl(&block(Some("Shape"), "Circle", vec![])), Ok(vec![]));
    assert_eq!(parse_impl(&block(Some("Shape"), "Circle", vec![Member::Other])), Ok(vec![]));
}

#[test]
fn extraction_without_return_type_gives_unit() {
    let described =
        describe_method(&method("greet", vec![Param::Receiver(Receiver::Ref)], None)).unwrap();
    assert_eq!(described, descriptor("greet", vec![], "( )"));
}

#[test]
fn extraction_passes_over_receivers_and_bare_types() {
    let described = describe_method(&method(
        "f",
        vec![Param::Receiver(Receiver::Ref), Param::Bare(text("u8")), Param::Plain(text("u16"))],
        Some("bool"),
    ));
    assert_eq!(described, Ok(descriptor("f", vec!["u16"], "bool")));
}

#[test]
fn extraction_rejects_what_is_not_an_impl() {
    assert_eq!(parse_impl(&Declaration::Other), Err(MockError::NotAnImpl));
}

#[test]
fn extraction_rejects_an_impl_without_capability() {
    let item = block(None, "Circle", vec![Member::Method(method("area", vec![], None))]);
    assert_eq!(parse_impl(&item), Err(MockError::MissingCapability));
}

#[test]
fn extraction_rejects_the_first_pattern_parameter() {
    let item = block(
        Some("Shape"),
        "Circle",
        vec![
            Member::Method(method(
                "fine",
                vec![Param::Receiver(Receiver::Ref), Param::Plain(text("u8"))],
                None,
            )),
            Member::Method(method(
                "bad",
                vec![
                    Param::Receiver(Receiver::Ref),
                    Param::Plain(text("u8")),
                    Param::Pattern(text("( u8 , u8 )")),
                    Param::Pattern(text("Point")),
                ],
                None,
            )),
            Member::Method(method(
                "worse",
                vec![Param::Receiver(Receiver::Ref), Param::Pattern(text("u8"))],
                None,
            )),
        ],
    );
    assert_eq!(
        parse_impl(&item),
        Err(MockError::UnsupportedParameter { method: text("bad"), position: 2 })
    );
}

#[test]
fn reading_classifies_parameters() {
    let declaration = read_declaration(
        "impl Shape for Circle { const N: u8 = 1; fn f(&mut self, a: u8, mut b: Vec<u8>, (c, d): (u8, u16), _: bool, e @ 1: i64) -> Option<u8> { None } fn g(self) {} }",
    );
    assert_eq!(
        declaration,
        Ok(block(
            Some("Shape"),
            "Circle",
            vec![
                Member::Other,
                Member::Method(method(
                    "f",
                    vec![
                        Param::Receiver(Receiver::RefMut),
                        Param::Plain(text("u8")),
                        Param::Plain(text("Vec < u8 >")),
                        Param::Pattern(text("( u8 , u16 )")),
                        Param::Pattern(text("bool")),
                        Param::Pattern(text("i64")),
                    ],
                    Some("Option < u8 >"),
                )),
                Member::Method(method("g", vec![Param::Receiver(Receiver::Value)], None)),
            ],
        ))
    );
}

#[test]
fn reading_renders_the_capability_path_and_the_target_type() {
    let declaration = read_declaration("impl<'a> codec::Decode<u8> for &'a [u8] {}");
    assert_eq!(
        declaration,
        Ok(block(Some("codec :: Decode < u8 >"), "& 'a [ u8 ]", vec![]))
    );
}

#[test]
fn reading_an_inherent_impl_has_no_capability() {
    assert_eq!(read_declaration("impl Circle { fn area(&self) {} }").map(|d| parse_impl(&d)),
        Ok(Err(MockError::MissingCapability)));
}

#[test]
fn reading_other_items_gives_other() {
    assert_eq!(read_declaration("fn free(x: u8) -> u8 { x }"), Ok(Declaration::Other));
    assert_eq!(read_declaration("trait Shape { fn area(&self) -> f64; }"), Ok(Declaration::Other));
    assert_eq!(read_declaration("struct Circle { r: u32 }"), Ok(Declaration::Other));
}

#[test]
fn reading_reports_what_does_not_parse() {
    assert!(matches!(read_declaration("impl Shape for"), Err(MockError::Parse(_))));
    assert!(matches!(read_declaration(""), Err(MockError::Parse(_))));
    assert!(matches!(read_declaration("fn a() {} fn b() {}"), Err(MockError::Parse(_))));
}

#[test]
fn names_are_joined_without_a_gap() {
    assert_eq!(concat_idents("method_", "hello_world"), "method_hello_world");
    assert_eq!(concat_idents("", "x"), "x");
    assert_eq!(concat_idents("x", ""), "x");
}

#[test]
fn names_are_quoted() {
    assert_eq!(quote_name("greet"), "\"greet\"");
    assert_eq!(quote_name(""), "\"\"");
}

#[test]
fn decimal_numerals() {
    assert_eq!(decimal_text(0), "0");
    assert_eq!(decimal_text(7), "7");
    assert_eq!(decimal_text(10), "10");
    assert_eq!(decimal_text(109), "109");
    assert_eq!(decimal_text(1234567890), "1234567890");
}

#[test]
fn pieces_are_joined_with_single_spaces() {
    assert_eq!(join(&vec![]), "");
    assert_eq!(join(&vec![text("a")]), "a");
    assert_eq!(join(&vec![text("a"), text("b c"), text("d")]), "a b c d");
    assert_eq!(join(&vec![text(""), text("a"), text(""), text("b"), text("")]), "a b");
}

#[test]
fn synthesis_forwards_every_parameter() {
    let methods = vec![descriptor(
        "mix",
        vec!["u8", "u16", "u32", "u64", "& str", "bool", "i8", "i16", "i32", "i64", "char"],
        "String",
    )];
    let generated = synthesize("Blender", "Mixer", &methods);
    assert!(generated.contains(
        "fn mix (&self, arg0 : u8 , arg1 : u16 , arg2 : u32 , arg3 : u64 , arg4 : & str , arg5 : bool , arg6 : i8 , arg7 : i16 , arg8 : i32 , arg9 : i64 , arg10 : char , ) -> String {"
    ));
    assert!(generated.contains(
        "delegate. mix ( arg0 , arg1 , arg2 , arg3 , arg4 , arg5 , arg6 , arg7 , arg8 , arg9 , arg10 , ),"
    ));
}

#[test]
fn synthesis_gives_each_method_its_own_state_and_accessor() {
    let methods = vec![descriptor("first", vec![], "u8"), descriptor("second", vec![], "u8")];
    let generated = synthesize("Target", "Pair", &methods);
    assert!(generated.contains("state_first : std::cell::RefCell<CallState< u8 >>, state_second : std::cell::RefCell<CallState< u8 >>, }"));
    assert!(generated.contains("pub fn accessor_first (&mut self) -> Builder< u8 > { Builder { state: &self. state_first , target: 1, predicate: None } }"));
    assert!(generated.contains("pub fn accessor_second (&mut self) -> Builder< u8 > { Builder { state: &self. state_second , target: 1, predicate: None } }"));
    assert!(generated.contains("{ let (index, stub) = self. state_second .borrow_mut().dispatch();"));
}

#[test]
fn synthesis_without_methods_still_defines_the_container() {
    let pieces = synthesize_pieces("Target", "Nothing", &vec![]);
    assert_eq!(pieces.len(), 19);
    assert_eq!(pieces[0], STUB_ENTRY);
    assert_eq!(pieces[6], "Target");
    let generated = synthesize("Target", "Nothing", &vec![]);
    assert_eq!(generated, join(&pieces));
    assert!(generated.ends_with(
        "struct MockContainer<T = Target > { fallback: Option<T>, } impl<T> MockContainer<T> { pub fn new() -> MockContainer<T> { MockContainer { fallback: None, } } pub fn set_fallback(&mut self, delegate: T) { self.fallback = Some(delegate); } } impl<T: Nothing > Nothing for MockContainer<T> { }"
    ));
}

#[test]
fn synthesized_text_parses_as_eight_items() {
    let methods = vec![
        descriptor("area", vec![], "f64"),
        descriptor("scale", vec!["u32", "& 'static str", "Vec < Option < u8 > >"], "bool"),
    ];
    let generated = synthesize("Circle", "Shape", &methods);
    let items = syn::parse_items(&generated).unwrap();
    assert_eq!(items.len(), 8);
}

#[test]
fn synthesized_dispatch_has_the_methods_it_was_made_for() {
    let methods = vec![
        descriptor("area", vec![], "f64"),
        descriptor("scale", vec!["u32", "& 'static str", "Vec < Option < u8 > >"], "bool"),
    ];
    let generated = synthesize("Circle", "Shape", &methods);
    let dispatch = &generated[generated.rfind("impl<T:").unwrap()..];
    assert_eq!(read_declaration(dispatch).map(|d| parse_impl(&d)), Ok(Ok(methods)));
}

#[test]
fn generation_fails_as_extraction_does() {
    assert_eq!(generate(&Declaration::Other), Err(MockError::NotAnImpl));
    assert_eq!(generate(&block(None, "T", vec![])), Err(MockError::MissingCapability));
    assert_eq!(
        generate(&block(
            Some("C"),
            "T",
            vec![Member::Method(method(
                "m",
                vec![Param::Receiver(Receiver::Ref), Param::Pattern(text("u8"))],
                None
            ))]
        )),
        Err(MockError::UnsupportedParameter { method: text("m"), position: 1 })
    );
}

#[test]
fn generation_is_synthesis_of_the_extracted_descriptors() {
    let item = block(
        Some("Shape"),
        "Circle",
        vec![Member::Method(method("area", vec![Param::Receiver(Receiver::Ref)], Some("f64")))],
    );
    assert_eq!(
        generate(&item),
        Ok(synthesize("Circle", "Shape", &vec![descriptor("area", vec![], "f64")]))
    );
}

#[test]
fn mock_reports_each_failure() {
    assert!(matches!(mock("", "impl Shape for {"), Err(MockError::Parse(_))));
    assert_eq!(mock("", "fn free() {}"), Err(MockError::NotAnImpl));
    assert_eq!(mock("", "trait Shape { fn area(&self); }"), Err(MockError::NotAnImpl));
    assert_eq!(mock("", "impl Circle { fn area(&self) {} }"), Err(MockError::MissingCapability));
    assert_eq!(
        mock("", "impl Shape for Circle { fn ok(&self, a: u8) {} fn at(&self, a: u8, Point { x, y }: Point) {} }"),
        Err(MockError::UnsupportedParameter { method: text("at"), position: 2 })
    );
}

#[test]
fn extraction_rejects_a_method_without_receiver() {
    assert_eq!(
        describe_method(&method("make", vec![], Some("Self"))),
        Err(MockError::MissingReceiver { method: text("make") })
    );
    assert_eq!(
        describe_method(&method("make", vec![Param::Plain(text("u8"))], None)),
        Err(MockError::MissingReceiver { method: text("make") })
    );
    assert_eq!(
        describe_method(&method(
            "make",
            vec![Param::Pattern(text("u8")), Param::Receiver(Receiver::Ref)],
            None
        )),
        Err(MockError::MissingReceiver { method: text("make") })
    );
    assert_eq!(
        mock("", "impl Shape for Circle { fn area(&self) {} fn unit() -> Circle { Circle } }"),
        Err(MockError::MissingReceiver { method: text("unit") })
    );
}

#[test]
fn extraction_keeps_the_receiver_kind() {
    let kinds = vec![Receiver::Ref, Receiver::RefMut, Receiver::Value];
    for kind in kinds {
        let described = describe_method(&method("m", vec![Param::Receiver(kind)], None)).unwrap();
        assert_eq!(described.receiver, kind);
    }
    let read = read_declaration(
        "impl Meter for Odometer { fn a(&self) {} fn b(&mut self) {} fn c(self) {} fn d(&'static self) {} fn e(mut self) {} }",
    )
    .unwrap();
    let receivers: Vec<Receiver> =
        parse_impl(&read).unwrap().iter().map(|described| described.receiver).collect();
    assert_eq!(
        receivers,
        vec![Receiver::Ref, Receiver::RefMut, Receiver::Value, Receiver::Ref, Receiver::Value]
    );
}

#[test]
fn synthesis_follows_the_receiver() {
    let mut shared = descriptor("m", vec!["u8"], "u8");
    let generated = synthesize("T", "C", &vec![shared.clone()]);
    assert!(generated.contains("fn m (&self, arg0 : u8 , ) -> u8 {"));
    assert!(generated.contains("match self.fallback { Some(ref delegate) => delegate. m ( arg0 , ),"));
    shared.receiver = Receiver::RefMut;
    let generated = synthesize("T", "C", &vec![shared.clone()]);
    assert!(generated.contains("fn m (&mut self, arg0 : u8 , ) -> u8 {"));
    assert!(generated
        .contains("match self.fallback { Some(ref mut delegate) => delegate. m ( arg0 , ),"));
    shared.receiver = Receiver::Value;
    let generated = synthesize("T", "C", &vec![shared]);
    assert!(generated.contains("fn m (self, arg0 : u8 , ) -> u8 {"));
    assert!(generated.contains("match self.fallback { Some(delegate) => delegate. m ( arg0 , ),"));
}

#[test]
fn unit_return_reads_the_same_with_and_without_annotation() {
    let bare = read_declaration("impl C for T { fn m(&self) {} }").unwrap();
    let annotated = read_declaration("impl C for T { fn m(&self) -> () {} }").unwrap();
    assert_eq!(parse_impl(&bare), parse_impl(&annotated));
    assert_eq!(parse_impl(&bare).unwrap()[0].return_type, "( )");
    assert_eq!(
        mock("", "impl C for T { fn m(&self) {} }"),
        mock("", "impl C for T { fn m(&self) -> () {} }")
    );
}

#[test]
fn reading_turns_down_a_byte_literal_outside_ascii() {
    let expected = Err(MockError::Parse(text(
        "failed to parse item: a byte literal holds a character outside ASCII",
    )));
    assert_eq!(read_declaration("const X: u8 = b'\u{e9}';"), expected);
    assert_eq!(
        read_declaration("impl A for B { fn f(&self) -> u8 { b'\u{e9}' } }"),
        expected
    );
    assert_eq!(
        mock("", "impl A for B { fn f(&self) -> u8 { b'\u{4e2d}' } }"),
        Err(MockError::Parse(text(
            "failed to parse item: a byte literal holds a character outside ASCII",
        )))
    );
    assert!(holds_unreadable_byte_literal("b'\u{e9}'".as_bytes()));
    assert!(holds_unreadable_byte_literal("xx b'\u{1F600}".as_bytes()));
    assert!(!holds_unreadable_byte_literal("b'a' b\"\u{e9}\" 'b' '\u{e9}' b '\u{e9}'".as_bytes()));
    assert!(!holds_unreadable_byte_literal("b'".as_bytes()));
    assert!(!holds_unreadable_byte_literal("".as_bytes()));
}

#[test]
fn reading_still_takes_byte_literals_in_ascii() {
    let read = read_declaration("impl A for B { fn f(&self) -> u8 { b'a' + b'\\n' + b'\\x7f' } }");
    assert!(read.is_ok());
    let with_text = read_declaration("impl A for B { fn f(&self) -> char { '\u{e9}' } }");
    assert!(with_text.is_ok());
}
