use mock_derive::extract::parse_impl;
use mock_derive::mock;
use mock_derive::reading::read_declaration;
use mock_derive::runtime::MockContainer;
use std::cell::Cell;

pub struct Foo {
    x: i32,
    y: i32,
    said: Cell<u32>,
}

impl Foo {
    pub fn new() -> Foo {
        Foo { x: 32, y: 32, said: Cell::new(0) }
    }
}

trait HelloWorld {
    fn hello_world(&self);
}

impl HelloWorld for Foo {
    fn hello_world(&self) {
        println!("Hello World!");
        self.said.set(self.said.get() + 1);
    }
}

const HELLO_WORLD_IMPL: &str =
    "impl HelloWorld for Foo { fn hello_world(&self) { println!(\"Hello World!\"); } }";

#[test]
fn it_works() {
    let generated = mock("", HELLO_WORLD_IMPL).unwrap();
    assert!(generated.contains("pub fn new() -> MockContainer<T>"));
    assert!(generated.contains("pub fn set_fallback(&mut self, delegate: T)"));
    assert!(generated.contains("pub fn accessor_hello_world (&mut self) -> Builder< ( ) >"));
    assert!(generated.contains("pub fn first_call(self) -> Self"));
    assert!(generated.contains("pub fn when(mut self, predicate: fn() -> bool) -> Self"));
    assert!(generated.contains("pub fn set_result(mut self, value: R) -> Self"));
    assert!(generated.contains("impl<T: HelloWorld > HelloWorld for MockContainer<T> { fn hello_world (&self, ) -> ( ) {"));

    let declaration = read_declaration(HELLO_WORLD_IMPL).unwrap();
    let methods = parse_impl(&declaration).unwrap();
    assert_eq!(methods.len(), 1);
    assert_eq!(methods[0].name, "hello_world");

    let foo = Foo::new();
    let mut mock = MockContainer::new(&methods);
    mock.set_fallback(foo);
    mock.accessor(0)
        .first_call()
        .when(|| true)
        .set_result(());

    let first = mock.dispatch(0, |foo: &Foo| foo.hello_world());
    assert_eq!(first, Ok(()));
    assert_eq!(mock.calls(0), 1);
}

#[test]
fn hello_world_stub_keeps_the_fallback_silent() {
    let methods = parse_impl(&read_declaration(HELLO_WORLD_IMPL).unwrap()).unwrap();
    let said = Cell::new(0u32);
    let mut mock = MockContainer::new(&methods);
    mock.set_fallback(Foo::new());
    mock.accessor(0).first_call().when(|| true).set_result(());
    let observe = |foo: &Foo| {
        foo.hello_world();
        said.set(foo.said.get());
        assert_eq!(foo.x + foo.y, 64);
    };
    assert_eq!(mock.dispatch(0, observe), Ok(()));
    assert_eq!(said.get(), 0);
    assert_eq!(mock.dispatch(0, observe), Ok(()));
    assert_eq!(said.get(), 1);
}

#[test]
fn hello_world_mock_text_names_the_accessor_and_the_capability() {
    let text = mock("", HELLO_WORLD_IMPL).unwrap();
    assert!(text.contains("pub fn accessor_hello_world (&mut self) -> Builder< ( ) >"));
    assert!(text.contains("impl<T: HelloWorld > HelloWorld for MockContainer<T> {"));
    assert!(text.contains("struct MockContainer<T = Foo > { fallback: Option<T>, state_hello_world : std::cell::RefCell<CallState< ( ) >>, }"));
    assert!(text.contains("Some(ref delegate) => delegate. hello_world ( ),"));
    assert!(text.contains("\"hello_world\" , index)"));
}

#[test]
fn hello_world_attribute_arguments_do_not_matter() {
    assert_eq!(mock("", HELLO_WORLD_IMPL), mock("anything, at = all", HELLO_WORLD_IMPL));
}
