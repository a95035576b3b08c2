use mock_derive::mock;

trait Meter {
    fn bump(&mut self, by: u32) -> u32;
    fn reading(&self) -> u32;
    fn finish(self) -> u32;
}

struct Odometer {
    total: u32,
}

impl Meter for Odometer {
    fn bump(&mut self, by: u32) -> u32 {
        self.total += by;
        self.total
    }

    fn reading(&self) -> u32 {
        self.total
    }

    fn finish(self) -> u32 {
        self.total
    }
}

const SOURCE: &str = "impl Meter for Odometer { fn bump(&mut self, by: u32) -> u32 { self.total += by; self.total } fn reading(&self) -> u32 { self.total } fn finish(self) -> u32 { self.total } }";

const GENERATED: &str = "struct StubEntry<R> { predicate: Option<fn() -> bool>, value: R } struct CallState<R> { counter: usize, stubs: std::collections::HashMap<usize, StubEntry<R>> } impl<R> CallState<R> { fn new() -> CallState<R> { CallState { counter: 0, stubs: std::collections::HashMap::new() } } fn dispatch(&mut self) -> (usize, Option<R>) { self.counter += 1; let index = self.counter; let stub = match self.stubs.remove(&index) { Some(entry) => match entry.predicate { Some(probe) => if probe() { Some(entry.value) } else { None }, None => Some(entry.value), }, None => None, }; (index, stub) } } struct Builder<'a, R: 'a> { state: &'a std::cell::RefCell<CallState<R>>, target: usize, predicate: Option<fn() -> bool> } impl<'a, R: 'a> Builder<'a, R> { pub fn first_call(self) -> Self { self.nth_call(1) } pub fn second_call(self) -> Self { self.nth_call(2) } pub fn nth_call(mut self, n: usize) -> Self { assert!(n >= 1, \"a call index starts at 1\"); self.target = n; self } pub fn when(mut self, predicate: fn() -> bool) -> Self { self.predicate = Some(predicate); self } pub fn set_result(mut self, value: R) -> Self { let predicate = self.predicate.take(); self.state.borrow_mut().stubs.insert(self.target, StubEntry { predicate: predicate, value: value }); self } } struct MockContainer<T = Odometer > { fallback: Option<T>, state_bump : std::cell::RefCell<CallState< u32 >>, state_reading : std::cell::RefCell<CallState< u32 >>, state_finish : std::cell::RefCell<CallState< u32 >>, } impl<T> MockContainer<T> { pub fn new() -> MockContainer<T> { MockContainer { fallback: None, state_bump : std::cell::RefCell::new(CallState::new()), state_reading : std::cell::RefCell::new(CallState::new()), state_finish : std::cell::RefCell::new(CallState::new()), } } pub fn set_fallback(&mut self, delegate: T) { self.fallback = Some(delegate); } pub fn accessor_bump (&mut self) -> Builder< u32 > { Builder { state: &self. state_bump , target: 1, predicate: None } } pub fn accessor_reading (&mut self) -> Builder< u32 > { Builder { state: &self. state_reading , target: 1, predicate: None } } pub fn accessor_finish (&mut self) -> Builder< u32 > { Builder { state: &self. state_finish , target: 1, predicate: None } } } impl<T: Meter > Meter for MockContainer<T> { fn bump (&mut self, arg0 : u32 , ) -> u32 { let (index, stub) = self. state_bump .borrow_mut().dispatch(); match stub { Some(value) => value, None => match self.fallback { Some(ref mut delegate) => delegate. bump ( arg0 , ), None => panic!(\"unmocked call: method {}, call {}\", \"bump\" , index), }, } } fn reading (&self, ) -> u32 { let (index, stub) = self. state_reading .borrow_mut().dispatch(); match stub { Some(value) => value, None => match self.fallback { Some(ref delegate) => delegate. reading ( ), None => panic!(\"unmocked call: method {}, call {}\", \"reading\" , index), }, } } fn finish (self, ) -> u32 { let (index, stub) = self. state_finish .borrow_mut().dispatch(); match stub { Some(value) => value, None => match self.fallback { Some(delegate) => delegate. finish ( ), None => panic!(\"unmocked call: method {}, call {}\", \"finish\" , index), }, } } }";

// The text of GENERATED, as code.

struct StubEntry<R> { predicate: Option<fn() -> bool>, value: R }

struct CallState<R> { counter: usize, stubs: std::collections::HashMap<usize, StubEntry<R>> }

impl<R> CallState<R> { fn new() -> CallState<R> { CallState { counter: 0, stubs: std::collections::HashMap::new() } } fn dispatch(&mut self) -> (usize, Option<R>) { self.counter += 1; let index = self.counter; let stub = match self.stubs.remove(&index) { Some(entry) => match entry.predicate { Some(probe) => if probe() { Some(entry.value) } else { None }, None => Some(entry.value), }, None => None, }; (index, stub) } }

struct Builder<'a, R: 'a> { state: &'a std::cell::RefCell<CallState<R>>, target: usize, predicate: Option<fn() -> bool> }

impl<'a, R: 'a> Builder<'a, R> { pub fn first_call(self) -> Self { self.nth_call(1) } pub fn second_call(self) -> Self { self.nth_call(2) } pub fn nth_call(mut self, n: usize) -> Self { assert!(n >= 1, "a call index starts at 1"); self.target = n; self } pub fn when(mut self, predicate: fn() -> bool) -> Self { self.predicate = Some(predicate); self } pub fn set_result(mut self, value: R) -> Self { let predicate = self.predicate.take(); self.state.borrow_mut().stubs.insert(self.target, StubEntry { predicate: predicate, value: value }); self } }

struct MockContainer<T = Odometer > { fallback: Option<T>, state_bump : std::cell::RefCell<CallState< u32 >>, state_reading : std::cell::RefCell<CallState< u32 >>, state_finish : std::cell::RefCell<CallState< u32 >>, }

impl<T> MockContainer<T> { pub fn new() -> MockContainer<T> { MockContainer { fallback: None, state_bump : std::cell::RefCell::new(CallState::new()), state_reading : std::cell::RefCell::new(CallState::new()), state_finish : std::cell::RefCell::new(CallState::new()), } } pub fn set_fallback(&mut self, delegate: T) { self.fallback = Some(delegate); } pub fn accessor_bump (&mut self) -> Builder< u32 > { Builder { state: &self. state_bump , target: 1, predicate: None } } pub fn accessor_reading (&mut self) -> Builder< u32 > { Builder { state: &self. state_reading , target: 1, predicate: None } } pub fn accessor_finish (&mut self) -> Builder< u32 > { Builder { state: &self. state_finish , target: 1, predicate: None } } }

impl<T: Meter > Meter for MockContainer<T> { fn bump (&mut self, arg0 : u32 , ) -> u32 { let (index, stub) = self. state_bump .borrow_mut().dispatch(); match stub { Some(value) => value, None => match self.fallback { Some(ref mut delegate) => delegate. bump ( arg0 , ), None => panic!("unmocked call: method {}, call {}", "bump" , index), }, } } fn reading (&self, ) -> u32 { let (index, stub) = self. state_reading .borrow_mut().dispatch(); match stub { Some(value) => value, None => match self.fallback { Some(ref delegate) => delegate. reading ( ), None => panic!("unmocked call: method {}, call {}", "reading" , index), }, } } fn finish (self, ) -> u32 { let (index, stub) = self. state_finish .borrow_mut().dispatch(); match stub { Some(value) => value, None => match self.fallback { Some(delegate) => delegate. finish ( ), None => panic!("unmocked call: method {}, call {}", "finish" , index), }, } } }

#[test]
fn meter_mock_text_is_the_code_of_this_file() {
    assert_eq!(mock("", SOURCE).unwrap(), GENERATED);
}

#[test]
fn meter_mutable_receiver_reaches_the_fallback() {
    let mut container = MockContainer::new();
    container.set_fallback(Odometer { total: 0 });
    container.accessor_bump().second_call().set_result(1000);
    assert_eq!(container.bump(5), 5);
    assert_eq!(container.bump(7), 1000);
    assert_eq!(container.bump(7), 12);
    assert_eq!(container.reading(), 12);
}

#[test]
fn meter_methods_count_on_their_own() {
    let mut container = MockContainer::new();
    container.set_fallback(Odometer { total: 3 });
    container.accessor_reading().first_call().set_result(99);
    assert_eq!(container.bump(1), 4);
    assert_eq!(container.reading(), 99);
    assert_eq!(container.reading(), 4);
    assert_eq!(container.state_bump.borrow().counter, 1);
    assert_eq!(container.state_reading.borrow().counter, 2);
    assert_eq!(container.state_finish.borrow().counter, 0);
}

#[test]
fn meter_receiver_by_value_consumes_the_container() {
    let mut container = MockContainer::new();
    container.set_fallback(Odometer { total: 8 });
    assert_eq!(container.finish(), 8);
    let mut stubbed: MockContainer = MockContainer::new();
    stubbed.accessor_finish().first_call().set_result(1);
    assert_eq!(stubbed.finish(), 1);
}
