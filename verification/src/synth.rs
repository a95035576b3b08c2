//! The mock synthesizer: from method descriptors to the source text of a
//! mock container, its builders and its dispatch implementation.
//!
//! The text is a sequence of pieces, joined with single spaces. Fixed
//! pieces are the constants below; the others are names and types taken
//! from the descriptors.

use vstd::prelude::*;
use crate::extract::{extraction, parse_impl};
use crate::model::{
    shapes_of, texts_of, Declaration, DeclarationShape, Failure, MethodDescriptor, MethodShape,
    MockError, Receiver,
};
use crate::text::{concat_idents, decimal, decimal_text, join, joined, quote_name, quoted};

verus! {

pub const STUB_ENTRY: &'static str =
    "struct StubEntry<R> { predicate: Option<fn() -> bool>, value: R }";

pub const CALL_STATE: &'static str =
    "struct CallState<R> { counter: usize, stubs: std::collections::HashMap<usize, StubEntry<R>> }";

pub const CALL_STATE_IMPL: &'static str =
    "impl<R> CallState<R> { fn new() -> CallState<R> { CallState { counter: 0, stubs: std::collections::HashMap::new() } } fn dispatch(&mut self) -> (usize, Option<R>) { self.counter += 1; let index = self.counter; let stub = match self.stubs.remove(&index) { Some(entry) => match entry.predicate { Some(probe) => if probe() { Some(entry.value) } else { None }, None => Some(entry.value), }, None => None, }; (index, stub) } }";

pub const BUILDER: &'static str =
    "struct Builder<'a, R: 'a> { state: &'a std::cell::RefCell<CallState<R>>, target: usize, predicate: Option<fn() -> bool> }";

pub const BUILDER_IMPL: &'static str =
    "impl<'a, R: 'a> Builder<'a, R> { pub fn first_call(self) -> Self { self.nth_call(1) } pub fn second_call(self) -> Self { self.nth_call(2) } pub fn nth_call(mut self, n: usize) -> Self { assert!(n >= 1, \"a call index starts at 1\"); self.target = n; self } pub fn when(mut self, predicate: fn() -> bool) -> Self { self.predicate = Some(predicate); self } pub fn set_result(mut self, value: R) -> Self { let predicate = self.predicate.take(); self.state.borrow_mut().stubs.insert(self.target, StubEntry { predicate: predicate, value: value }); self } }";

pub const CONTAINER_OPEN: &'static str = "struct MockContainer<T =";

pub const CONTAINER_FALLBACK: &'static str = "> { fallback: Option<T>,";

pub const FIELD_OPEN: &'static str = ": std::cell::RefCell<CallState<";

pub const FIELD_CLOSE: &'static str = ">>,";

pub const CLOSE: &'static str = "}";

pub const INHERENT_OPEN: &'static str =
    "impl<T> MockContainer<T> { pub fn new() -> MockContainer<T> { MockContainer { fallback: None,";

pub const FIELD_INIT: &'static str = ": std::cell::RefCell::new(CallState::new()),";

pub const NEW_CLOSE: &'static str = "} }";

pub const SET_FALLBACK: &'static str =
    "pub fn set_fallback(&mut self, delegate: T) { self.fallback = Some(delegate); }";

pub const PUB_FN: &'static str = "pub fn";

pub const ACCESSOR_SIGNATURE: &'static str = "(&mut self) -> Builder<";

pub const ACCESSOR_BODY: &'static str = "> { Builder { state: &self.";

pub const ACCESSOR_CLOSE: &'static str = ", target: 1, predicate: None } }";

pub const DISPATCH_IMPL_OPEN: &'static str = "impl<T:";

pub const GENERICS_CLOSE: &'static str = ">";

pub const DISPATCH_IMPL_FOR: &'static str = "for MockContainer<T> {";

pub const FN: &'static str = "fn";

pub const RECEIVER_REF: &'static str = "(&self,";

pub const RECEIVER_REF_MUT: &'static str = "(&mut self,";

pub const RECEIVER_VALUE: &'static str = "(self,";

pub const COLON: &'static str = ":";

pub const COMMA: &'static str = ",";

pub const RETURNS: &'static str = ") ->";

pub const DISPATCH_LOOKUP: &'static str = "{ let (index, stub) = self.";

pub const DISPATCH_MATCH: &'static str =
    ".borrow_mut().dispatch(); match stub { Some(value) => value, None => match self.fallback {";

pub const DELEGATE_REF: &'static str = "Some(ref delegate) => delegate.";

pub const DELEGATE_REF_MUT: &'static str = "Some(ref mut delegate) => delegate.";

pub const DELEGATE_VALUE: &'static str = "Some(delegate) => delegate.";

pub const CALL_OPEN: &'static str = "(";

pub const DISPATCH_UNMOCKED: &'static str =
    "), None => panic!(\"unmocked call: method {}, call {}\",";

pub const DISPATCH_CLOSE: &'static str = ", index), }, } }";

pub const STATE_PREFIX: &'static str = "state_";

pub const ACCESSOR_PREFIX: &'static str = "accessor_";

pub const ARGUMENT_PREFIX: &'static str = "arg";

/// The four places where the text has something for every method.
pub enum Section {
    /// The method's call state, a field of the container.
    Field,
    /// The field's first value, in the container's `new`.
    Init,
    /// The method's accessor, which hands out a builder.
    Accessor,
    /// The method's body in the implementation of the capability set.
    Dispatch,
}

/// The name of the container field that holds a method's call state.
pub open spec fn state_name(method: Seq<char>) -> Seq<char> {
    STATE_PREFIX@ + method
}

/// The name of a method's accessor.
pub open spec fn accessor_name(method: Seq<char>) -> Seq<char> {
    ACCESSOR_PREFIX@ + method
}

/// The name that the dispatch implementation gives to parameter `i`.
pub open spec fn argument_name(i: nat) -> Seq<char> {
    ARGUMENT_PREFIX@ + decimal(i)
}

/// The opening of a parameter list, with the receiver as the trait's
/// method has it.
pub open spec fn receiver_piece(receiver: Receiver) -> Seq<char> {
    match receiver {
        Receiver::Ref => RECEIVER_REF@,
        Receiver::RefMut => RECEIVER_REF_MUT@,
        Receiver::Value => RECEIVER_VALUE@,
    }
}

/// The match arm that binds the fallback as the method's receiver needs
/// it: by shared reference, by mutable reference or by value.
pub open spec fn delegate_piece(receiver: Receiver) -> Seq<char> {
    match receiver {
        Receiver::Ref => DELEGATE_REF@,
        Receiver::RefMut => DELEGATE_REF_MUT@,
        Receiver::Value => DELEGATE_VALUE@,
    }
}

/// `arg0 : T0 , arg1 : T1 , ...` for the parameter types in order.
pub open spec fn parameter_pieces(params: Seq<Seq<char>>) -> Seq<Seq<char>>
    decreases params.len(),
{
    if params.len() == 0 {
        Seq::empty()
    } else {
        parameter_pieces(params.drop_last()) + seq![
            argument_name((params.len() - 1) as nat),
            COLON@,
            params.last(),
            COMMA@,
        ]
    }
}

/// `arg0 , arg1 , ...` for `n` parameters.
pub open spec fn forward_pieces(n: nat) -> Seq<Seq<char>>
    decreases n,
{
    if n == 0 {
        Seq::empty()
    } else {
        forward_pieces((n - 1) as nat) + seq![argument_name((n - 1) as nat), COMMA@]
    }
}

/// A method in the implementation of the capability set, with the
/// receiver of the trait's method: it
/// takes the next call index from the method's own call state, returns the
/// stub where one matches, else forwards every parameter to the fallback,
/// else reports the unmocked call with the method's name and the index.
pub open spec fn dispatch_pieces(m: MethodShape) -> Seq<Seq<char>> {
    seq![FN@, m.name, receiver_piece(m.receiver)] + parameter_pieces(m.params) + seq![
        RETURNS@,
        m.return_type,
        DISPATCH_LOOKUP@,
        state_name(m.name),
        DISPATCH_MATCH@,
        delegate_piece(m.receiver),
        m.name,
        CALL_OPEN@,
    ] + forward_pieces(m.params.len()) + seq![DISPATCH_UNMOCKED@, quoted(m.name), DISPATCH_CLOSE@]
}

/// What one method adds to a section.
pub open spec fn method_pieces(section: Section, m: MethodShape) -> Seq<Seq<char>> {
    match section {
        Section::Field => seq![state_name(m.name), FIELD_OPEN@, m.return_type, FIELD_CLOSE@],
        Section::Init => seq![state_name(m.name), FIELD_INIT@],
        Section::Accessor => seq![
            PUB_FN@,
            accessor_name(m.name),
            ACCESSOR_SIGNATURE@,
            m.return_type,
            ACCESSOR_BODY@,
            state_name(m.name),
            ACCESSOR_CLOSE@,
        ],
        Section::Dispatch => dispatch_pieces(m),
    }
}

/// A section: what each method adds to it, in the order of the descriptors.
pub open spec fn section_pieces(section: Section, methods: Seq<MethodShape>) -> Seq<Seq<char>>
    decreases methods.len(),
{
    if methods.len() == 0 {
        Seq::empty()
    } else {
        section_pieces(section, methods.drop_last()) + method_pieces(section, methods.last())
    }
}

/// The pieces of the whole text: the stub entry, the call state and the
/// builder; the container, generic in the fallback type, which stands for
/// `target` where nothing else is said; its `new`, `set_fallback` and one
/// accessor per method; and the implementation of `capability`.
pub open spec fn mock_pieces(
    target: Seq<char>,
    capability: Seq<char>,
    methods: Seq<MethodShape>,
) -> Seq<Seq<char>> {
    seq![
        STUB_ENTRY@,
        CALL_STATE@,
        CALL_STATE_IMPL@,
        BUILDER@,
        BUILDER_IMPL@,
        CONTAINER_OPEN@,
        target,
        CONTAINER_FALLBACK@,
    ] + section_pieces(Section::Field, methods) + seq![CLOSE@, INHERENT_OPEN@] + section_pieces(
        Section::Init,
        methods,
    ) + seq![NEW_CLOSE@, SET_FALLBACK@] + section_pieces(Section::Accessor, methods) + seq![
        CLOSE@,
        DISPATCH_IMPL_OPEN@,
        capability,
        GENERICS_CLOSE@,
        capability,
        DISPATCH_IMPL_FOR@,
    ] + section_pieces(Section::Dispatch, methods) + seq![CLOSE@]
}

/// The source text of the mock.
pub open spec fn mock_text(
    target: Seq<char>,
    capability: Seq<char>,
    methods: Seq<MethodShape>,
) -> Seq<char> {
    joined(mock_pieces(target, capability, methods))
}

fn push_piece(pieces: &mut Vec<String>, piece: &str)
    ensures
        texts_of(final(pieces)@) == texts_of(old(pieces)@).push(piece@),
{
    pieces.push(piece.to_owned());
    assert(texts_of(pieces@) == texts_of(old(pieces)@).push(piece@));
}

fn push_text(pieces: &mut Vec<String>, piece: String)
    ensures
        texts_of(final(pieces)@) == texts_of(old(pieces)@).push(piece@),
{
    pieces.push(piece);
    assert(texts_of(pieces@) == texts_of(old(pieces)@).push(piece@));
}

fn push_parameters(pieces: &mut Vec<String>, params: &Vec<String>)
    ensures
        texts_of(final(pieces)@) == texts_of(old(pieces)@) + parameter_pieces(texts_of(params@)),
{
    let ghost start = texts_of(pieces@);
    let ghost types = texts_of(params@);
    let mut i: usize = 0;
    assert(types.take(0).len() == 0);
    assert(texts_of(pieces@) == start + parameter_pieces(types.take(0)));
    while i < params.len()
        invariant
            i <= params.len(),
            types == texts_of(params@),
            texts_of(pieces@) == start + parameter_pieces(types.take(i as int)),
        decreases params.len() - i,
    {
        proof {
            assert(types.take(i + 1).drop_last() == types.take(i as int));
            assert(types.take(i + 1).last() == params@[i as int]@);
        }
        push_text(pieces, concat_idents(ARGUMENT_PREFIX, decimal_text(i).as_str()));
        push_piece(pieces, COLON);
        push_piece(pieces, params[i].as_str());
        push_piece(pieces, COMMA);
        assert(texts_of(pieces@) == start + parameter_pieces(types.take(i + 1)));
        i = i + 1;
    }
    assert(types.take(i as int) == types);
}

fn push_forwards(pieces: &mut Vec<String>, n: usize)
    ensures
        texts_of(final(pieces)@) == texts_of(old(pieces)@) + forward_pieces(n as nat),
{
    let ghost start = texts_of(pieces@);
    let mut i: usize = 0;
    assert(texts_of(pieces@) == start + forward_pieces(0));
    while i < n
        invariant
            i <= n,
            texts_of(pieces@) == start + forward_pieces(i as nat),
        decreases n - i,
    {
        push_text(pieces, concat_idents(ARGUMENT_PREFIX, decimal_text(i).as_str()));
        push_piece(pieces, COMMA);
        assert(texts_of(pieces@) == start + forward_pieces((i + 1) as nat));
        i = i + 1;
    }
}

fn receiver_text(receiver: Receiver) -> (r: &'static str)
    ensures
        r@ == receiver_piece(receiver),
{
    match receiver {
        Receiver::Ref => RECEIVER_REF,
        Receiver::RefMut => RECEIVER_REF_MUT,
        Receiver::Value => RECEIVER_VALUE,
    }
}

fn delegate_text(receiver: Receiver) -> (r: &'static str)
    ensures
        r@ == delegate_piece(receiver),
{
    match receiver {
        Receiver::Ref => DELEGATE_REF,
        Receiver::RefMut => DELEGATE_REF_MUT,
        Receiver::Value => DELEGATE_VALUE,
    }
}

fn push_dispatch(pieces: &mut Vec<String>, method: &MethodDescriptor)
    ensures
        texts_of(final(pieces)@) == texts_of(old(pieces)@) + dispatch_pieces(method@),
{
    let ghost start = texts_of(pieces@);
    push_piece(pieces, FN);
    push_piece(pieces, method.name.as_str());
    push_piece(pieces, receiver_text(method.receiver));
    let ghost head = texts_of(pieces@);
    assert(head == start + seq![FN@, method@.name, receiver_piece(method@.receiver)]);
    push_parameters(pieces, &method.params);
    let ghost with_parameters = texts_of(pieces@);
    push_piece(pieces, RETURNS);
    push_piece(pieces, method.return_type.as_str());
    push_piece(pieces, DISPATCH_LOOKUP);
    push_text(pieces, concat_idents(STATE_PREFIX, method.name.as_str()));
    push_piece(pieces, DISPATCH_MATCH);
    push_piece(pieces, delegate_text(method.receiver));
    push_piece(pieces, method.name.as_str());
    push_piece(pieces, CALL_OPEN);
    let ghost middle = texts_of(pieces@);
    assert(middle == with_parameters + seq![
        RETURNS@,
        method@.return_type,
        DISPATCH_LOOKUP@,
        state_name(method@.name),
        DISPATCH_MATCH@,
        delegate_piece(method@.receiver),
        method@.name,
        CALL_OPEN@,
    ]);
    push_forwards(pieces, method.params.len());
    let ghost with_forwards = texts_of(pieces@);
    push_piece(pieces, DISPATCH_UNMOCKED);
    push_text(pieces, quote_name(method.name.as_str()));
    push_piece(pieces, DISPATCH_CLOSE);
    assert(texts_of(pieces@) == with_forwards + seq![
        DISPATCH_UNMOCKED@,
        quoted(method@.name),
        DISPATCH_CLOSE@,
    ]);
    assert(texts_of(pieces@) == start + dispatch_pieces(method@));
}

fn push_method(pieces: &mut Vec<String>, section: &Section, method: &MethodDescriptor)
    ensures
        texts_of(final(pieces)@) == texts_of(old(pieces)@) + method_pieces(*section, method@),
{
    let ghost start = texts_of(pieces@);
    match section {
        Section::Field => {
            push_text(pieces, concat_idents(STATE_PREFIX, method.name.as_str()));
            push_piece(pieces, FIELD_OPEN);
            push_piece(pieces, method.return_type.as_str());
            push_piece(pieces, FIELD_CLOSE);
            assert(texts_of(pieces@) == start + method_pieces(*section, method@));
        },
        Section::Init => {
            push_text(pieces, concat_idents(STATE_PREFIX, method.name.as_str()));
            push_piece(pieces, FIELD_INIT);
            assert(texts_of(pieces@) == start + method_pieces(*section, method@));
        },
        Section::Accessor => {
            push_piece(pieces, PUB_FN);
            push_text(pieces, concat_idents(ACCESSOR_PREFIX, method.name.as_str()));
            push_piece(pieces, ACCESSOR_SIGNATURE);
            push_piece(pieces, method.return_type.as_str());
            push_piece(pieces, ACCESSOR_BODY);
            push_text(pieces, concat_idents(STATE_PREFIX, method.name.as_str()));
            push_piece(pieces, ACCESSOR_CLOSE);
            assert(texts_of(pieces@) == start + method_pieces(*section, method@));
        },
        Section::Dispatch => {
            push_dispatch(pieces, method);
        },
    }
}

fn push_section(pieces: &mut Vec<String>, section: &Section, methods: &Vec<MethodDescriptor>)
    ensures
        texts_of(final(pieces)@) == texts_of(old(pieces)@) + section_pieces(
            *section,
            shapes_of(methods@),
        ),
{
    let ghost start = texts_of(pieces@);
    let ghost shapes = shapes_of(methods@);
    let mut i: usize = 0;
    assert(shapes.take(0).len() == 0);
    assert(texts_of(pieces@) == start + section_pieces(*section, shapes.take(0)));
    while i < methods.len()
        invariant
            i <= methods.len(),
            shapes == shapes_of(methods@),
            texts_of(pieces@) == start + section_pieces(*section, shapes.take(i as int)),
        decreases methods.len() - i,
    {
        proof {
            assert(shapes.take(i + 1).drop_last() == shapes.take(i as int));
            assert(shapes.take(i + 1).last() == methods@[i as int]@);
        }
        push_method(pieces, section, &methods[i]);
        assert(texts_of(pieces@) == start + section_pieces(*section, shapes.take(i + 1)));
        i = i + 1;
    }
    assert(shapes.take(i as int) == shapes);
}

/// The pieces of the mock's source text, in order.
pub fn synthesize_pieces(target: &str, capability: &str, methods: &Vec<MethodDescriptor>) -> (r:
    Vec<String>)
    ensures
        texts_of(r@) == mock_pieces(target@, capability@, shapes_of(methods@)),
{
    let mut pieces: Vec<String> = Vec::new();
    assert(texts_of(pieces@) == Seq::<Seq<char>>::empty());
    push_piece(&mut pieces, STUB_ENTRY);
    push_piece(&mut pieces, CALL_STATE);
    push_piece(&mut pieces, CALL_STATE_IMPL);
    push_piece(&mut pieces, BUILDER);
    push_piece(&mut pieces, BUILDER_IMPL);
    push_piece(&mut pieces, CONTAINER_OPEN);
    push_piece(&mut pieces, target);
    push_piece(&mut pieces, CONTAINER_FALLBACK);
    let ghost opening = texts_of(pieces@);
    assert(opening == seq![
        STUB_ENTRY@,
        CALL_STATE@,
        CALL_STATE_IMPL@,
        BUILDER@,
        BUILDER_IMPL@,
        CONTAINER_OPEN@,
        target@,
        CONTAINER_FALLBACK@,
    ]);
    push_section(&mut pieces, &Section::Field, methods);
    let ghost with_fields = texts_of(pieces@);
    push_piece(&mut pieces, CLOSE);
    push_piece(&mut pieces, INHERENT_OPEN);
    let ghost inherent_open = texts_of(pieces@);
    assert(inherent_open == with_fields + seq![CLOSE@, INHERENT_OPEN@]);
    push_section(&mut pieces, &Section::Init, methods);
    let ghost with_inits = texts_of(pieces@);
    push_piece(&mut pieces, NEW_CLOSE);
    push_piece(&mut pieces, SET_FALLBACK);
    let ghost with_setter = texts_of(pieces@);
    assert(with_setter == with_inits + seq![NEW_CLOSE@, SET_FALLBACK@]);
    push_section(&mut pieces, &Section::Accessor, methods);
    let ghost with_accessors = texts_of(pieces@);
    push_piece(&mut pieces, CLOSE);
    push_piece(&mut pieces, DISPATCH_IMPL_OPEN);
    push_piece(&mut pieces, capability);
    push_piece(&mut pieces, GENERICS_CLOSE);
    push_piece(&mut pieces, capability);
    push_piece(&mut pieces, DISPATCH_IMPL_FOR);
    let ghost dispatch_open = texts_of(pieces@);
    assert(dispatch_open == with_accessors + seq![
        CLOSE@,
        DISPATCH_IMPL_OPEN@,
        capability@,
        GENERICS_CLOSE@,
        capability@,
        DISPATCH_IMPL_FOR@,
    ]);
    push_section(&mut pieces, &Section::Dispatch, methods);
    let ghost with_dispatch = texts_of(pieces@);
    push_piece(&mut pieces, CLOSE);
    assert(texts_of(pieces@) == with_dispatch + seq![CLOSE@]);
    pieces
}

/// Synthesizes the source text of the mock for `capability`, with `target`
/// as the fallback type where none is named, and one call state, accessor
/// and dispatch body per descriptor.
pub fn synthesize(target: &str, capability: &str, methods: &Vec<MethodDescriptor>) -> (r: String)
    ensures
        r@ == mock_text(target@, capability@, shapes_of(methods@)),
{
    let pieces = synthesize_pieces(target, capability, methods);
    join(&pieces)
}

/// What generation yields for a declaration: the failure of the
/// extraction, or the mock's text for the extracted descriptors.
pub open spec fn generation(declaration: DeclarationShape) -> Result<Seq<char>, Failure> {
    match extraction(declaration) {
        Err(e) => Err(e),
        Ok(methods) => match declaration {
            DeclarationShape::Impl { capability: Some(capability), target, .. } => Ok(
                mock_text(target, capability, methods),
            ),
            _ => Err(Failure::NotAnImpl),
        },
    }
}

/// Generates the mock for a declaration: extracts the descriptors of its
/// methods and synthesizes the text for them.
pub fn generate(declaration: &Declaration) -> (r: Result<String, MockError>)
    ensures
        match r {
            Ok(text) => generation(declaration@) == Ok::<Seq<char>, Failure>(text@),
            Err(e) => generation(declaration@) == Err::<Seq<char>, Failure>(e@),
        },
{
    match parse_impl(declaration) {
        Err(e) => Err(e),
        Ok(methods) => match declaration {
            Declaration::Impl { capability: Some(capability), target, .. } => Ok(
                synthesize(target.as_str(), capability.as_str(), &methods),
            ),
            _ => Err(MockError::NotAnImpl),
        },
    }
}

} // verus!
