//! The data the generator works on: the shape of an implementation block as
//! the extractor reads it, and the method descriptors it produces.

use vstd::prelude::*;

verus! {

/// How a method takes the value it is called on.
#[derive(Debug, Clone, Copy, PartialEq, Eq)]
pub enum Receiver {
    /// `&self`
    Ref,
    /// `&mut self`
    RefMut,
    /// `self`
    Value,
}

/// One parameter of a method, as written in its header. The `String` is the
/// text of the parameter's type.
#[derive(Debug, Clone, PartialEq, Eq)]
pub enum Param {
    /// `self`, `&self`, `&mut self`.
    Receiver(Receiver),
    /// `name: Type`: bound by a plain name.
    Plain(String),
    /// `pattern: Type` where the pattern is anything but a plain name.
    Pattern(String),
    /// `Type` alone, with no binding.
    Bare(String),
}

/// A method definition inside an implementation block.
#[derive(Debug, Clone, PartialEq, Eq)]
pub struct Method {
    pub name: String,
    pub inputs: Vec<Param>,
    /// The text of the return type, `None` where the header has no `->`.
    pub output: Option<String>,
}

/// One member of an implementation block.
#[derive(Debug, Clone, PartialEq, Eq)]
pub enum Member {
    Method(Method),
    /// An associated constant, type or macro call.
    Other,
}

/// A top-level item, reduced to what the extractor needs of it.
#[derive(Debug, Clone, PartialEq, Eq)]
pub enum Declaration {
    /// `impl capability for target { members }`; `capability` is `None`
    /// for an inherent `impl target { .. }`.
    Impl { capability: Option<String>, target: String, members: Vec<Member> },
    /// Any other item: a function, a trait declaration, a struct, ...
    Other,
}

/// What the synthesizer knows of one mocked method.
#[derive(Debug, Clone, PartialEq, Eq)]
pub struct MethodDescriptor {
    pub name: String,
    /// How the method takes the value it is called on.
    pub receiver: Receiver,
    /// The parameter types, in declaration order, receiver left out.
    pub params: Vec<String>,
    pub return_type: String,
}

/// Why no mock could be generated.
#[derive(Debug, Clone, PartialEq, Eq)]
pub enum MockError {
    /// The source text is not a single well-formed item; the parser's message.
    Parse(String),
    /// The item is not an implementation block.
    NotAnImpl,
    /// The implementation block names no capability set.
    MissingCapability,
    /// `method` does not start with a receiver: there is no value to keep
    /// its call state in.
    MissingReceiver { method: String },
    /// Parameter `position` (counted from 0, the receiver included) of
    /// `method` is bound by a pattern that is not a plain name.
    UnsupportedParameter { method: String, position: usize },
}

pub enum ParamShape {
    Receiver(Receiver),
    Plain(Seq<char>),
    Pattern(Seq<char>),
    Bare(Seq<char>),
}

pub struct MethodSyntax {
    pub name: Seq<char>,
    pub inputs: Seq<ParamShape>,
    pub output: Option<Seq<char>>,
}

pub enum MemberShape {
    Method(MethodSyntax),
    Other,
}

pub enum DeclarationShape {
    Impl { capability: Option<Seq<char>>, target: Seq<char>, members: Seq<MemberShape> },
    Other,
}

pub struct MethodShape {
    pub name: Seq<char>,
    pub receiver: Receiver,
    pub params: Seq<Seq<char>>,
    pub return_type: Seq<char>,
}

pub enum Failure {
    Parse(Seq<char>),
    NotAnImpl,
    MissingCapability,
    MissingReceiver { method: Seq<char> },
    UnsupportedParameter { method: Seq<char>, position: nat },
}

/// The texts of a list of strings, in order.
pub open spec fn texts_of(v: Seq<String>) -> Seq<Seq<char>> {
    v.map_values(|s: String| s@)
}

pub open spec fn optional_text(o: Option<String>) -> Option<Seq<char>> {
    match o {
        Some(s) => Some(s@),
        None => None,
    }
}

impl View for Param {
    type V = ParamShape;

    open spec fn view(&self) -> ParamShape {
        match *self {
            Param::Receiver(kind) => ParamShape::Receiver(kind),
            Param::Plain(ty) => ParamShape::Plain(ty@),
            Param::Pattern(ty) => ParamShape::Pattern(ty@),
            Param::Bare(ty) => ParamShape::Bare(ty@),
        }
    }
}

impl View for Method {
    type V = MethodSyntax;

    open spec fn view(&self) -> MethodSyntax {
        MethodSyntax {
            name: self.name@,
            inputs: self.inputs@.map_values(|p: Param| p@),
            output: optional_text(self.output),
        }
    }
}

impl View for Member {
    type V = MemberShape;

    open spec fn view(&self) -> MemberShape {
        match *self {
            Member::Method(m) => MemberShape::Method(m@),
            Member::Other => MemberShape::Other,
        }
    }
}

impl View for Declaration {
    type V = DeclarationShape;

    open spec fn view(&self) -> DeclarationShape {
        match *self {
            Declaration::Impl { capability, target, members } => DeclarationShape::Impl {
                capability: optional_text(capability),
                target: target@,
                members: members@.map_values(|m: Member| m@),
            },
            Declaration::Other => DeclarationShape::Other,
        }
    }
}

impl View for MethodDescriptor {
    type V = MethodShape;

    open spec fn view(&self) -> MethodShape {
        MethodShape {
            name: self.name@,
            receiver: self.receiver,
            params: texts_of(self.params@),
            return_type: self.return_type@,
        }
    }
}

impl View for MockError {
    type V = Failure;

    open spec fn view(&self) -> Failure {
        match *self {
            MockError::Parse(message) => Failure::Parse(message@),
            MockError::NotAnImpl => Failure::NotAnImpl,
            MockError::MissingCapability => Failure::MissingCapability,
            MockError::MissingReceiver { method } => Failure::MissingReceiver { method: method@ },
            MockError::UnsupportedParameter { method, position } => Failure::UnsupportedParameter {
                method: method@,
                position: position as nat,
            },
        }
    }
}

/// The views of a list of descriptors, in order.
pub open spec fn shapes_of(v: Seq<MethodDescriptor>) -> Seq<MethodShape> {
    v.map_values(|d: MethodDescriptor| d@)
}

} // verus!
