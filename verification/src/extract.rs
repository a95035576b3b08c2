//! The signature extractor: from an implementation block to the ordered
//! method descriptors of the methods defined directly in it.

use vstd::prelude::*;
use crate::model::{
    Declaration, DeclarationShape, Failure, Member, MemberShape, Method, MethodDescriptor,
    MethodShape, MethodSyntax, MockError, Param, ParamShape, Receiver, shapes_of, texts_of,
};

verus! {

/// The text of the unit type, which a header without `->` returns: the
/// same text that a header with `-> ()` gives.
pub const UNIT_TYPE: &'static str = "( )";

pub open spec fn unit_type() -> Seq<char> {
    UNIT_TYPE@
}

/// The types of the parameters bound by a plain name, in order.
pub open spec fn captured_types(inputs: Seq<ParamShape>) -> Seq<Seq<char>>
    decreases inputs.len(),
{
    if inputs.len() == 0 {
        Seq::empty()
    } else {
        let before = captured_types(inputs.drop_last());
        match inputs.last() {
            ParamShape::Plain(ty) => before.push(ty),
            _ => before,
        }
    }
}

/// The position of the first parameter bound by a pattern that is not a
/// plain name, if there is one.
pub open spec fn first_unsupported(inputs: Seq<ParamShape>) -> Option<nat>
    decreases inputs.len(),
{
    if inputs.len() == 0 {
        None
    } else {
        match first_unsupported(inputs.drop_last()) {
            Some(i) => Some(i),
            None => if inputs.last() is Pattern {
                Some((inputs.len() - 1) as nat)
            } else {
                None
            },
        }
    }
}

/// The receiver of a method: what its first parameter says, if that is a
/// receiver.
pub open spec fn receiver_of(inputs: Seq<ParamShape>) -> Option<Receiver> {
    if inputs.len() > 0 {
        match inputs[0] {
            ParamShape::Receiver(kind) => Some(kind),
            _ => None,
        }
    } else {
        None
    }
}

pub open spec fn return_text(output: Option<Seq<char>>) -> Seq<char> {
    match output {
        Some(ty) => ty,
        None => unit_type(),
    }
}

/// The descriptor of one method, or the reason it has none.
pub open spec fn described(m: MethodSyntax) -> Result<MethodShape, Failure> {
    match receiver_of(m.inputs) {
        None => Err(Failure::MissingReceiver { method: m.name }),
        Some(receiver) => match first_unsupported(m.inputs) {
            Some(position) => Err(Failure::UnsupportedParameter { method: m.name, position }),
            None => Ok(
                MethodShape {
                    name: m.name,
                    receiver,
                    params: captured_types(m.inputs),
                    return_type: return_text(m.output),
                },
            ),
        },
    }
}

/// The descriptors of the methods among `members`, in declaration order, or
/// the failure of the first method that has no descriptor.
pub open spec fn described_all(members: Seq<MemberShape>) -> Result<Seq<MethodShape>, Failure>
    decreases members.len(),
{
    if members.len() == 0 {
        Ok(Seq::empty())
    } else {
        match described_all(members.drop_last()) {
            Err(e) => Err(e),
            Ok(before) => match members.last() {
                MemberShape::Other => Ok(before),
                MemberShape::Method(m) => match described(m) {
                    Err(e) => Err(e),
                    Ok(d) => Ok(before.push(d)),
                },
            },
        }
    }
}

/// What extraction yields for an item.
pub open spec fn extraction(item: DeclarationShape) -> Result<Seq<MethodShape>, Failure> {
    match item {
        DeclarationShape::Other => Err(Failure::NotAnImpl),
        DeclarationShape::Impl { capability: None, .. } => Err(Failure::MissingCapability),
        DeclarationShape::Impl { capability: Some(_), target, members } => described_all(members),
    }
}

/// Builds the descriptor of one method: its name, its receiver, the types
/// of the parameters bound by a plain name, and its return type.
pub fn describe_method(method: &Method) -> (r: Result<MethodDescriptor, MockError>)
    ensures
        match r {
            Ok(d) => described(method@) == Ok::<MethodShape, Failure>(d@),
            Err(e) => described(method@) == Err::<MethodShape, Failure>(e@),
        },
{
    let ghost inputs = method@.inputs;
    if method.inputs.len() == 0 {
        return Err(MockError::MissingReceiver { method: method.name.clone() });
    }
    let receiver = match &method.inputs[0] {
        Param::Receiver(kind) => *kind,
        _ => {
            return Err(MockError::MissingReceiver { method: method.name.clone() });
        },
    };
    let mut params: Vec<String> = Vec::new();
    let mut i: usize = 0;
    while i < method.inputs.len()
        invariant
            i <= method.inputs.len(),
            inputs == method@.inputs,
            inputs.len() == method.inputs.len(),
            receiver_of(inputs) == Some(receiver),
            first_unsupported(inputs.take(i as int)) is None,
            texts_of(params@) == captured_types(inputs.take(i as int)),
        decreases method.inputs.len() - i,
    {
        proof {
            assert(inputs.take(i + 1).drop_last() == inputs.take(i as int));
            assert(inputs.take(i + 1).last() == method.inputs[i as int]@);
        }
        match &method.inputs[i] {
            Param::Plain(ty) => {
                let ghost before = params@;
                params.push(ty.clone());
                assert(texts_of(params@) == texts_of(before).push(ty@));
            },
            Param::Pattern(_) => {
                proof {
                    assert(inputs.take(inputs.len() as int) == inputs);
                    lemma_first_unsupported_extends(inputs, i as nat);
                }
                return Err(
                    MockError::UnsupportedParameter { method: method.name.clone(), position: i },
                );
            },
            _ => {},
        }
        i = i + 1;
    }
    proof {
        assert(inputs.take(i as int) == inputs);
    }
    let return_type = match &method.output {
        Some(ty) => ty.clone(),
        None => UNIT_TYPE.to_owned(),
    };
    Ok(MethodDescriptor { name: method.name.clone(), receiver, params, return_type })
}

/// Once a prefix ends in the first pattern-bound parameter, every longer
/// sequence reports the same position.
pub proof fn lemma_first_unsupported_extends(inputs: Seq<ParamShape>, i: nat)
    requires
        i < inputs.len(),
        first_unsupported(inputs.take(i as int)) is None,
        inputs[i as int] is Pattern,
    ensures
        first_unsupported(inputs) == Some(i),
    decreases inputs.len(),
{
    if inputs.len() == i + 1 {
        assert(inputs.drop_last() == inputs.take(i as int));
    } else {
        assert(inputs.drop_last().take(i as int) == inputs.take(i as int));
        lemma_first_unsupported_extends(inputs.drop_last(), i);
    }
}

/// Once a prefix of the members has failed, the whole block fails the same way.
pub proof fn lemma_described_all_fails(members: Seq<MemberShape>, n: int)
    requires
        0 <= n <= members.len(),
        described_all(members.take(n)) is Err,
    ensures
        described_all(members) == described_all(members.take(n)),
    decreases members.len(),
{
    if members.len() == n {
        assert(members.take(n) == members);
    } else {
        assert(members.drop_last().take(n) == members.take(n));
        lemma_described_all_fails(members.drop_last(), n);
    }
}

/// Extracts the method descriptors of an implementation block, in
/// declaration order. Members that are not methods are passed over.
pub fn parse_impl(item: &Declaration) -> (r: Result<Vec<MethodDescriptor>, MockError>)
    ensures
        match r {
            Ok(v) => extraction(item@) == Ok::<Seq<MethodShape>, Failure>(shapes_of(v@)),
            Err(e) => extraction(item@) == Err::<Seq<MethodShape>, Failure>(e@),
        },
{
    match item {
        Declaration::Other => Err(MockError::NotAnImpl),
        Declaration::Impl { capability: None, .. } => Err(MockError::MissingCapability),
        Declaration::Impl { capability: Some(_), target: _, members } => {
            let ghost shapes = members@.map_values(|m: Member| m@);
            let mut result: Vec<MethodDescriptor> = Vec::new();
            let mut i: usize = 0;
            proof {
                assert(shapes.take(0).len() == 0);
                assert(shapes_of(result@) == Seq::<MethodShape>::empty());
            }
            while i < members.len()
                invariant
                    i <= members.len(),
                    shapes == members@.map_values(|m: Member| m@),
                    extraction(item@) == described_all(shapes),
                    described_all(shapes.take(i as int)) == Ok::<Seq<MethodShape>, Failure>(
                        shapes_of(result@),
                    ),
                decreases members.len() - i,
            {
                proof {
                    assert(shapes.take(i + 1).drop_last() == shapes.take(i as int));
                    assert(shapes.take(i + 1).last() == members[i as int]@);
                }
                match &members[i] {
                    Member::Method(m) => {
                        match describe_method(m) {
                            Ok(d) => {
                                let ghost before = result@;
                                result.push(d);
                                assert(shapes_of(result@) == shapes_of(before).push(d@));
                            },
                            Err(e) => {
                                proof {
                                    assert(described_all(shapes.take(i + 1)) == Err::<
                                        Seq<MethodShape>,
                                        Failure,
                                    >(e@));
                                    lemma_described_all_fails(shapes, i + 1);
                                }
                                return Err(e);
                            },
                        }
                    },
                    Member::Other => {},
                }
                i = i + 1;
            }
            proof {
                assert(shapes.take(i as int) == shapes);
            }
            Ok(result)
        },
    }
}

} // verus!
