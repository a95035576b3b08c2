//! From source text to a `Declaration`: the parser is asked for the syntax
//! tree, and the tree is walked layer by layer.

use vstd::prelude::*;
use crate::model::{
    Declaration, DeclarationShape, Failure, Member, MemberShape, Method, MethodSyntax, MockError,
    Param, ParamShape, Receiver,
};
use crate::syntax::{
    argument_of_member, argument_parts, binding_subpattern, capability_of_item, fn_arg_parts,
    impl_parts, is_mutable, item_impl_parts, member_method_parts, member_of_item, method_parts,
    mutability_is_mutable, output_of_member, parse_item_text, parsed, parsed_argument, parsed_item, parsed_member,
    parsed_path, parsed_type, path_text, pattern_binding, print_path, print_type,
    target_of_item, tokens_into_string, tokens_new, type_of_argument, type_text,
    unreadable_byte_literal, unreadable_byte_literal_at,
};

verus! {

/// A pattern is a plain name where it binds one identifier and has no
/// subpattern.
pub open spec fn is_plain_name(pattern: syn::Pat) -> bool {
    binding_subpattern(pattern) == Some(None::<syn::Pat>)
}

/// The kind of a receiver: by value where it is no reference, else by
/// mutable or by shared reference.
pub open spec fn receiver_kind(reference: Option<syn::Mutability>) -> Receiver {
    match reference {
        None => Receiver::Value,
        Some(mutability) => if is_mutable(mutability) {
            Receiver::RefMut
        } else {
            Receiver::Ref
        },
    }
}

/// How a parsed argument is classified: a receiver, a parameter bound by a
/// plain name, one bound by any other pattern, or a type with no binding.
pub open spec fn param_of(argument: syn::FnArg) -> ParamShape {
    match argument_parts(argument) {
        Err(reference) => ParamShape::Receiver(receiver_kind(reference)),
        Ok((None, ty)) => ParamShape::Bare(type_text(ty)),
        Ok((Some(pattern), ty)) => if is_plain_name(pattern) {
            ParamShape::Plain(type_text(ty))
        } else {
            ParamShape::Pattern(type_text(ty))
        },
    }
}

pub open spec fn output_of(output: Option<syn::Ty>) -> Option<Seq<char>> {
    match output {
        Some(ty) => Some(type_text(ty)),
        None => None,
    }
}

pub open spec fn member_of(member: syn::ImplItem) -> MemberShape {
    match method_parts(member) {
        None => MemberShape::Other,
        Some((name, inputs, output)) => MemberShape::Method(
            MethodSyntax {
                name,
                inputs: inputs.map_values(|a: syn::FnArg| param_of(a)),
                output: output_of(output),
            },
        ),
    }
}

pub open spec fn capability_of(capability: Option<syn::Path>) -> Option<Seq<char>> {
    match capability {
        Some(path) => Some(path_text(path)),
        None => None,
    }
}

/// The declaration that a parsed item stands for.
pub open spec fn declaration_of(item: syn::Item) -> DeclarationShape {
    match impl_parts(item) {
        None => DeclarationShape::Other,
        Some((capability, target, members)) => DeclarationShape::Impl {
            capability: capability_of(capability),
            target: type_text(target),
            members: members.map_values(|m: syn::ImplItem| member_of(m)),
        },
    }
}

/// The message for a text that is not handed to the parser.
pub const NON_ASCII_BYTE_LITERAL: &'static str =
    "failed to parse item: a byte literal holds a character outside ASCII";

/// What reading a source text yields: a message where the text holds a
/// byte literal that does not start with an ASCII character; else the
/// parser's message, or the declaration that the parsed item stands for.
pub open spec fn reading(source: Seq<char>) -> Result<DeclarationShape, Failure> {
    if unreadable_byte_literal(vstd::utf8::encode_utf8(source)) {
        Err(Failure::Parse(NON_ASCII_BYTE_LITERAL@))
    } else {
        match parsed_item(source) {
            Err(message) => Err(Failure::Parse(message)),
            Ok(item) => Ok(declaration_of(item)),
        }
    }
}

/// Looks for `b'` directly followed by a byte above 0x7f.
pub fn holds_unreadable_byte_literal(bytes: &[u8]) -> (b: bool)
    ensures
        b == unreadable_byte_literal(bytes@),
{
    if bytes.len() < 3 {
        return false;
    }
    let mut i: usize = 0;
    while i < bytes.len() - 2
        invariant
            bytes.len() >= 3,
            i <= bytes.len() - 2,
            forall|j: int| 0 <= j < i ==> !unreadable_byte_literal_at(bytes@, j),
        decreases bytes.len() - i,
    {
        if bytes[i] == 98 && bytes[i + 1] == 39 && bytes[i + 2] >= 128 {
            assert(unreadable_byte_literal_at(bytes@, i as int));
            return true;
        }
        i = i + 1;
    }
    false
}

fn pattern_is_plain_name(pattern: &syn::Pat) -> (r: bool)
    ensures
        r == is_plain_name(*pattern),
{
    match pattern_binding(pattern) {
        Some(None) => true,
        _ => false,
    }
}

fn render_type(ty: &syn::Ty) -> (r: String)
    requires
        parsed_type(*ty),
    ensures
        r@ == type_text(*ty),
{
    let mut tokens = tokens_new();
    print_type(ty, &mut tokens);
    tokens_into_string(tokens)
}

fn render_path(path: &syn::Path) -> (r: String)
    requires
        parsed_path(*path),
    ensures
        r@ == path_text(*path),
{
    let mut tokens = tokens_new();
    print_path(path, &mut tokens);
    tokens_into_string(tokens)
}

/// Classifies one parsed argument and renders its type.
pub fn read_param(argument: &syn::FnArg) -> (p: Param)
    requires
        parsed_argument(*argument),
    ensures
        p@ == param_of(*argument),
{
    proof {
        match argument_parts(*argument) {
            Ok(parts) => {
                assert(type_of_argument(*argument, parts.1));
            },
            Err(_) => {},
        }
    }
    match fn_arg_parts(argument) {
        Err(None) => Param::Receiver(Receiver::Value),
        Err(Some(mutability)) => {
            if mutability_is_mutable(&mutability) {
                Param::Receiver(Receiver::RefMut)
            } else {
                Param::Receiver(Receiver::Ref)
            }
        },
        Ok((None, ty)) => Param::Bare(render_type(&ty)),
        Ok((Some(pattern), ty)) => {
            if pattern_is_plain_name(&pattern) {
                Param::Plain(render_type(&ty))
            } else {
                Param::Pattern(render_type(&ty))
            }
        },
    }
}

/// Reduces one member of an implementation block to what the extractor
/// reads of it.
pub fn read_member(member: &syn::ImplItem) -> (m: Member)
    requires
        parsed_member(*member),
    ensures
        m@ == member_of(*member),
{
    match member_method_parts(member) {
        None => Member::Other,
        Some((name, arguments, output)) => {
            proof {
                assert forall|k: int| 0 <= k < arguments@.len() implies parsed_argument(
                    #[trigger] arguments@[k],
                ) by {
                    assert(argument_of_member(*member, k, arguments@[k]));
                }
            }
            let mut inputs: Vec<Param> = Vec::new();
            let mut i: usize = 0;
            while i < arguments.len()
                invariant
                    i <= arguments.len(),
                    forall|k: int|
                        0 <= k < arguments@.len() ==> parsed_argument(#[trigger] arguments@[k]),
                    inputs@.map_values(|p: Param| p@) == arguments@.take(i as int).map_values(
                        |a: syn::FnArg| param_of(a),
                    ),
                decreases arguments.len() - i,
            {
                let ghost before = inputs@;
                let p = read_param(&arguments[i]);
                inputs.push(p);
                proof {
                    assert(arguments@.take(i + 1) == arguments@.take(i as int).push(
                        arguments@[i as int],
                    ));
                    assert(inputs@.map_values(|p: Param| p@) == before.map_values(|p: Param| p@).push(
                        p@,
                    ));
                }
                i = i + 1;
            }
            proof {
                assert(arguments@.take(i as int) == arguments@);
            }
            let output = match output {
                Some(ty) => {
                    assert(output_of_member(*member, ty));
                    Some(render_type(&ty))
                },
                None => None,
            };
            Member::Method(Method { name, inputs, output })
        },
    }
}

/// Reduces a parsed item to a `Declaration`.
pub fn read_item(item: &syn::Item) -> (d: Declaration)
    requires
        parsed(*item),
    ensures
        d@ == declaration_of(*item),
{
    match item_impl_parts(item) {
        None => Declaration::Other,
        Some((capability, target, parsed_members)) => {
            proof {
                assert forall|k: int| 0 <= k < parsed_members@.len() implies parsed_member(
                    #[trigger] parsed_members@[k],
                ) by {
                    assert(member_of_item(*item, k, parsed_members@[k]));
                }
                assert(target_of_item(*item, target));
            }
            let mut members: Vec<Member> = Vec::new();
            let mut i: usize = 0;
            while i < parsed_members.len()
                invariant
                    i <= parsed_members.len(),
                    forall|k: int|
                        0 <= k < parsed_members@.len() ==> parsed_member(
                            #[trigger] parsed_members@[k],
                        ),
                    members@.map_values(|m: Member| m@) == parsed_members@.take(
                        i as int,
                    ).map_values(|m: syn::ImplItem| member_of(m)),
                decreases parsed_members.len() - i,
            {
                let ghost before = members@;
                let m = read_member(&parsed_members[i]);
                members.push(m);
                proof {
                    assert(parsed_members@.take(i + 1) == parsed_members@.take(i as int).push(
                        parsed_members@[i as int],
                    ));
                    assert(members@.map_values(|m: Member| m@) == before.map_values(
                        |m: Member| m@,
                    ).push(m@));
                }
                i = i + 1;
            }
            proof {
                assert(parsed_members@.take(i as int) == parsed_members@);
            }
            let capability = match capability {
                Some(path) => {
                    assert(capability_of_item(*item, path));
                    Some(render_path(&path))
                },
                None => None,
            };
            Declaration::Impl { capability, target: render_type(&target), members }
        },
    }
}

/// Parses one item from `source` and reduces it to a `Declaration`. A text
/// with a byte literal that does not start with an ASCII character is
/// turned down before the parser sees it.
pub fn read_declaration(source: &str) -> (r: Result<Declaration, MockError>)
    ensures
        match r {
            Ok(d) => reading(source@) == Ok::<DeclarationShape, Failure>(d@),
            Err(e) => reading(source@) == Err::<DeclarationShape, Failure>(e@),
        },
{
    if holds_unreadable_byte_literal(source.as_bytes()) {
        return Err(MockError::Parse(NON_ASCII_BYTE_LITERAL.to_owned()));
    }
    match parse_item_text(source) {
        Err(message) => Err(MockError::Parse(message)),
        Ok(item) => Ok(read_item(&item)),
    }
}

} // verus!
