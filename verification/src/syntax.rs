//! The boundary to the `syn` parser and the `quote` token buffer.
//!
//! Nothing in this file is proved. The parser's syntax trees are opaque
//! here; each function below hands out one layer of a tree, and a spec
//! function of the same shape names what it hands out, so that the code
//! that walks the tree can be verified against those names.

use vstd::prelude::*;
use quote::ToTokens;

verus! {

#[verifier::external_type_specification]
#[verifier::external_body]
pub struct ExItem(syn::Item);

#[verifier::external_type_specification]
#[verifier::external_body]
pub struct ExImplItem(syn::ImplItem);

#[verifier::external_type_specification]
#[verifier::external_body]
pub struct ExFnArg(syn::FnArg);

#[verifier::external_type_specification]
#[verifier::external_body]
pub struct ExTy(syn::Ty);

#[verifier::external_type_specification]
#[verifier::external_body]
pub struct ExPat(syn::Pat);

#[verifier::external_type_specification]
#[verifier::external_body]
pub struct ExPath(syn::Path);

#[verifier::external_type_specification]
#[verifier::external_body]
pub struct ExMutability(syn::Mutability);

#[verifier::external_type_specification]
#[verifier::external_body]
pub struct ExTokens(quote::Tokens);

/// What `syn::parse_item` makes of a source text: the item, or the
/// parser's message.
pub uninterp spec fn parsed_item(source: Seq<char>) -> Result<syn::Item, Seq<char>>;

/// For an `ItemKind::Impl`, its trait path, its self type and its members;
/// `None` for every other kind of item.
pub uninterp spec fn impl_parts(item: syn::Item) -> Option<
    (Option<syn::Path>, syn::Ty, Seq<syn::ImplItem>),
>;

/// For an `ImplItemKind::Method`, the method's name, its arguments and its
/// return type (`None` for `FunctionRetTy::Default`); `None` for every other
/// kind of member.
pub uninterp spec fn method_parts(member: syn::ImplItem) -> Option<
    (Seq<char>, Seq<syn::FnArg>, Option<syn::Ty>),
>;

/// `Ok` for a parameter: the pattern and the type of a `FnArg::Captured`,
/// no pattern and the type of a `FnArg::Ignored`. `Err` for a receiver: the
/// mutability of a `FnArg::SelfRef`, `None` for a `FnArg::SelfValue`.
pub uninterp spec fn argument_parts(argument: syn::FnArg) -> Result<
    (Option<syn::Pat>, syn::Ty),
    Option<syn::Mutability>,
>;

/// Whether a mutability is `Mutability::Mutable`.
pub uninterp spec fn is_mutable(mutability: syn::Mutability) -> bool;

/// For a `Pat::Ident`, its subpattern (`None` where it has none); `None`
/// for every other kind of pattern.
pub uninterp spec fn binding_subpattern(pattern: syn::Pat) -> Option<Option<syn::Pat>>;

/// The text that the `ToTokens` impl of `syn::Ty` prints into an empty
/// token buffer.
pub uninterp spec fn type_text(ty: syn::Ty) -> Seq<char>;

/// The text that the `ToTokens` impl of `syn::Path` prints into an empty
/// token buffer.
pub uninterp spec fn path_text(path: syn::Path) -> Seq<char>;

/// The text that a token buffer holds.
pub uninterp spec fn tokens_text(tokens: quote::Tokens) -> Seq<char>;

/// Whether the bytes at `i` are `b'` directly followed by a byte above
/// 0x7f: the start of a byte literal whose content is not ASCII.
pub open spec fn unreadable_byte_literal_at(bytes: Seq<u8>, i: int) -> bool {
    0 <= i && i + 2 < bytes.len() && bytes[i] == 98 && bytes[i + 1] == 39 && bytes[i + 2] >= 128
}

/// Whether a text, as UTF-8, holds the start of a byte literal whose
/// content is not ASCII. The parser cannot be asked to read such a text.
pub open spec fn unreadable_byte_literal(bytes: Seq<u8>) -> bool {
    exists|i: int| unreadable_byte_literal_at(bytes, i)
}

/// An item that the parser made of some text.
pub open spec fn parsed(item: syn::Item) -> bool {
    exists|source: Seq<char>| #[trigger] parsed_item(source) == Ok::<syn::Item, Seq<char>>(item)
}

/// `member` is member `i` of the implementation block `item`.
pub open spec fn member_of_item(item: syn::Item, i: int, member: syn::ImplItem) -> bool {
    impl_parts(item) matches Some(parts) && 0 <= i < parts.2.len() && parts.2[i] == member
}

/// A member of an implementation block that the parser made.
pub open spec fn parsed_member(member: syn::ImplItem) -> bool {
    exists|item: syn::Item, i: int| parsed(item) && #[trigger] member_of_item(item, i, member)
}

/// `argument` is argument `i` of the method `member`.
pub open spec fn argument_of_member(member: syn::ImplItem, i: int, argument: syn::FnArg) -> bool {
    method_parts(member) matches Some(parts) && 0 <= i < parts.1.len() && parts.1[i] == argument
}

/// An argument of a method that the parser made.
pub open spec fn parsed_argument(argument: syn::FnArg) -> bool {
    exists|member: syn::ImplItem, i: int|
        parsed_member(member) && #[trigger] argument_of_member(member, i, argument)
}

/// `ty` is the self type of the implementation block `item`.
pub open spec fn target_of_item(item: syn::Item, ty: syn::Ty) -> bool {
    impl_parts(item) matches Some(parts) && parts.1 == ty
}

/// `ty` is the return type of the method `member`.
pub open spec fn output_of_member(member: syn::ImplItem, ty: syn::Ty) -> bool {
    method_parts(member) matches Some(parts) && parts.2 == Some(ty)
}

/// `ty` is the type of the argument `argument`.
pub open spec fn type_of_argument(argument: syn::FnArg, ty: syn::Ty) -> bool {
    argument_parts(argument) matches Ok(parts) && parts.1 == ty
}

/// A type that the parser made: the self type of an implementation block,
/// the return type of a method or the type of an argument.
pub open spec fn parsed_type(ty: syn::Ty) -> bool {
    ||| exists|item: syn::Item| parsed(item) && #[trigger] target_of_item(item, ty)
    ||| exists|member: syn::ImplItem| parsed_member(member) && #[trigger] output_of_member(member, ty)
    ||| exists|argument: syn::FnArg|
        parsed_argument(argument) && #[trigger] type_of_argument(argument, ty)
}

/// `path` is the trait path of the implementation block `item`.
pub open spec fn capability_of_item(item: syn::Item, path: syn::Path) -> bool {
    impl_parts(item) matches Some(parts) && parts.0 == Some(path)
}

/// A trait path that the parser made.
pub open spec fn parsed_path(path: syn::Path) -> bool {
    exists|item: syn::Item| parsed(item) && #[trigger] capability_of_item(item, path)
}

/// The text of a token buffer after one more token: `quote` puts a single
/// space between two tokens, and none beside an empty one.
pub open spec fn appended(text: Seq<char>, token: Seq<char>) -> Seq<char> {
    if text.len() > 0 && token.len() > 0 {
        text + seq![' '] + token
    } else {
        text + token
    }
}

/// Calls `syn::parse_item`. The result is the parser's, under the name
/// `parsed_item`; nothing is claimed of which texts it accepts. Left out are
/// the texts on which the parser slices inside a character: those with a
/// byte literal that starts with a byte above 0x7f. The parser recurses as
/// deep as the text nests and takes its stack from the caller; as with
/// memory, nothing is claimed of how much there is.
#[verifier::external_body]
pub(crate) fn parse_item_text(source: &str) -> (r: Result<syn::Item, String>)
    requires
        !unreadable_byte_literal(vstd::utf8::encode_utf8(source@)),
    ensures
        match r {
            Ok(item) => parsed_item(source@) == Ok::<syn::Item, Seq<char>>(item),
            Err(message) => parsed_item(source@) == Err::<syn::Item, Seq<char>>(message@),
        },
{
    syn::parse_item(source)
}

/// Reads the `node` field of a `syn::Item` and tells `ItemKind::Impl` from
/// the other kinds, handing out copies of its trait path, self type and
/// members.
#[verifier::external_body]
pub(crate) fn item_impl_parts(item: &syn::Item) -> (r: Option<
    (Option<syn::Path>, syn::Ty, Vec<syn::ImplItem>),
>)
    ensures
        match r {
            Some((capability, target, members)) => impl_parts(*item) == Some(
                (capability, target, members@),
            ),
            None => impl_parts(*item) is None,
        },
{
    match &item.node {
        syn::ItemKind::Impl(_, _, _, capability, target, members) => Some(
            (capability.clone(), (**target).clone(), members.clone()),
        ),
        _ => None,
    }
}

/// Reads the `ident` and `node` fields of a `syn::ImplItem` and tells
/// `ImplItemKind::Method` from the other kinds, handing out the method's
/// name and copies of its arguments and return type.
#[verifier::external_body]
pub(crate) fn member_method_parts(member: &syn::ImplItem) -> (r: Option<
    (String, Vec<syn::FnArg>, Option<syn::Ty>),
>)
    ensures
        match r {
            Some((name, inputs, output)) => method_parts(*member) == Some(
                (name@, inputs@, output),
            ),
            None => method_parts(*member) is None,
        },
{
    match &member.node {
        syn::ImplItemKind::Method(sig, _) => {
            let output = match &sig.decl.output {
                syn::FunctionRetTy::Default => None,
                syn::FunctionRetTy::Ty(ty) => Some(ty.clone()),
            };
            Some((member.ident.as_ref().to_string(), sig.decl.inputs.clone(), output))
        },
        _ => None,
    }
}

/// Tells the four variants of `syn::FnArg` apart, handing out copies of the
/// pattern and the type where the variant has them, and the mutability of a
/// `SelfRef`.
#[verifier::external_body]
pub(crate) fn fn_arg_parts(argument: &syn::FnArg) -> (r: Result<
    (Option<syn::Pat>, syn::Ty),
    Option<syn::Mutability>,
>)
    ensures
        r == argument_parts(*argument),
{
    match argument {
        syn::FnArg::SelfRef(_, mutability) => Err(Some(*mutability)),
        syn::FnArg::SelfValue(_) => Err(None),
        syn::FnArg::Captured(pattern, ty) => Ok((Some(pattern.clone()), ty.clone())),
        syn::FnArg::Ignored(ty) => Ok((None, ty.clone())),
    }
}

/// Tells the two variants of `syn::Mutability` apart.
#[verifier::external_body]
pub(crate) fn mutability_is_mutable(mutability: &syn::Mutability) -> (r: bool)
    ensures
        r == is_mutable(*mutability),
{
    match mutability {
        syn::Mutability::Mutable => true,
        syn::Mutability::Immutable => false,
    }
}

/// Tells `Pat::Ident` from the other kinds of pattern, handing out a copy
/// of its subpattern.
#[verifier::external_body]
pub(crate) fn pattern_binding(pattern: &syn::Pat) -> (r: Option<Option<syn::Pat>>)
    ensures
        r == binding_subpattern(*pattern),
{
    match pattern {
        syn::Pat::Ident(_, _, subpattern) => Some(subpattern.as_deref().cloned()),
        _ => None,
    }
}

/// Calls `to_tokens` of `syn::Ty` on a buffer. Stated for an empty buffer
/// only: it then holds the type's text. Stated for types that the parser
/// made only: printing unwraps and indexes what the parser always fills.
#[verifier::external_body]
pub(crate) fn print_type(ty: &syn::Ty, tokens: &mut quote::Tokens)
    requires
        parsed_type(*ty),
        tokens_text(*old(tokens)).len() == 0,
    ensures
        tokens_text(*final(tokens)) == type_text(*ty),
{
    ty.to_tokens(tokens);
}

/// Calls `to_tokens` of `syn::Path` on a buffer. Stated for an empty buffer
/// only: it then holds the path's text. Stated for paths that the parser
/// made only, as for types.
#[verifier::external_body]
pub(crate) fn print_path(path: &syn::Path, tokens: &mut quote::Tokens)
    requires
        parsed_path(*path),
        tokens_text(*old(tokens)).len() == 0,
    ensures
        tokens_text(*final(tokens)) == path_text(*path),
{
    path.to_tokens(tokens);
}

/// Calls `quote::Tokens::new`: an empty buffer.
#[verifier::external_body]
pub(crate) fn tokens_new() -> (tokens: quote::Tokens)
    ensures
        tokens_text(tokens) == Seq::<char>::empty(),
{
    quote::Tokens::new()
}

/// Calls `quote::Tokens::append`: the token goes to the end of the buffer,
/// after a space where both the buffer and the token are non-empty.
#[verifier::external_body]
pub(crate) fn tokens_append(tokens: &mut quote::Tokens, token: &str)
    ensures
        tokens_text(*final(tokens)) == appended(tokens_text(*old(tokens)), token@),
{
    tokens.append(token);
}

/// Calls `quote::Tokens::into_string`: the text of the buffer.
#[verifier::external_body]
pub(crate) fn tokens_into_string(tokens: quote::Tokens) -> (text: String)
    ensures
        text@ == tokens_text(tokens),
{
    tokens.into_string()
}

} // verus!
