//! From source text to the syntax model, by way of the `syn` parser.
//!
//! The parser's own tree stays opaque to the proofs. What this module states
//! of it is what the parser's source shows; everything else about a parsed
//! item is only known once it has been read into the syntax model.

use vstd::prelude::*;
use quote::ToTokens;
use crate::syntax::{FunctionItem, ItemKind, TypeItem};

verus! {

/// A whole parsed file, as `syn` holds it.
#[verifier::external_type_specification]
#[verifier::external_body]
pub struct ExFile(syn::File);

/// An item of a file, of a module or of a block, as `syn` holds it.
#[verifier::external_type_specification]
#[verifier::external_body]
pub struct ExItem(syn::Item);

/// The signature of a function, as `syn` holds it.
#[verifier::external_type_specification]
#[verifier::external_body]
pub struct ExSignature(syn::Signature);

/// A visibility qualifier, written or not, as `syn` holds it.
#[verifier::external_type_specification]
#[verifier::external_body]
pub struct ExVisibility(syn::Visibility);

/// An identifier, as `syn` holds it.
#[verifier::external_type_specification]
#[verifier::external_body]
pub struct ExIdent(syn::Ident);

/// A formal parameter of a function, as `syn` holds it.
#[verifier::external_type_specification]
#[verifier::external_body]
pub struct ExFnArg(syn::FnArg);

/// A type, as `syn` holds it.
#[verifier::external_type_specification]
#[verifier::external_body]
pub struct ExType(syn::Type);

/// The error with which `syn` rejects a text.
#[verifier::external_type_specification]
#[verifier::external_body]
pub struct ExError(syn::Error);

/// Whether `syn::parse_str` accepts `content` as a whole Rust file.
pub uninterp spec fn parses_as_file(content: Seq<char>) -> bool;

/// Why a text was rejected.
#[derive(Debug, Clone, PartialEq, Eq)]
pub struct ParseFailure {
    /// The parser's message.
    pub message: String,
}

/// The items that yield a record, told apart from all others, each with the
/// parts that are read of it.
enum Shape<'a> {
    Function(&'a syn::Visibility, &'a syn::Signature),
    Struct(&'a syn::Visibility, &'a syn::Ident),
    Enum(&'a syn::Visibility, &'a syn::Ident),
    Other,
}

/// The parts of a signature that are read.
struct SignatureParts<'a> {
    ident: &'a syn::Ident,
    is_async: bool,
    arguments: Vec<&'a syn::FnArg>,
    return_type: Option<&'a syn::Type>,
}

/// `syn::parse_str::<syn::File>`: parses `content` as a whole file. Whether it
/// succeeds depends on `content` alone; nothing is claimed of the tree or of
/// the error that comes back.
#[verifier::external_body]
fn parse_file_text(content: &str) -> (parsed: Result<syn::File, syn::Error>)
    ensures
        parsed is Ok <==> parses_as_file(content@),
{
    syn::parse_str::<syn::File>(content)
}

/// `syn::Error`'s `Display`: the message of the error.
#[verifier::external_body]
fn error_message(error: &syn::Error) -> (message: String) {
    error.to_string()
}

/// Tells the variants `Fn`, `Struct` and `Enum` of `syn::Item` apart from
/// each other and from the rest, and hands out the fields that are read.
#[verifier::external_body]
fn classify(item: &syn::Item) -> (shape: Shape<'_>) {
    match item {
        syn::Item::Fn(item_fn) => Shape::Function(&item_fn.vis, &item_fn.sig),
        syn::Item::Struct(item_struct) => Shape::Struct(&item_struct.vis, &item_struct.ident),
        syn::Item::Enum(item_enum) => Shape::Enum(&item_enum.vis, &item_enum.ident),
        _ => Shape::Other,
    }
}

/// Hands out the fields of a `syn::Signature` that are read: the identifier,
/// whether `asyncness` holds a token, the parameters in order, and the type
/// that `syn::ReturnType::Type` holds, if the return type is of that variant.
#[verifier::external_body]
fn signature_parts(signature: &syn::Signature) -> (parts: SignatureParts<'_>) {
    SignatureParts {
        ident: &signature.ident,
        is_async: signature.asyncness.is_some(),
        arguments: signature.inputs.iter().collect(),
        return_type: match &signature.output {
            syn::ReturnType::Default => None,
            syn::ReturnType::Type(_, ty) => Some(ty),
        },
    }
}

/// `proc_macro2::Ident`'s `Display`: the identifier as text. It is never
/// empty: `proc_macro2` refuses to build an empty `Ident`, and prints a raw
/// one behind `r#`.
#[verifier::external_body]
fn print_ident(ident: &syn::Ident) -> (text: String)
    ensures
        text@.len() > 0,
{
    ident.to_string()
}

/// The tokens of a visibility, by `quote::ToTokens`, printed by
/// `proc_macro2::TokenStream`'s `Display`.
#[verifier::external_body]
fn print_visibility(visibility: &syn::Visibility) -> (text: String) {
    visibility.to_token_stream().to_string()
}

/// The tokens of a formal parameter, by `quote::ToTokens`, printed by
/// `proc_macro2::TokenStream`'s `Display`.
#[verifier::external_body]
fn print_argument(argument: &syn::FnArg) -> (text: String) {
    argument.to_token_stream().to_string()
}

/// The tokens of a type, by `quote::ToTokens`, printed by
/// `proc_macro2::TokenStream`'s `Display`.
#[verifier::external_body]
fn print_type(ty: &syn::Type) -> (text: String) {
    ty.to_token_stream().to_string()
}

/// Parses `content` as a Rust source file.
///
/// The result is the parser's tree exactly when the parser accepts the text;
/// otherwise it is the parser's message.
pub fn parse_source(content: &str) -> (parsed: Result<syn::File, ParseFailure>)
    ensures
        parsed is Ok <==> parses_as_file(content@),
{
    match parse_file_text(content) {
        Ok(file) => Ok(file),
        Err(error) => Err(ParseFailure { message: error_message(&error) }),
    }
}

fn read_function(visibility: &syn::Visibility, signature: &syn::Signature) -> (item: FunctionItem)
    ensures
        item.wf(),
{
    let parts = signature_parts(signature);
    let mut inputs: Vec<String> = Vec::new();
    let mut i: usize = 0;
    while i < parts.arguments.len()
        invariant
            i <= parts.arguments.len(),
            inputs.len() == i,
        decreases parts.arguments.len() - i,
    {
        inputs.push(print_argument(parts.arguments[i]));
        i = i + 1;
    }
    let output = match parts.return_type {
        Some(ty) => Some(print_type(ty)),
        None => None,
    };
    FunctionItem {
        name: print_ident(parts.ident),
        is_async: parts.is_async,
        inputs,
        output,
        visibility: print_visibility(visibility),
    }
}

fn read_type(visibility: &syn::Visibility, ident: &syn::Ident) -> (item: TypeItem)
    ensures
        item.wf(),
{
    TypeItem { name: print_ident(ident), visibility: print_visibility(visibility) }
}

/// Reads an item of a parsed file: its kind and, for a function, a struct
/// or an enum, what the item shows of itself. A function item has one input
/// for each of its parameters and an output just when its return type is
/// written. Every other item reads as `ItemKind::Other`.
pub fn item_kind(item: &syn::Item) -> (kind: ItemKind)
    ensures
        kind.wf(),
{
    match classify(item) {
        Shape::Function(visibility, signature) => ItemKind::Function(
            read_function(visibility, signature),
        ),
        Shape::Struct(visibility, ident) => ItemKind::Struct(read_type(visibility, ident)),
        Shape::Enum(visibility, ident) => ItemKind::Enum(read_type(visibility, ident)),
        Shape::Other => ItemKind::Other,
    }
}

} // verus!
