//! Reading a declaration from the syntax tree that `syn` parsed.
//!
//! Nothing in this module looks into the tree itself. What a tree holds is
//! named by four functions without a body, and four small functions, whose
//! contracts are taken on trust, hand it out as plain text. All the rest is
//! proved from those contracts.

use crate::async_read::{expand_async_read, read_outcome};
use crate::async_write::{expand_async_write, write_outcome};
use crate::descriptor::{DeclKind, DescriptorView, Field, FieldView, StructDescriptor};
use crate::parse::DeriveError;
use vstd::prelude::*;

verus! {

/// `syn::DeriveInput`, the syntax tree of a struct, an enum or a union. Its
/// fields are not seen here.
#[verifier::external_type_specification]
#[verifier::external_body]
pub struct ExDeriveInput(syn::DeriveInput);

/// Which of the three kinds of declaration `input` is: the variant of its
/// field `data`.
pub uninterp spec fn declared_kind(input: syn::DeriveInput) -> DeclKind;

/// The name of the type that `input` declares, as its identifier prints.
pub uninterp spec fn declared_name(input: syn::DeriveInput) -> Seq<char>;

/// The generic parameters of the type that `input` declares, as they print:
/// with their angle brackets and bounds and without a `where` clause; empty
/// where there are none.
pub uninterp spec fn declared_generics(input: syn::DeriveInput) -> Seq<char>;

/// The fields of the struct that `input` declares, in declaration order: of
/// each its name as the identifier prints, its type as it prints, and the
/// paths of its attributes as they print. Nothing is said of it where `input`
/// is no struct.
pub uninterp spec fn declared_fields(input: syn::DeriveInput) -> Seq<FieldView>;

/// What the generators read of `input`. An enum or a union is taken to have
/// no field: its variants and fields are never looked at.
pub open spec fn declared(input: syn::DeriveInput) -> DescriptorView {
    DescriptorView {
        kind: declared_kind(input),
        name: declared_name(input),
        generics: declared_generics(input),
        fields: if declared_kind(input) == DeclKind::Struct {
            declared_fields(input)
        } else {
            Seq::empty()
        },
    }
}

/// Whether `input` is a struct with a field at `index`.
pub open spec fn has_field(input: syn::DeriveInput, index: int) -> bool {
    declared_kind(input) == DeclKind::Struct && 0 <= index < declared_fields(input).len()
}

/// Tells the three variants of `syn::Data` in `input.data` apart. All that is
/// claimed is that the same tree gives the same answer.
#[verifier::external_body]
fn kind_of(input: &syn::DeriveInput) -> (kind: DeclKind)
    ensures
        kind == declared_kind(*input),
{
    match &input.data {
        syn::Data::Struct(_) => DeclKind::Struct,
        syn::Data::Enum(_) => DeclKind::Enum,
        syn::Data::Union(_) => DeclKind::Union,
    }
}

/// Prints `input.ident` through `quote::ToTokens::to_token_stream` and the
/// `Display` of `proc_macro2::TokenStream`. The result is the identifier's
/// text; all that is claimed is that it is the same for the same tree.
#[verifier::external_body]
fn name_of(input: &syn::DeriveInput) -> (name: String)
    ensures
        name@ == declared_name(*input),
{
    quote::ToTokens::to_token_stream(&input.ident).to_string()
}

/// Prints `input.generics` through `quote::ToTokens::to_token_stream` and the
/// `Display` of `proc_macro2::TokenStream`. `syn` writes the angle brackets
/// and the parameters, lifetimes first, and nothing at all where there is no
/// parameter; all that is claimed is that the text is the same for the same
/// tree.
#[verifier::external_body]
fn generics_of(input: &syn::DeriveInput) -> (generics: String)
    ensures
        generics@ == declared_generics(*input),
{
    quote::ToTokens::to_token_stream(&input.generics).to_string()
}

/// `syn::Fields::iter` on the fields of a struct, taken to its item `index`
/// with `Iterator::nth`. Of that `syn::Field` it hands out the name, the type
/// and the path of each attribute in `attrs`, each printed through
/// `quote::ToTokens::to_token_stream` and the `Display` of
/// `proc_macro2::TokenStream`. The iterator yields the fields in declaration
/// order, so there is an item `index` exactly where the struct has that many
/// fields and more; for an enum or a union the result is `None`. Of the texts
/// all that is claimed is that they are the same for the same tree.
#[verifier::external_body]
fn struct_field(input: &syn::DeriveInput, index: usize) -> (field: Option<Field>)
    ensures
        field is Some <==> has_field(*input, index as int),
        field matches Some(f) ==> f@ == declared_fields(*input)[index as int],
{
    let field = match &input.data {
        syn::Data::Struct(data) => data.fields.iter().nth(index)?,
        syn::Data::Enum(_) => return None,
        syn::Data::Union(_) => return None,
    };
    Some(
        Field {
            name: field.ident.as_ref().map(|i| quote::ToTokens::to_token_stream(i).to_string()),
            ty: quote::ToTokens::to_token_stream(&field.ty).to_string(),
            markers: field.attrs.iter().map(
                |a| quote::ToTokens::to_token_stream(&a.path).to_string(),
            ).collect(),
        },
    )
}

/// Reads from `input` what the generators need: the kind of declaration, the
/// name, the generic parameters and, of a struct, every field.
pub fn describe(input: &syn::DeriveInput) -> (d: StructDescriptor)
    ensures
        d@ == declared(*input),
{
    let kind = kind_of(input);
    let name = name_of(input);
    let generics = generics_of(input);
    let mut fields: Vec<Field> = Vec::new();
    loop
        invariant
            fields.len() <= declared(*input).fields.len(),
            forall|k: int|
                0 <= k < fields.len() ==> (#[trigger] fields@[k])@ == declared(*input).fields[k],
        ensures
            fields.len() == declared(*input).fields.len(),
        decreases declared(*input).fields.len() - fields.len(),
    {
        match struct_field(input, fields.len()) {
            Some(field) => {
                fields.push(field);
            },
            None => {
                break ;
            },
        }
    }
    let d = StructDescriptor { kind, name, generics, fields };
    assert(d@.fields =~= declared(*input).fields);
    d
}

/// Generates the implementation of `tokio::io::AsyncRead` for the declaration
/// `input`, as source text to be parsed in place of the derive.
pub fn derive_async_read(input: &syn::DeriveInput) -> (r: Result<String, DeriveError>)
    ensures
        match r {
            Ok(code) => read_outcome(declared(*input)) == Ok::<Seq<char>, DeriveError>(code@),
            Err(e) => read_outcome(declared(*input)) == Err::<Seq<char>, DeriveError>(e),
        },
{
    let d = describe(input);
    expand_async_read(&d)
}

/// Generates the implementation of `tokio::io::AsyncWrite` for the declaration
/// `input`, as source text to be parsed in place of the derive.
pub fn derive_async_write(input: &syn::DeriveInput) -> (r: Result<String, DeriveError>)
    ensures
        match r {
            Ok(code) => write_outcome(declared(*input)) == Ok::<Seq<char>, DeriveError>(code@),
            Err(e) => write_outcome(declared(*input)) == Err::<Seq<char>, DeriveError>(e),
        },
{
    let d = describe(input);
    expand_async_write(&d)
}

} // verus!
