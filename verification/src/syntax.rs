//! The calls into `syn` and `quote` that read Rust source. Nothing here is
//! proved: what each function promises is taken on trust from those crates.

use vstd::prelude::*;
use quote::ToTokens;
use crate::expand::FnItem;

verus! {

/// `syn::Meta`, the content of an attribute; carried through unread.
#[verifier::external_type_specification]
#[verifier::external_body]
pub struct ExMeta(syn::Meta);

/// `syn::Item`, any one item; carried through unread.
#[verifier::external_type_specification]
#[verifier::external_body]
pub struct ExItem(syn::Item);

/// `syn::ItemFn`, a function definition; carried through unread.
#[verifier::external_type_specification]
#[verifier::external_body]
pub struct ExItemFn(syn::ItemFn);

/// `syn::Error`, the parser's complaint; carried through unread.
#[verifier::external_type_specification]
#[verifier::external_body]
pub struct ExError(syn::Error);

/// `syn::parse_str::<syn::Meta>`: reads the whole of `args` as the content of
/// an attribute. Nothing is claimed of which texts are accepted.
#[verifier::external_body]
pub(crate) fn parse_meta(args: &str) -> Result<syn::Meta, syn::Error> {
    syn::parse_str::<syn::Meta>(args)
}

/// `syn::Path::get_ident` on the path of a `syn::Meta::Path`, printed with
/// the identifier's `Display`: the identifier where the content is a bare
/// path of one plain segment, nothing for any other content. Nothing is
/// claimed of the text returned.
#[verifier::external_body]
pub(crate) fn meta_ident(meta: &syn::Meta) -> Option<String> {
    match meta {
        syn::Meta::Path(path) => path.get_ident().map(|ident| ident.to_string()),
        _ => None,
    }
}

/// `syn::parse_str::<syn::Item>`: reads the whole of `input` as one item.
/// Nothing is claimed of which texts are accepted.
#[verifier::external_body]
pub(crate) fn parse_item(input: &str) -> Result<syn::Item, syn::Error> {
    syn::parse_str::<syn::Item>(input)
}

/// Hands out the function of a `syn::Item::Fn`, and nothing for any other
/// kind of item.
#[verifier::external_body]
pub(crate) fn item_fn(item: syn::Item) -> Option<syn::ItemFn> {
    match item {
        syn::Item::Fn(function) => Some(function),
        _ => None,
    }
}

/// Prints each part of a parsed function with `quote::ToTokens`, and its
/// name with the identifier's `Display`. Spacing between tokens is the
/// printer's choice, so nothing is claimed of the texts returned.
#[verifier::external_body]
pub(crate) fn function_parts(function: &syn::ItemFn) -> FnItem {
    FnItem {
        attrs: function.attrs.iter().map(|a| a.to_token_stream().to_string()).collect(),
        vis: function.vis.to_token_stream().to_string(),
        sig: function.sig.to_token_stream().to_string(),
        ident: function.sig.ident.to_string(),
        stmts: function.block.stmts.iter().map(|s| s.to_token_stream().to_string()).collect(),
    }
}

/// The `Display` of `syn::Error`: the message of the first problem the
/// parser met.
#[verifier::external_body]
pub(crate) fn error_message(error: &syn::Error) -> String {
    error.to_string()
}

} // verus!
