use vstd::prelude::*;

use crate::error::ExpandError;
use syn_select::Selector;

verus! {

#[verifier::external_type_specification]
pub struct ExFile(syn::File);

#[verifier::external_type_specification]
#[verifier::external_body]
pub struct ExItem(syn::Item);

#[verifier::external_type_specification]
#[verifier::external_body]
pub struct ExAttribute(syn::Attribute);

#[verifier::external_type_specification]
#[verifier::external_body]
pub struct ExSelector(syn_select::Selector);

/// Whether `f` is a file that `syn::parse_file` can give for `text`.
pub uninterp spec fn parses_to(text: Seq<char>, f: syn::File) -> bool;

/// The items that `Selector::apply_to` gives for `file`.
pub uninterp spec fn selected_of(selector: Selector, file: syn::File) -> Seq<syn::Item>;

/// The source text that `syn::File` prints as.
pub uninterp spec fn printed_of(file: syn::File) -> Seq<char>;

/// Whether `syn::parse_file` accepts the text as a complete source file.
pub open spec fn parses(text: Seq<char>) -> bool {
    exists|f: syn::File| parses_to(text, f)
}

/// Relies on `syn::parse_file`: it succeeds exactly on text that is a
/// complete source file, which depends on the text alone, and gives a file
/// parsed from that text.
#[verifier::external_body]
fn parse_file(text: &str) -> (r: Option<syn::File>)
    ensures
        r matches Some(f) ==> parses_to(text@, f),
        r is None ==> forall|f: syn::File| !parses_to(text@, f),
{
    syn::parse_file(text).ok()
}

/// Relies on `syn_select::Selector::apply_to`: the items of `file` that
/// the selector matches, which depend on the selector and the file alone.
#[verifier::external_body]
fn select_items(selector: &Selector, file: &syn::File) -> (r: Vec<syn::Item>)
    ensures
        r@ == selected_of(*selector, *file),
{
    selector.apply_to(file)
}

/// Relies on `quote::ToTokens::to_token_stream` for `syn::File`, printed
/// with `to_string`: the file as source text, which depends on the file alone.
#[verifier::external_body]
fn print_file(file: &syn::File) -> (r: String)
    ensures
        r@ == printed_of(*file),
{
    quote::ToTokens::to_token_stream(file).to_string()
}

/// The file without its shebang and file-level attributes, holding exactly
/// `items`.
pub fn restrict(file: syn::File, items: Vec<syn::Item>) -> (r: syn::File)
    ensures
        r.shebang is None,
        r.attrs@.len() == 0,
        r.items@ == items@,
{
    let mut file = file;
    file.shebang = None;
    file.attrs.clear();
    file.items = items;
    file
}

/// The file restricted to the items that `selector` matches, without its
/// shebang and file-level attributes.
pub fn narrow(file: syn::File, selector: &Selector) -> (r: syn::File)
    ensures
        r.shebang is None,
        r.attrs@.len() == 0,
        r.items@ == selected_of(*selector, file),
{
    let items = select_items(selector, &file);
    restrict(file, items)
}

/// Narrows expanded source text to the items that `selector` selects, and
/// prints the result. Text that is not a complete source file fails with
/// `ParseError`.
pub fn filter(content: String, selector: Selector) -> (r: Result<String, ExpandError>)
    ensures
        r is Ok <==> parses(content@),
        r is Err ==> r == Err::<String, ExpandError>(ExpandError::ParseError),
        r matches Ok(t) ==> exists|f0: syn::File, f: syn::File|
            parses_to(content@, f0) && f.shebang is None && f.attrs@.len() == 0 && f.items@
                == selected_of(selector, f0) && t@ == printed_of(f),
{
    match parse_file(content.as_str()) {
        None => Err(ExpandError::ParseError),
        Some(file) => {
            let narrowed = narrow(file, &selector);
            Ok(print_file(&narrowed))
        },
    }
}

} // verus!
