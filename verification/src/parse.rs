use vstd::prelude::*;
use vstd::string::StringSliceAdditionalSpecFns;

use quote::ToTokens;
use syn::spanned::Spanned;

use crate::decl::{Diagnostic, FnDecl, Span};

verus! {

/// The parsing collaborator descends recursively, so it needs stack in
/// proportion to the input's nesting, and only the input's length bounds
/// that. The library refuses longer texts rather than risk exhausting the
/// stack.
pub const MAX_SOURCE_BYTES: usize = 4096;

/// The pieces of the collaborator's answer that are functions of the source
/// text alone: when the text parses as one function declaration, the
/// declared name and whether the asynchronous marker is present.
pub ghost struct DeclSummary {
    pub name: Seq<char>,
    pub is_async: bool,
}

/// What the parsing collaborator answers for a given source text, insofar as
/// the answer depends on the text alone: whether the text parses as one
/// function declaration, and then the declared name and the marker's
/// presence. The spans and the exact spacing of the printed attributes,
/// visibility, return type and body also depend on which token printer is
/// ambient (inside a macro expansion the compiler's own, elsewhere a
/// fallback), so they are deliberately not part of this answer.
pub uninterp spec fn parsed_of(src: Seq<char>) -> Option<DeclSummary>;

/// Relies on `syn::parse_str::<syn::ItemFn>` to parse the source text as one
/// function declaration, on `quote::ToTokens` to print each of its pieces
/// back as text, and on `proc_macro2::Span::byte_range` for a byte span of
/// the whole declaration (of the error, when parsing fails). Whether the
/// text parses, the declared name and the marker's presence depend on the
/// text alone; the printed spacing and the spans vary with the ambient
/// printer and toolchain, so nothing is claimed of them. The length bound
/// keeps the parser's recursion within the stack.
#[verifier::external_body]
pub(crate) fn parse_decl(src: &str) -> (r: Result<FnDecl, Diagnostic>)
    requires
        src.spec_bytes().len() <= MAX_SOURCE_BYTES,
    ensures
        match r {
            Ok(d) => parsed_of(src@) matches Some(s) && d@.name == s.name && d@.is_async
                == s.is_async,
            Err(_) => parsed_of(src@) is None,
        },
{
    match syn::parse_str::<syn::ItemFn>(src) {
        Ok(f) => Ok(FnDecl {
            attrs: f.attrs.iter().map(|a| a.to_token_stream().to_string()).collect(),
            vis: f.vis.to_token_stream().to_string(),
            name: f.sig.ident.to_string(),
            ret: f.sig.output.to_token_stream().to_string(),
            body: f.block.to_token_stream().to_string(),
            is_async: f.sig.asyncness.is_some(),
            span: Span::of_range(f.span().byte_range()),
        }),
        Err(e) => Err(Diagnostic {
            message: e.to_string(),
            span: Span::of_range(e.span().byte_range()),
        }),
    }
}

} // verus!
