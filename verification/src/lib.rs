//! A syntax-level test rewriter: given the declaration of a test function
//! written with asynchronous syntax, it emits an ordinary synchronous test
//! declaration with the same name, visibility, attributes and return type,
//! whose body drives the original asynchronous body to completion through
//! one blocking call into the external runtime and turns an error result
//! into a reported test failure. A declaration without the asynchronous
//! marker is rejected with a fixed compile-time diagnostic.

use vstd::prelude::*;
use vstd::string::StringSliceAdditionalSpecFns;

pub mod decl;
pub mod emit;
pub mod outcome;
pub mod parse;
pub mod rewrite;

pub use decl::{Diagnostic, FnDecl, Span, TestDecl};
pub use outcome::{resolve_outcome, run_test, TestOutcome};
pub use parse::MAX_SOURCE_BYTES;
pub use rewrite::rewrite;

verus! {

/// The whole transformation, from source text: parse the annotated
/// declaration through the collaborating parser, then rewrite it. The
/// result is the emitted synchronous test declaration, or the diagnostic
/// that stops compilation of the item: the parser's own when the text is not
/// one function declaration, the fixed missing-marker one when the
/// declaration is not asynchronous.
///
/// The collaborator pins down only part of its answer as a function of the
/// text (see `parse::parsed_of`), so the contract here says: some structured
/// declaration with the text's name and marker was read, and the result is
/// exactly the rewrite of that declaration — rewritten and name-preserving
/// when the marker is present, the fixed diagnostic when it is absent. The
/// length bound is `parse_decl`'s: it keeps the parser's recursion within
/// the stack.
pub fn async_test(item: &str) -> (r: Result<TestDecl, Diagnostic>)
    requires
        item.spec_bytes().len() <= MAX_SOURCE_BYTES,
    ensures
        match parse::parsed_of(item@) {
            Some(s) => {
                &&& exists|d: decl::FnDeclModel|
                    d.name == s.name && d.is_async == s.is_async
                        && #[trigger] rewrite::rewrite_model(d) == decl::output_model(r)
                &&& s.is_async ==> (r matches Ok(t) && t@.name == s.name)
                &&& !s.is_async ==> (r matches Err(g) && g@.message
                    == rewrite::missing_async_message())
            },
            None => r is Err,
        },
{
    match parse::parse_decl(item) {
        Ok(d) => {
            let ghost dm = d@;
            let r = rewrite::rewrite(d);
            proof {
                assert(rewrite::rewrite_model(dm) == decl::output_model(r));
            }
            r
        },
        Err(g) => Err(g),
    }
}

} // verus!
