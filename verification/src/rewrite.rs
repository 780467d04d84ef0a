use vstd::prelude::*;
use vstd::string::StringExecFns;

use crate::decl::{Diagnostic, DiagnosticModel, FnDecl, FnDeclModel, TestDecl, TestDeclModel};

verus! {

/// The one message the transformation can produce on its own: it is attached
/// to any annotated declaration that lacks the asynchronous marker.
pub open spec fn missing_async_message() -> Seq<char> {
    "the async keyword is missing from the function declaration"@
}

/// What a valid asynchronous declaration is rewritten to: the same
/// attributes, visibility, name and return type, with the original body kept
/// to be wrapped.
pub open spec fn rewritten_model(d: FnDeclModel) -> TestDeclModel {
    TestDeclModel { attrs: d.attrs, vis: d.vis, name: d.name, ret: d.ret, body: d.body }
}

/// The diagnostic for a declaration without the asynchronous marker.
pub open spec fn missing_async_diagnostic(d: FnDeclModel) -> DiagnosticModel {
    DiagnosticModel { message: missing_async_message(), span: d.span }
}

/// The whole rewrite rule: a declaration with the asynchronous marker is
/// rewritten, one without it is rejected with the fixed diagnostic.
pub open spec fn rewrite_model(d: FnDeclModel) -> Result<TestDeclModel, DiagnosticModel> {
    if d.is_async {
        Ok(rewritten_model(d))
    } else {
        Err(missing_async_diagnostic(d))
    }
}

/// Rewrites one structured declaration into a synchronous test declaration,
/// or rejects it when the asynchronous marker is missing.
pub fn rewrite(input: FnDecl) -> (r: Result<TestDecl, Diagnostic>)
    ensures
        crate::decl::output_model(r) == rewrite_model(input@),
{
    if input.is_async {
        Ok(
            TestDecl {
                attrs: input.attrs,
                vis: input.vis,
                name: input.name,
                ret: input.ret,
                body: input.body,
            },
        )
    } else {
        Err(
            Diagnostic {
                message: String::from_str(
                    "the async keyword is missing from the function declaration",
                ),
                span: input.span,
            },
        )
    }
}

/// A declaration lacking the asynchronous marker yields exactly one
/// diagnostic, with the fixed message, anchored to the declaration's span,
/// and no rewritten declaration.
pub proof fn lemma_marker_required(d: FnDeclModel)
    requires
        !d.is_async,
    ensures
        rewrite_model(d) matches Err(g) && g.message == missing_async_message() && g.span
            == d.span,
{
}

/// A valid asynchronous declaration is rewritten with its attribute list,
/// visibility, name and return type unchanged, and its body carried over
/// unchanged to be wrapped.
pub proof fn lemma_signature_preserved(d: FnDeclModel)
    requires
        d.is_async,
    ensures
        rewrite_model(d) matches Ok(t) && t.attrs == d.attrs && t.vis == d.vis && t.name == d.name
            && t.ret == d.ret && t.body == d.body,
{
}

} // verus!
