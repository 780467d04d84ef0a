use vstd::prelude::*;
use vstd::string::StringExecFns;

use crate::decl::{FnDeclModel, Span, TestDecl, TestDeclModel};
use crate::rewrite::{missing_async_message, rewrite_model};

verus! {

/// The marker the ambient test-discovery mechanism expects on an ordinary
/// synchronous test function. It is emitted unchanged, ahead of the input's
/// own attributes.
pub open spec fn test_marker_text() -> Seq<char> {
    "#[::core::prelude::v1::test]"@
}

/// The attribute block of the emitted declaration: each attribute's text on
/// a line of its own, in the order given.
pub open spec fn attr_lines(attrs: Seq<Seq<char>>) -> Seq<char>
    decreases attrs.len(),
{
    if attrs.len() == 0 {
        Seq::empty()
    } else {
        attr_lines(attrs.drop_last()) + attrs.last() + "\n"@
    }
}

/// The visibility qualifier as it stands in the emitted signature: nothing
/// for a private item, the qualifier and a space otherwise.
pub open spec fn vis_part(vis: Seq<char>) -> Seq<char> {
    if vis.len() == 0 {
        vis
    } else {
        vis + " "@
    }
}

/// The return type as it stands in an emitted signature: nothing for unit,
/// the arrow and type and a space otherwise.
pub open spec fn ret_part(ret: Seq<char>) -> Seq<char> {
    if ret.len() == 0 {
        ret
    } else {
        ret + " "@
    }
}

/// The emitted body for a declaration with a unit return type: the original
/// asynchronous body re-declared as a nested asynchronous function, driven
/// to completion by one blocking call into the external runtime. A unit body
/// has no error result to convert; a failed assertion inside it surfaces as
/// an ordinary panic-based test failure.
pub open spec fn unit_wrapper_body(body: Seq<char>) -> Seq<char> {
    "{\n    async fn test_inner() "@ + body
        + "\n    async_std::task::block_on(test_inner())\n}"@
}

/// The emitted body for a declaration with a result-like return type: the
/// original asynchronous body re-declared as a nested asynchronous function,
/// driven to completion by one blocking call into the external runtime, and
/// its resolved result converted exactly as `crate::outcome` models it — a
/// success value is returned, type-compatible with the declared return type,
/// an error becomes an unconditional reported failure carrying the error's
/// displayable text after the fixed prefix.
pub open spec fn result_wrapper_body(ret: Seq<char>, body: Seq<char>) -> Seq<char> {
    "{\n    async fn test_inner() "@ + ret + " "@ + body
        + "\n    match async_std::task::block_on(test_inner()) {\n        Ok(value) => Ok(value),\n        Err(error) => panic!(\"Error in test: {}\", error),\n    }\n}"@
}

/// The body of the emitted synchronous function, by the shape of the
/// declared return type.
pub open spec fn wrapper_body_text(t: TestDeclModel) -> Seq<char> {
    if t.ret.len() == 0 {
        unit_wrapper_body(t.body)
    } else {
        result_wrapper_body(t.ret, t.body)
    }
}

/// The full text of the emitted declaration: the test marker, the input's
/// attributes, and the input's visibility, name and return type around the
/// wrapper body.
pub open spec fn render_model(t: TestDeclModel) -> Seq<char> {
    test_marker_text() + "\n"@ + attr_lines(t.attrs) + vis_part(t.vis) + "fn "@ + t.name + "() "@
        + ret_part(t.ret) + wrapper_body_text(t)
}

/// Prints a rewritten declaration as the replacement source text.
pub fn render(t: &TestDecl) -> (r: String)
    ensures
        r@ == render_model(t@),
{
    let ghost m = t@;
    let mut out = String::from_str("#[::core::prelude::v1::test]");
    out.append("\n");
    let mut i: usize = 0;
    while i < t.attrs.len()
        invariant
            i <= t.attrs.len(),
            m == t@,
            out@ == test_marker_text() + "\n"@ + attr_lines(m.attrs.take(i as int)),
        decreases t.attrs.len() - i,
    {
        let attr = &t.attrs[i];
        out.append(attr.as_str());
        out.append("\n");
        proof {
            assert(m.attrs.take(i + 1).drop_last() =~= m.attrs.take(i as int));
            assert(out@ =~= test_marker_text() + "\n"@ + attr_lines(m.attrs.take(i + 1)));
        }
        i = i + 1;
    }
    proof {
        assert(m.attrs.take(t.attrs.len() as int) =~= m.attrs);
    }
    if !t.vis.as_str().is_empty() {
        out.append(t.vis.as_str());
        out.append(" ");
    }
    proof {
        assert(out@ =~= test_marker_text() + "\n"@ + attr_lines(m.attrs) + vis_part(m.vis));
    }
    out.append("fn ");
    out.append(t.name.as_str());
    out.append("() ");
    if !t.ret.as_str().is_empty() {
        out.append(t.ret.as_str());
        out.append(" ");
    }
    proof {
        assert(out@ =~= test_marker_text() + "\n"@ + attr_lines(m.attrs) + vis_part(m.vis)
            + "fn "@ + m.name + "() "@ + ret_part(m.ret));
    }
    out.append("{\n    async fn test_inner() ");
    if t.ret.as_str().is_empty() {
        out.append(t.body.as_str());
        out.append("\n    async_std::task::block_on(test_inner())\n}");
    } else {
        out.append(t.ret.as_str());
        out.append(" ");
        out.append(t.body.as_str());
        out.append(
            "\n    match async_std::task::block_on(test_inner()) {\n        Ok(value) => Ok(value),\n        Err(error) => panic!(\"Error in test: {}\", error),\n    }\n}",
        );
    }
    proof {
        assert(out@ =~= render_model(m));
    }
    out
}

/// The emitted declaration read back as an input declaration: the test
/// marker ahead of the original attributes, the same visibility, name and
/// return type, the wrapper as the body — each piece as this library prints
/// it; a re-parsing collaborator may space the printed pieces differently —
/// and, decisively, no asynchronous marker, since the emitted function is an
/// ordinary synchronous one.
pub open spec fn emitted_decl_model(t: TestDeclModel, span: Span) -> FnDeclModel {
    FnDeclModel {
        attrs: seq![test_marker_text()] + t.attrs,
        vis: t.vis,
        name: t.name,
        ret: t.ret,
        body: wrapper_body_text(t),
        is_async: false,
        span,
    }
}

/// The rewrite is not silently applied twice: the declaration it emits
/// carries no asynchronous marker, so rewriting that declaration again, at
/// whatever span it is then read — and however a re-parse spaces its printed
/// pieces, which leaves the marker's absence untouched — is rejected with
/// the fixed diagnostic instead of wrapping the body a second time.
pub proof fn lemma_rewrite_not_reapplied(d: FnDeclModel, span: Span)
    requires
        d.is_async,
    ensures
        rewrite_model(d) matches Ok(t) && rewrite_model(emitted_decl_model(t, span)) matches Err(g)
            && g.message == missing_async_message() && g.span == span,
{
}

} // verus!
