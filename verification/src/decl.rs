use vstd::prelude::*;

verus! {

/// A half-open byte range into the source text of a declaration, used to
/// anchor a diagnostic to the place it talks about.
#[derive(Clone, Copy, PartialEq, Eq, Structural, Debug)]
pub struct Span {
    pub start: usize,
    pub end: usize,
}

impl Span {
    /// The span covering the byte positions of `range`.
    pub fn of_range(range: core::ops::Range<usize>) -> (s: Span)
        ensures
            s.start == range.start,
            s.end == range.end,
    {
        Span { start: range.start, end: range.end }
    }
}

/// The structured view of one function declaration, as the parsing
/// collaborator hands it over: every piece the rewrite reads, as plain text.
///
/// `attrs` holds the printed form of each attribute, in order; `vis` is the
/// printed visibility qualifier (empty for a private item); `ret` is the
/// printed return type, arrow included (empty when the function returns
/// unit); `body` is the printed statement block, braces included.
pub struct FnDecl {
    pub attrs: Vec<String>,
    pub vis: String,
    pub name: String,
    pub ret: String,
    pub body: String,
    pub is_async: bool,
    pub span: Span,
}

/// The mathematical value of a `FnDecl`: the same pieces as sequences of
/// characters.
pub ghost struct FnDeclModel {
    pub attrs: Seq<Seq<char>>,
    pub vis: Seq<char>,
    pub name: Seq<char>,
    pub ret: Seq<char>,
    pub body: Seq<char>,
    pub is_async: bool,
    pub span: Span,
}

impl View for FnDecl {
    type V = FnDeclModel;

    open spec fn view(&self) -> FnDeclModel {
        FnDeclModel {
            attrs: self.attrs.deep_view(),
            vis: self.vis@,
            name: self.name@,
            ret: self.ret@,
            body: self.body@,
            is_async: self.is_async,
            span: self.span,
        }
    }
}

/// The synchronous test declaration the rewrite emits: same attributes,
/// visibility, name and return type as the input, the asynchronous marker
/// gone, and the input's body kept aside to be wrapped by the blocking
/// adapter when the declaration is printed.
pub struct TestDecl {
    pub attrs: Vec<String>,
    pub vis: String,
    pub name: String,
    pub ret: String,
    pub body: String,
}

/// The mathematical value of a `TestDecl`.
pub ghost struct TestDeclModel {
    pub attrs: Seq<Seq<char>>,
    pub vis: Seq<char>,
    pub name: Seq<char>,
    pub ret: Seq<char>,
    pub body: Seq<char>,
}

impl View for TestDecl {
    type V = TestDeclModel;

    open spec fn view(&self) -> TestDeclModel {
        TestDeclModel {
            attrs: self.attrs.deep_view(),
            vis: self.vis@,
            name: self.name@,
            ret: self.ret@,
            body: self.body@,
        }
    }
}

/// A compile-time error value: a message anchored to the span of the
/// declaration it complains about.
pub struct Diagnostic {
    pub message: String,
    pub span: Span,
}

/// The mathematical value of a `Diagnostic`.
pub ghost struct DiagnosticModel {
    pub message: Seq<char>,
    pub span: Span,
}

impl View for Diagnostic {
    type V = DiagnosticModel;

    open spec fn view(&self) -> DiagnosticModel {
        DiagnosticModel { message: self.message@, span: self.span }
    }
}

/// The value of a whole transformation result.
pub open spec fn output_model(r: Result<TestDecl, Diagnostic>) -> Result<
    TestDeclModel,
    DiagnosticModel,
> {
    match r {
        Ok(t) => Ok(t@),
        Err(d) => Err(d@),
    }
}

} // verus!
