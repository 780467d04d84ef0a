use vstd::prelude::*;
use vstd::string::StringExecFns;

verus! {

/// What one execution of an emitted test reports: the success value its
/// declared return type asks for, or a failure with its message.
pub enum TestOutcome<V> {
    Passed(V),
    Failed(String),
}

/// The fixed prefix of every failure message the emitted wrapper reports.
pub open spec fn failure_prefix() -> Seq<char> {
    "Error in test: "@
}

/// The failure message for an error whose displayable text is `e`.
pub open spec fn failure_message(e: Seq<char>) -> Seq<char> {
    failure_prefix() + e
}

/// How the emitted wrapper maps the resolved result of the asynchronous body
/// to what the test reports: a success value passes through untouched, an
/// error becomes a failure carrying the error's displayable text.
pub open spec fn outcome_matches<V>(resolved: Result<V, String>, r: TestOutcome<V>) -> bool {
    match resolved {
        Ok(v) => r == TestOutcome::Passed(v),
        Err(e) => r matches TestOutcome::Failed(m) && m@ == failure_message(e@),
    }
}

/// The error-conversion step of the emitted wrapper, taken alone: given the
/// result the asynchronous computation resolved to, report the outcome.
pub fn resolve_outcome<V>(resolved: Result<V, String>) -> (r: TestOutcome<V>)
    ensures
        outcome_matches(resolved, r),
{
    match resolved {
        Ok(v) => TestOutcome::Passed(v),
        Err(e) => {
            let mut m = String::from_str("Error in test: ");
            m.append(e.as_str());
            TestOutcome::Failed(m)
        },
    }
}

/// One whole execution of an emitted test body: resolve the asynchronous
/// computation through the blocking adapter once, then convert its result.
///
/// The computation is consumed, so it can be started at most once; and the
/// reported outcome is the image of a result the computation actually
/// resolved to, so it was started and resolved exactly once.
pub fn run_test<V, F: FnOnce() -> Result<V, String>>(body: F) -> (r: TestOutcome<V>)
    requires
        call_requires(body, ()),
    ensures
        exists|resolved: Result<V, String>|
            #[trigger] call_ensures(body, (), resolved) && outcome_matches(resolved, r),
{
    let resolved = body();
    resolve_outcome(resolved)
}

/// A successful resolution passes through: the test reports no failure and
/// yields the success value itself.
pub proof fn lemma_success_propagation<V>(resolved: Result<V, String>, r: TestOutcome<V>)
    requires
        outcome_matches(resolved, r),
        resolved is Ok,
    ensures
        r == TestOutcome::Passed(resolved->Ok_0),
{
}

/// An error resolution fails the test, and the failure message carries the
/// error's displayable text whole: the text is exactly what follows the
/// fixed prefix.
pub proof fn lemma_error_propagation<V>(resolved: Result<V, String>, r: TestOutcome<V>)
    requires
        outcome_matches(resolved, r),
        resolved is Err,
    ensures
        r matches TestOutcome::Failed(m) && m@.len() == failure_prefix().len()
            + resolved->Err_0@.len() && m@.subrange(
            failure_prefix().len() as int,
            m@.len() as int,
        ) == resolved->Err_0@,
{
    let e = resolved->Err_0@;
    assert(failure_message(e).subrange(
        failure_prefix().len() as int,
        failure_message(e).len() as int,
    ) =~= e);
}

} // verus!
