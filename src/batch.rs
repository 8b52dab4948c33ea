//! The outcome of each task of a batch, and the lines that report them.
use vstd::prelude::*;

verus! {

/// Why one registration task failed. A failure belongs to its own task and
/// never to the batch.
#[derive(Clone, Copy, Debug, PartialEq, Eq, Structural)]
pub enum TaskFailure {
    /// The proxy address of the identity does not parse.
    ProxyParse,
    /// The HTTP client of the identity could not be built.
    ClientBuild,
    /// The challenge could not be solved.
    Challenge,
    /// The request failed on its way: connection, timeout, TLS or proxy.
    Transport,
}

/// The name under which a failure kind is reported.
pub open spec fn failure_name(f: TaskFailure) -> Seq<char> {
    match f {
        TaskFailure::ProxyParse => "proxy parse error"@,
        TaskFailure::ClientBuild => "client build error"@,
        TaskFailure::Challenge => "challenge error"@,
        TaskFailure::Transport => "transport error"@,
    }
}

/// The line that reports one task: it names the email, and for a failure
/// the kind of failure.
pub open spec fn report_line(email: Seq<char>, outcome: Result<(), TaskFailure>) -> Seq<char> {
    match outcome {
        Ok(_) => "Client "@ + email + " registered"@,
        Err(f) => "Client "@ + email + " failed: "@ + failure_name(f),
    }
}

/// One line for each task, in the order of the tasks.
pub open spec fn report_lines(
    emails: Seq<Seq<char>>,
    outcomes: Seq<Result<(), TaskFailure>>,
) -> Seq<Seq<char>> {
    Seq::new(outcomes.len(), |i: int| report_line(emails[i], outcomes[i]))
}

impl TaskFailure {
    /// The name under which this failure kind is reported.
    pub fn name(&self) -> (r: &'static str)
        ensures
            r@ == failure_name(*self),
    {
        match self {
            TaskFailure::ProxyParse => "proxy parse error",
            TaskFailure::ClientBuild => "client build error",
            TaskFailure::Challenge => "challenge error",
            TaskFailure::Transport => "transport error",
        }
    }
}

/// The line that reports the outcome of the task of `email`.
pub fn outcome_line(email: &str, outcome: &Result<(), TaskFailure>) -> (r: String)
    ensures
        r@ == report_line(email@, *outcome),
{
    let mut line = String::from_str("Client ");
    line.append(email);
    match outcome {
        Ok(_) => {
            line.append(" registered");
        },
        Err(f) => {
            line.append(" failed: ");
            line.append(f.name());
        },
    }
    line
}

/// The report of a whole batch: one line per task, each from that task's own
/// outcome alone.
pub fn batch_report(emails: &Vec<String>, outcomes: &Vec<Result<(), TaskFailure>>) -> (r: Vec<
    String,
>)
    requires
        emails@.len() == outcomes@.len(),
    ensures
        r@.len() == outcomes@.len(),
        forall|i: int|
            0 <= i < r@.len() ==> (#[trigger] r@[i])@ == report_lines(
                emails@.map_values(|s: String| s@),
                outcomes@,
            )[i],
{
    let mut lines: Vec<String> = Vec::new();
    let mut i: usize = 0;
    while i < outcomes.len()
        invariant
            emails@.len() == outcomes@.len(),
            i <= outcomes@.len(),
            lines@.len() == i,
            forall|k: int|
                0 <= k < i ==> (#[trigger] lines@[k])@ == report_line(emails@[k]@, outcomes@[k]),
        decreases outcomes.len() - i,
    {
        let line = outcome_line(emails[i].as_str(), &outcomes[i]);
        lines.push(line);
        i = i + 1;
    }
    lines
}

/// A failed task does not change how the others are reported: where only the
/// task at `k` failed, every other task is reported as registered under its
/// own email, and the task at `k` is reported with its failure.
pub proof fn lemma_failure_is_isolated(
    emails: Seq<Seq<char>>,
    outcomes: Seq<Result<(), TaskFailure>>,
    k: int,
)
    requires
        emails.len() == outcomes.len(),
        0 <= k < outcomes.len(),
        outcomes[k] is Err,
        forall|j: int| 0 <= j < outcomes.len() && j != k ==> (#[trigger] outcomes[j]) is Ok,
    ensures
        report_lines(emails, outcomes).len() == outcomes.len(),
        report_lines(emails, outcomes)[k] == "Client "@ + emails[k] + " failed: "@ + failure_name(
            outcomes[k]->Err_0,
        ),
        forall|j: int|
            0 <= j < outcomes.len() && j != k ==> #[trigger] report_lines(emails, outcomes)[j]
                == "Client "@ + emails[j] + " registered"@,
{
    assert forall|j: int| 0 <= j < outcomes.len() && j != k implies #[trigger] report_lines(
        emails,
        outcomes,
    )[j] == "Client "@ + emails[j] + " registered"@ by {
        assert(outcomes[j] is Ok);
    }
}

} // verus!
