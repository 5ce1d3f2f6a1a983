use crate::json::{check_value_text, is_value_text};
use crate::text::{decimal, decimal_text, owned, text_of};
use vstd::prelude::*;

verus! {

/// Whether a statement ran through or failed.
#[derive(Clone, Copy, Debug, PartialEq, Eq, Structural)]
pub enum Status {
    Success,
    Error,
}

/// What became of one statement of a script: the value it gave, as JSON
/// text, or the message of its error; and the time it took, where the engine
/// reported one, already rendered. The value of a success is always the text
/// of one JSON value.
pub struct StatementOutcome {
    status: Status,
    text: String,
    time: Option<String>,
}

/// What a [`StatementOutcome`] stands for.
pub enum OutcomeModel {
    Success { result: Seq<char>, time: Option<Seq<char>> },
    Error { message: Seq<char>, time: Option<Seq<char>> },
}

impl OutcomeModel {
    /// Whether the statement ran through or failed.
    pub open spec fn status(self) -> Status {
        match self {
            OutcomeModel::Success { .. } => Status::Success,
            OutcomeModel::Error { .. } => Status::Error,
        }
    }

    /// The value of a success, the message of an error.
    pub open spec fn text(self) -> Seq<char> {
        match self {
            OutcomeModel::Success { result, .. } => result,
            OutcomeModel::Error { message, .. } => message,
        }
    }

    /// The time the statement took, rendered, where one was reported.
    pub open spec fn time(self) -> Option<Seq<char>> {
        match self {
            OutcomeModel::Success { time, .. } => time,
            OutcomeModel::Error { time, .. } => time,
        }
    }

    /// The outcome can be found again in a document: the value of a success
    /// is the text of one JSON value.
    pub open spec fn well_formed(self) -> bool {
        match self {
            OutcomeModel::Success { result, .. } => is_value_text(result),
            OutcomeModel::Error { .. } => true,
        }
    }
}

impl View for StatementOutcome {
    type V = OutcomeModel;

    closed spec fn view(&self) -> OutcomeModel {
        match self.status {
            Status::Success => OutcomeModel::Success {
                result: self.text@,
                time: text_of(self.time),
            },
            Status::Error => OutcomeModel::Error { message: self.text@, time: text_of(self.time) },
        }
    }
}

impl StatementOutcome {
    #[verifier::type_invariant]
    spec fn holds_value(self) -> bool {
        self.status == Status::Success ==> is_value_text(self.text@)
    }

    /// The outcome of a statement that gave a value; `None` where `result`
    /// is not the text of one JSON value.
    pub fn success(result: String, time: Option<String>) -> (made: Option<StatementOutcome>)
        ensures
            made is Some == is_value_text(result@),
            made is Some ==> made->0@ == (OutcomeModel::Success {
                result: result@,
                time: text_of(time),
            }),
    {
        if check_value_text(result.as_str()) {
            Some(StatementOutcome { status: Status::Success, text: result, time })
        } else {
            None
        }
    }

    /// The outcome of a statement that failed.
    pub fn error(message: String, time: Option<String>) -> (made: StatementOutcome)
        ensures
            made@ == (OutcomeModel::Error { message: message@, time: text_of(time) }),
    {
        StatementOutcome { status: Status::Error, text: message, time }
    }

    /// Whether the statement ran through or failed. Every outcome is well
    /// formed, and this is where a caller learns it.
    pub fn status(&self) -> (status: Status)
        ensures
            status == self@.status(),
            self@.well_formed(),
    {
        proof {
            use_type_invariant(self);
        }
        self.status
    }

    /// The value of a success, the message of an error.
    pub fn text(&self) -> (text: &String)
        ensures
            text@ == self@.text(),
    {
        &self.text
    }

    /// The time the statement took, rendered, where one was reported.
    pub fn time(&self) -> (time: &Option<String>)
        ensures
            text_of(*time) == self@.time(),
    {
        &self.time
    }
}

/// The models of a list of outcomes, in order.
pub open spec fn outcome_models(outcomes: Seq<StatementOutcome>) -> Seq<OutcomeModel> {
    outcomes.map_values(|o: StatementOutcome| o@)
}

/// The time a statement took, as the engine reports it: whole seconds and
/// the nanoseconds beyond them, fewer than a second's worth.
#[derive(Clone, Copy, Debug)]
pub struct Elapsed {
    secs: u64,
    nanos: u32,
}

/// The debug rendering that std gives a `Duration` of `secs` seconds and
/// `nanos` nanoseconds, such as `123.456ms`.
pub uninterp spec fn duration_debug(secs: u64, nanos: u32) -> Seq<char>;

/// Formats a `std::time::Duration` with `{:?}`. The duration is made with
/// `Duration::new`, which takes every `nanos` below a second's worth as it
/// is. The contract only gives the text its name.
#[verifier::external_body]
fn debug_duration(secs: u64, nanos: u32) -> (text: String)
    requires
        nanos < 1_000_000_000,
    ensures
        text@ == duration_debug(secs, nanos),
{
    format!("{:?}", std::time::Duration::new(secs, nanos))
}

impl Elapsed {
    #[verifier::type_invariant]
    spec fn in_range(self) -> bool {
        self.nanos < 1_000_000_000
    }

    /// The whole seconds.
    pub closed spec fn secs(self) -> u64 {
        self.secs
    }

    /// The nanoseconds beyond the whole seconds.
    pub closed spec fn subsec_nanos(self) -> u32 {
        self.nanos
    }

    /// The time of `secs` seconds and `nanos` nanoseconds; `None` where
    /// `nanos` holds a second or more.
    pub fn new(secs: u64, nanos: u32) -> (made: Option<Elapsed>)
        ensures
            made is Some == (nanos < 1_000_000_000),
            made is Some ==> made->0.secs() == secs && made->0.subsec_nanos() == nanos,
    {
        if nanos < 1_000_000_000 {
            Some(Elapsed { secs, nanos })
        } else {
            None
        }
    }

    /// The time in its canonical textual rendering.
    pub fn render(&self) -> (text: String)
        ensures
            text@ == duration_debug(self.secs(), self.subsec_nanos()),
    {
        proof {
            use_type_invariant(self);
        }
        debug_duration(self.secs, self.nanos)
    }
}

/// What the server said of one statement: the time it took, if reported, and
/// either its value as JSON text or the description of its error. A value is
/// always the text of one JSON value.
pub struct StatementReply {
    elapsed: Option<Elapsed>,
    body: Result<String, String>,
}

/// What a [`StatementReply`] stands for: the rendered time, and the value or
/// the error's description.
pub struct ReplyModel {
    pub time: Option<Seq<char>>,
    pub body: Result<Seq<char>, Seq<char>>,
}

/// The rendered time of a reply, where it has one.
pub open spec fn time_of(elapsed: Option<Elapsed>) -> Option<Seq<char>> {
    match elapsed {
        Some(e) => Some(duration_debug(e.secs(), e.subsec_nanos())),
        None => None,
    }
}

/// The outcome that a reply makes: a value gives a success with the value,
/// an error gives an error with its message; the time passes through.
pub open spec fn outcome_of(reply: ReplyModel) -> OutcomeModel {
    match reply.body {
        Ok(value) => OutcomeModel::Success { result: value, time: reply.time },
        Err(message) => OutcomeModel::Error { message, time: reply.time },
    }
}

impl View for StatementReply {
    type V = ReplyModel;

    closed spec fn view(&self) -> ReplyModel {
        ReplyModel {
            time: time_of(self.elapsed),
            body: match self.body {
                Ok(v) => Ok(v@),
                Err(e) => Err(e@),
            },
        }
    }
}

impl StatementReply {
    #[verifier::type_invariant]
    spec fn holds_value(self) -> bool {
        self.body is Ok ==> is_value_text(self.body->Ok_0@)
    }

    /// The reply of a statement that gave a value; `None` where `json` is
    /// not the text of one JSON value.
    pub fn value(elapsed: Option<Elapsed>, json: String) -> (made: Option<StatementReply>)
        ensures
            made is Some == is_value_text(json@),
            made is Some ==> made->0@ == (ReplyModel {
                time: time_of(elapsed),
                body: Ok(json@),
            }),
    {
        if check_value_text(json.as_str()) {
            Some(StatementReply { elapsed, body: Ok(json) })
        } else {
            None
        }
    }

    /// The reply of a statement that failed.
    pub fn error(elapsed: Option<Elapsed>, message: String) -> (made: StatementReply)
        ensures
            made@ == (ReplyModel { time: time_of(elapsed), body: Err(message@) }),
    {
        StatementReply { elapsed, body: Err(message) }
    }

    /// The reply's body with its time as rendered: the outcome of the
    /// statement. `time` is the rendering of the reply's time.
    fn with_time(&self, time: Option<String>) -> (outcome: StatementOutcome)
        requires
            text_of(time) == self@.time,
        ensures
            outcome@ == outcome_of(self@),
    {
        proof {
            use_type_invariant(self);
        }
        match &self.body {
            Ok(value) => StatementOutcome {
                status: Status::Success,
                text: owned(value.as_str()),
                time,
            },
            Err(message) => StatementOutcome::error(owned(message.as_str()), time),
        }
    }
}

/// Makes the outcome of one statement from its value or error and its time
/// as rendered. `None` where the value is not the text of one JSON value.
pub fn outcome_from(body: Result<String, String>, time: Option<String>) -> (outcome: Option<
    StatementOutcome,
>)
    ensures
        outcome is Some == (body is Err || is_value_text(body->Ok_0@)),
        outcome is Some ==> outcome->0@ == outcome_of(
            ReplyModel {
                time: text_of(time),
                body: match body {
                    Ok(v) => Ok(v@),
                    Err(e) => Err(e@),
                },
            },
        ),
{
    match body {
        Ok(value) => StatementOutcome::success(value, time),
        Err(message) => Some(StatementOutcome::error(message, time)),
    }
}

/// The outcome of one statement.
pub fn outcome_for(reply: &StatementReply) -> (outcome: StatementOutcome)
    ensures
        outcome@ == outcome_of(reply@),
{
    let time = match &reply.elapsed {
        Some(e) => Some(e.render()),
        None => None,
    };
    reply.with_time(time)
}

/// Normalizes the replies of a submission that went through: one outcome for
/// each statement, in the order of the statements.
pub fn process_result(replies: &Vec<StatementReply>) -> (outcomes: Vec<StatementOutcome>)
    ensures
        outcomes.len() == replies.len(),
        forall|i: int| 0 <= i < replies.len() ==> (#[trigger] outcomes[i])@ == outcome_of(replies[i]@),
{
    let mut outcomes: Vec<StatementOutcome> = Vec::new();
    let mut i: usize = 0;
    while i < replies.len()
        invariant
            i <= replies.len(),
            outcomes.len() == i,
            forall|k: int| 0 <= k < i ==> (#[trigger] outcomes[k])@ == outcome_of(replies[k]@),
        decreases replies.len() - i,
    {
        outcomes.push(outcome_for(&replies[i]));
        i += 1;
    }
    outcomes
}

/// The outcome list that stands for a failure of the whole script: one error
/// outcome with the message and no time.
pub open spec fn error_outcomes(message: Seq<char>) -> Seq<OutcomeModel> {
    seq![OutcomeModel::Error { message, time: None }]
}

/// Makes the outcome list of a script that failed as a whole.
pub fn make_error(message: &str) -> (outcomes: Vec<StatementOutcome>)
    ensures
        outcome_models(outcomes@) == error_outcomes(message@),
{
    let mut outcomes: Vec<StatementOutcome> = Vec::new();
    outcomes.push(StatementOutcome::error(owned(message), None));
    assert(outcome_models(outcomes@) =~= error_outcomes(message@));
    outcomes
}

/// The message of a script that ran out of time.
pub open spec fn timeout_message(seconds: u64) -> Seq<char> {
    "Query timed out after "@ + decimal(seconds as nat) + " seconds"@
}

/// How the submission of a script to an open session ended.
pub enum Submission {
    /// The time allowed, in seconds, passed before the server answered.
    TimedOut(u64),
    /// The submission failed as a whole, with the client's description.
    Failed(String),
    /// The server answered, with one reply for each statement.
    Completed(Vec<StatementReply>),
}

/// The outcomes that a submission stands for.
pub open spec fn submission_outcomes(submission: Submission) -> Seq<OutcomeModel> {
    match submission {
        Submission::TimedOut(seconds) => error_outcomes(timeout_message(seconds)),
        Submission::Failed(message) => error_outcomes(message@),
        Submission::Completed(replies) => Seq::new(
            replies.len() as nat,
            |i: int| outcome_of(replies[i]@),
        ),
    }
}

/// Turns the end of a submission into the outcome list of the script: a
/// single error outcome where the script timed out or failed as a whole, else
/// one outcome for each statement, in order.
pub fn outcomes_of(submission: &Submission) -> (outcomes: Vec<StatementOutcome>)
    ensures
        outcome_models(outcomes@) == submission_outcomes(*submission),
        submission is Completed ==> outcomes.len() == submission->Completed_0.len(),
{
    match submission {
        Submission::TimedOut(seconds) => {
            let mut message = owned("Query timed out after ");
            message.append(decimal_text(*seconds).as_str());
            message.append(" seconds");
            make_error(message.as_str())
        },
        Submission::Failed(message) => make_error(message.as_str()),
        Submission::Completed(replies) => {
            let outcomes = process_result(replies);
            assert(outcome_models(outcomes@) =~= submission_outcomes(*submission));
            outcomes
        },
    }
}

} // verus!
