use crate::encode::{decode_text, encode, encode_text};
use crate::live::{next_number, LiveModel, LiveQuery, LiveRegistry, LiveState};
use crate::schema::{found_kinds, live_complaint, live_complaint_of, parse_query, parsed_query};
use crate::outcome::{error_outcomes, make_error, outcomes_of, submission_outcomes, Submission};
use crate::session::SessionStore;
use vstd::prelude::*;

verus! {

/// A value of the surrealdb crate. The library only carries it.
#[verifier::external_type_specification]
#[verifier::external_body]
pub struct ExValue(surrealdb::sql::Value);

/// What the JSON reader of the surrealdb crate objects to in a text: the
/// description of its error, or nothing where it reads the text.
pub uninterp spec fn variables_error(text: Seq<char>) -> Option<Seq<char>>;

/// Calls `surrealdb::sql::json` and hands back the value it read, or the
/// text of its error. The contract only names that text.
#[verifier::external_body]
fn parse_variables(text: &str) -> (parsed: Result<surrealdb::sql::Value, String>)
    ensures
        match parsed {
            Ok(_) => variables_error(text@) is None,
            Err(e) => variables_error(text@) == Some(e@),
        },
{
    surrealdb::sql::json(text).map_err(|error| error.to_string())
}

/// The variables to bind to a script: those that were read, or none where
/// the caller's text could not be read. A malformed text never fails the
/// query.
pub fn usable_bindings<V>(parsed: Result<V, String>) -> (bindings: Option<V>)
    ensures
        match parsed {
            Ok(v) => bindings == Some(v),
            Err(_) => bindings is None,
        },
{
    match parsed {
        Ok(v) => Some(v),
        Err(_) => None,
    }
}

/// Reads the variables to bind to a script from the caller's text; none
/// where the text cannot be read.
pub fn bound_variables(params: &str) -> (bindings: Option<surrealdb::sql::Value>)
    ensures
        bindings is Some == variables_error(params@) is None,
{
    usable_bindings(parse_variables(params))
}

/// The registry after the subscription under `id`, if an `id` is given and
/// one is active there, has been taken out.
pub open spec fn without<S>(live: Map<Seq<char>, LiveModel<S>>, id: Option<String>) -> Map<
    Seq<char>,
    LiveModel<S>,
> {
    match id {
        Some(i) => live.remove(i@),
        None => live,
    }
}

/// Whether a subscription is active under the identifier of a query.
pub open spec fn active_under<S>(live: Map<Seq<char>, LiveModel<S>>, id: Option<String>) -> bool {
    id is Some && live.contains_key(id->0@)
}

/// Opens a query. Without a session the query ends here, with the document
/// of a single error outcome as the error, and nothing is touched. With one,
/// a subscription that is active under the query's identifier is cancelled
/// and taken out before anything is submitted; it comes back to the caller,
/// cancelled, and the query goes on.
pub fn prepare_query<T, S>(
    store: &SessionStore<T>,
    registry: &mut LiveRegistry<S>,
    id: &Option<String>,
) -> (prepared: Result<Option<LiveQuery<S>>, String>)
    requires
        old(registry).wf(),
    ensures
        final(registry).wf(),
        final(registry).minted() == old(registry).minted(),
        prepared is Err == (store@ is None),
        match prepared {
            Err(refusal) => {
                &&& refusal@ == encode_text(error_outcomes("No connection open"@))
                &&& decode_text(refusal@) == Some(error_outcomes("No connection open"@))
                &&& final(registry)@ == old(registry)@
            },
            Ok(evicted) => {
                &&& final(registry)@ == without(old(registry)@, *id)
                &&& evicted is Some == active_under(old(registry)@, *id)
                &&& evicted is Some ==> evicted->0.is_cancelled() && evicted->0.source() == old(
                    registry,
                )@[id->0@].source
            },
        },
{
    if !store.is_open() {
        let outcomes = make_error("No connection open");
        return Err(encode(&outcomes));
    }
    match id {
        Some(i) => Ok(registry.cancel(i.as_str())),
        None => Ok(None),
    }
}

/// Whether the end of a query registers a subscription: the query has an
/// identifier, its submission went through, its stream was captured, and
/// its script is exactly one live select.
pub open spec fn registers(
    id: Option<String>,
    parsed: Result<Seq<bool>, Seq<char>>,
    completed: bool,
    has_stream: bool,
) -> bool {
    id is Some && completed && has_stream && live_complaint_of(parsed) is None
}

/// What ending a query hands back: the document of the outcomes, and the
/// subscription that the new one has replaced, if it replaced one.
#[verifier::reject_recursive_types(S)]
pub struct Finished<S> {
    pub text: String,
    pub evicted: Option<LiveQuery<S>>,
}

/// Ends a query on an open session, given what the parser made of its
/// script: turns what the submission came to into the document of its
/// outcomes, one for each statement in order or a single error outcome, and
/// registers the stream under the query's identifier where `registers`
/// holds. Nothing else changes the registry.
pub fn finish_query<S>(
    registry: &mut LiveRegistry<S>,
    id: Option<String>,
    parsed: &Result<Vec<bool>, String>,
    submission: &Submission,
    stream: Option<S>,
) -> (done: Finished<S>)
    requires
        old(registry).wf(),
    ensures
        final(registry).wf(),
        done.text@ == encode_text(submission_outcomes(*submission)),
        decode_text(done.text@) == Some(submission_outcomes(*submission)),
        if registers(id, found_kinds(*parsed), submission is Completed, stream is Some) {
            &&& final(registry).minted() == next_number(old(registry).minted())
            &&& final(registry)@ == old(registry)@.insert(
                id->0@,
                LiveModel {
                    state: LiveState::Registered,
                    token: old(registry).minted(),
                    source: stream->0,
                },
            )
            &&& done.evicted is Some == old(registry)@.contains_key(id->0@)
            &&& done.evicted is Some ==> done.evicted->0.is_cancelled()
                && done.evicted->0.source() == old(registry)@[id->0@].source
        } else {
            &&& final(registry).minted() == old(registry).minted()
            &&& final(registry)@ == old(registry)@
            &&& done.evicted is None
        },
{
    let outcomes = outcomes_of(submission);
    let text = encode(&outcomes);
    let completed = match submission {
        Submission::Completed(_) => true,
        _ => false,
    };
    let watched = live_complaint(parsed).is_none();
    let evicted = if completed && watched {
        match id {
            Some(i) => match stream {
                Some(s) => registry.register(i, s),
                None => None,
            },
            None => None,
        }
    } else {
        None
    };
    Finished { text, evicted }
}

/// Ends a query on an open session: the document of its outcomes, and the
/// registration of its stream under its identifier where the script is
/// exactly one live select.
pub fn execute_query<S>(
    registry: &mut LiveRegistry<S>,
    id: Option<String>,
    script: &str,
    submission: &Submission,
    stream: Option<S>,
) -> (done: Finished<S>)
    requires
        old(registry).wf(),
    ensures
        final(registry).wf(),
        done.text@ == encode_text(submission_outcomes(*submission)),
        decode_text(done.text@) == Some(submission_outcomes(*submission)),
        if registers(id, parsed_query(script@), submission is Completed, stream is Some) {
            &&& final(registry).minted() == next_number(old(registry).minted())
            &&& final(registry)@ == old(registry)@.insert(
                id->0@,
                LiveModel {
                    state: LiveState::Registered,
                    token: old(registry).minted(),
                    source: stream->0,
                },
            )
            &&& done.evicted is Some == old(registry)@.contains_key(id->0@)
            &&& done.evicted is Some ==> done.evicted->0.is_cancelled()
                && done.evicted->0.source() == old(registry)@[id->0@].source
        } else {
            &&& final(registry).minted() == old(registry).minted()
            &&& final(registry)@ == old(registry)@
            &&& done.evicted is None
        },
{
    let parsed = parse_query(script);
    finish_query(registry, id, &parsed, submission, stream)
}

} // verus!
