use crate::connection::ConnectionError;
use vstd::prelude::*;

verus! {

/// The server's version as three numbers.
#[derive(Clone, Copy, Debug, PartialEq, Eq, Structural)]
pub struct SurrealVersion {
    pub major: u64,
    pub minor: u64,
    pub patch: u64,
}

/// Holds the one session that is open, if any. `S` is the client's handle to
/// a live connection; the store never looks inside it.
pub struct SessionStore<S> {
    session: Option<S>,
}

impl<S> View for SessionStore<S> {
    type V = Option<S>;

    closed spec fn view(&self) -> Option<S> {
        self.session
    }
}

impl<S> SessionStore<S> {
    /// A store with no session.
    pub fn new() -> (store: Self)
        ensures
            store@ is None,
    {
        SessionStore { session: None }
    }

    /// Whether a session is open.
    pub fn is_open(&self) -> (open: bool)
        ensures
            open == (self@ is Some),
    {
        self.session.is_some()
    }

    /// Ends an open. A session that was opened in full replaces the one that
    /// was stored and the store hands the old one back to be dropped; a failed
    /// open leaves the store as it was and comes back as the error's text.
    pub fn open(&mut self, attempt: Result<S, ConnectionError>) -> (done: Result<Option<S>, String>)
        ensures
            match attempt {
                Ok(session) => final(self)@ == Some(session) && done == Ok::<Option<S>, String>(
                    old(self)@,
                ),
                Err(error) => final(self)@ == old(self)@ && done is Err && done->Err_0@
                    == error.message(),
            },
    {
        match attempt {
            Ok(session) => {
                let previous = self.session.take();
                self.session = Some(session);
                Ok(previous)
            },
            Err(error) => Err(error.describe()),
        }
    }

    /// Clears the store, whatever it held, and hands back what it held.
    /// Live subscriptions are not the store's: closing the session cancels
    /// none of them, each lasts until it is cancelled or its stream ends.
    pub fn close(&mut self) -> (closed: Option<S>)
        ensures
            final(self)@ is None,
            closed == old(self)@,
    {
        self.session.take()
    }

    /// The session that is open, if one is.
    pub fn session(&self) -> (found: Option<&S>)
        ensures
            match found {
                Some(s) => self@ == Some(*s),
                None => self@ is None,
            },
    {
        self.session.as_ref()
    }

    /// Runs `f` on the open session and hands back what it gave; `None`,
    /// with `f` not run, where no session is open.
    pub fn with_session<T, F: FnOnce(&S) -> T>(&self, f: F) -> (out: Option<T>)
        requires
            self@ is Some ==> f.requires((&self@->0,)),
        ensures
            match out {
                Some(value) => self@ is Some && f.ensures((&self@->0,), value),
                None => self@ is None,
            },
    {
        match &self.session {
            Some(session) => Some(f(session)),
            None => None,
        }
    }
}

/// What a version probe reports: nothing where no session is open or the
/// server gave no answer, else the three numbers that the server reported.
pub open spec fn version_reply(session_open: bool, answer: Option<(u64, u64, u64)>) -> Option<
    SurrealVersion,
> {
    match answer {
        Some((major, minor, patch)) => if session_open {
            Some(SurrealVersion { major, minor, patch })
        } else {
            None
        },
        None => None,
    }
}

/// Turns the server's answer to a version probe into what the caller sees.
pub fn query_version<S>(store: &SessionStore<S>, answer: Option<(u64, u64, u64)>) -> (version:
    Option<SurrealVersion>)
    ensures
        version == version_reply(store@ is Some, answer),
{
    if !store.is_open() {
        return None;
    }
    match answer {
        Some((major, minor, patch)) => Some(SurrealVersion { major, minor, patch }),
        None => None,
    }
}

} // verus!
