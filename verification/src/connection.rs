use crate::assoc::{assoc_map, distinct_names, lemma_assoc_update};
use crate::text::{owned, same_text, text_of};
use vstd::prelude::*;

verus! {

/// One named parameter of a scope sign-in.
pub struct ScopeField {
    pub subject: String,
    pub value: String,
}

impl View for ScopeField {
    type V = (Seq<char>, Seq<char>);

    open spec fn view(&self) -> (Seq<char>, Seq<char>) {
        (self.subject@, self.value@)
    }
}

/// What a caller hands over to have a session opened.
pub struct ConnectionInfo {
    pub namespace: String,
    pub database: String,
    pub endpoint: String,
    pub username: String,
    pub password: String,
    pub auth_mode: String,
    pub scope: String,
    pub scope_fields: Vec<ScopeField>,
}

/// The authentication scope that a descriptor selects.
#[derive(Clone, Copy, Debug, PartialEq, Eq, Structural)]
pub enum AuthMode {
    Root,
    Namespace,
    Database,
    Scope,
    Anonymous,
}

/// The mode that a descriptor's `auth_mode` text selects: the four known
/// names select their mode, every other text selects no sign-in at all.
pub open spec fn auth_mode_of(mode: Seq<char>) -> AuthMode {
    if mode == "root"@ {
        AuthMode::Root
    } else if mode == "namespace"@ {
        AuthMode::Namespace
    } else if mode == "database"@ {
        AuthMode::Database
    } else if mode == "scope"@ {
        AuthMode::Scope
    } else {
        AuthMode::Anonymous
    }
}

/// Reads the authentication mode of a descriptor.
pub fn parse_auth_mode(mode: &str) -> (parsed: AuthMode)
    ensures
        parsed == auth_mode_of(mode@),
{
    if same_text(mode, "root") {
        AuthMode::Root
    } else if same_text(mode, "namespace") {
        AuthMode::Namespace
    } else if same_text(mode, "database") {
        AuthMode::Database
    } else if same_text(mode, "scope") {
        AuthMode::Scope
    } else {
        AuthMode::Anonymous
    }
}

/// The name/value pairs that a list of fields holds, in order.
pub open spec fn field_pairs(fields: Seq<ScopeField>) -> Seq<(Seq<char>, Seq<char>)> {
    fields.map_values(|f: ScopeField| f@)
}

/// The sign-in parameters of scope mode: one entry for each name among the
/// given fields, holding the value that the last field of that name has.
pub fn scope_params(fields: &Vec<ScopeField>) -> (params: Vec<ScopeField>)
    ensures
        distinct_names(field_pairs(params@)),
        assoc_map(field_pairs(params@)) == assoc_map(field_pairs(fields@)),
{
    let mut params: Vec<ScopeField> = Vec::new();
    let mut i: usize = 0;
    assert(field_pairs(fields@).take(0) =~= field_pairs(params@));
    while i < fields.len()
        invariant
            i <= fields.len(),
            distinct_names(field_pairs(params@)),
            assoc_map(field_pairs(params@)) == assoc_map(field_pairs(fields@).take(i as int)),
        decreases fields.len() - i,
    {
        let field = &fields[i];
        let ghost before = field_pairs(params@);
        let ghost seen = field_pairs(fields@).take(i as int);
        proof {
            let next = field_pairs(fields@).take(i + 1);
            assert(next.drop_last() =~= seen);
            assert(next.last() == field@);
        }
        let mut j: usize = 0;
        let mut found = false;
        while j < params.len()
            invariant_except_break
                !found,
                forall|k: int| 0 <= k < j ==> before[k].0 != field.subject@,
            invariant
                j <= params.len(),
                before == field_pairs(params@),
            ensures
                before == field_pairs(params@),
                found ==> j < params.len() && before[j as int].0 == field.subject@,
                !found ==> forall|k: int| 0 <= k < before.len() ==> before[k].0 != field.subject@,
            decreases params.len() - j,
        {
            if same_text(params[j].subject.as_str(), field.subject.as_str()) {
                found = true;
                break;
            }
            j += 1;
        }
        if found {
            let entry = ScopeField { subject: owned(field.subject.as_str()), value: owned(field.value.as_str()) };
            params.set(j, entry);
            proof {
                assert(field_pairs(params@) =~= before.update(
                    j as int,
                    (before[j as int].0, field.value@),
                ));
                lemma_assoc_update(before, j as int, field.value@);
            }
        } else {
            let entry = ScopeField { subject: owned(field.subject.as_str()), value: owned(field.value.as_str()) };
            params.push(entry);
            proof {
                let after = field_pairs(params@);
                assert(after =~= before.push(field@));
                assert(after.drop_last() =~= before);
            }
        }
        i += 1;
    }
    assert(field_pairs(fields@).take(fields.len() as int) =~= field_pairs(fields@));
    params
}

/// The credentials that a sign-in call takes, one variant for each scope that
/// asks for any.
pub enum Credentials {
    Root { username: String, password: String },
    Namespace { namespace: String, username: String, password: String },
    Database { namespace: String, database: String, username: String, password: String },
    Scope { namespace: String, database: String, scope: String, params: Vec<ScopeField> },
}

/// What a value of [`Credentials`] stands for.
pub enum CredentialsModel {
    Root { username: Seq<char>, password: Seq<char> },
    Namespace { namespace: Seq<char>, username: Seq<char>, password: Seq<char> },
    Database {
        namespace: Seq<char>,
        database: Seq<char>,
        username: Seq<char>,
        password: Seq<char>,
    },
    Scope {
        namespace: Seq<char>,
        database: Seq<char>,
        scope: Seq<char>,
        params: Map<Seq<char>, Seq<char>>,
    },
}

impl Credentials {
    /// The sign-in parameters of scope mode bear distinct names.
    pub open spec fn wf(&self) -> bool {
        match self {
            Credentials::Scope { params, .. } => distinct_names(field_pairs(params@)),
            _ => true,
        }
    }
}

impl View for Credentials {
    type V = CredentialsModel;

    open spec fn view(&self) -> CredentialsModel {
        match self {
            Credentials::Root { username, password } => CredentialsModel::Root {
                username: username@,
                password: password@,
            },
            Credentials::Namespace { namespace, username, password } => CredentialsModel::Namespace {
                namespace: namespace@,
                username: username@,
                password: password@,
            },
            Credentials::Database {
                namespace,
                database,
                username,
                password,
            } => CredentialsModel::Database {
                namespace: namespace@,
                database: database@,
                username: username@,
                password: password@,
            },
            Credentials::Scope { namespace, database, scope, params } => CredentialsModel::Scope {
                namespace: namespace@,
                database: database@,
                scope: scope@,
                params: assoc_map(field_pairs(params@)),
            },
        }
    }
}

/// The sign-in that a descriptor asks for: the fields that its mode uses and
/// no others, or none where the mode is not one of the four known ones.
pub open spec fn credentials_of(info: ConnectionInfo) -> Option<CredentialsModel> {
    match auth_mode_of(info.auth_mode@) {
        AuthMode::Root => Some(
            CredentialsModel::Root { username: info.username@, password: info.password@ },
        ),
        AuthMode::Namespace => Some(
            CredentialsModel::Namespace {
                namespace: info.namespace@,
                username: info.username@,
                password: info.password@,
            },
        ),
        AuthMode::Database => Some(
            CredentialsModel::Database {
                namespace: info.namespace@,
                database: info.database@,
                username: info.username@,
                password: info.password@,
            },
        ),
        AuthMode::Scope => Some(
            CredentialsModel::Scope {
                namespace: info.namespace@,
                database: info.database@,
                scope: info.scope@,
                params: assoc_map(field_pairs(info.scope_fields@)),
            },
        ),
        AuthMode::Anonymous => None,
    }
}

/// Turns a descriptor into the credentials of its sign-in call.
pub fn resolve_credentials(info: &ConnectionInfo) -> (found: Option<Credentials>)
    ensures
        match found {
            Some(c) => c.wf() && credentials_of(*info) == Some(c@),
            None => credentials_of(*info) is None,
        },
{
    match parse_auth_mode(info.auth_mode.as_str()) {
        AuthMode::Root => Some(
            Credentials::Root {
                username: owned(info.username.as_str()),
                password: owned(info.password.as_str()),
            },
        ),
        AuthMode::Namespace => Some(
            Credentials::Namespace {
                namespace: owned(info.namespace.as_str()),
                username: owned(info.username.as_str()),
                password: owned(info.password.as_str()),
            },
        ),
        AuthMode::Database => Some(
            Credentials::Database {
                namespace: owned(info.namespace.as_str()),
                database: owned(info.database.as_str()),
                username: owned(info.username.as_str()),
                password: owned(info.password.as_str()),
            },
        ),
        AuthMode::Scope => Some(
            Credentials::Scope {
                namespace: owned(info.namespace.as_str()),
                database: owned(info.database.as_str()),
                scope: owned(info.scope.as_str()),
                params: scope_params(&info.scope_fields),
            },
        ),
        AuthMode::Anonymous => None,
    }
}

/// Where to connect: the address without its prefix, and whether the
/// transport is to be encrypted.
pub struct Endpoint {
    pub address: String,
    pub secure: bool,
}

impl View for Endpoint {
    type V = (Seq<char>, bool);

    open spec fn view(&self) -> (Seq<char>, bool) {
        (self.address@, self.secure)
    }
}

/// The text of capture group `group` in the leftmost match of the regular
/// expression `pattern` in `haystack`, as the regex crate finds it; `None`
/// where the pattern does not compile, nothing matches, or the group took no
/// part in the match.
pub uninterp spec fn regex_capture(pattern: Seq<char>, haystack: Seq<char>, group: int) -> Option<
    Seq<char>,
>;

/// The pattern that splits an endpoint into an optional `http://` or
/// `https://` prefix and the address after it.
pub open spec fn endpoint_pattern() -> Seq<char> {
    "^(https?://)?(.+?)$"@
}

/// Whether a text can be an endpoint: it is not empty and holds no line
/// feed.
pub open spec fn is_endpoint(text: Seq<char>) -> bool {
    text.len() > 0 && !text.contains('\n')
}

/// The URL-style prefix that is taken off an endpoint: `https://` or
/// `http://` where the text begins with it and something follows; none for
/// a bare host, and none for what is no endpoint.
pub open spec fn stripped_prefix(text: Seq<char>) -> Option<Seq<char>> {
    if !is_endpoint(text) {
        None
    } else if "https://"@.is_prefix_of(text) && text.len() > "https://"@.len() {
        Some("https://"@)
    } else if "http://"@.is_prefix_of(text) && text.len() > "http://"@.len() {
        Some("http://"@)
    } else {
        None
    }
}

/// The address of an endpoint: the text without the prefix that is taken
/// off it; none for what is no endpoint.
pub open spec fn endpoint_address(text: Seq<char>) -> Option<Seq<char>> {
    if !is_endpoint(text) {
        None
    } else {
        match stripped_prefix(text) {
            Some(prefix) => Some(text.skip(prefix.len() as int)),
            None => Some(text),
        }
    }
}

/// Calls `Regex::new`, `Regex::captures` and `Captures::get` of the regex
/// crate and hands back the text of the group. The first clause gives that
/// text its name. The other two say what the name is for the one pattern
/// that the library uses, as the pattern language of the crate reads it:
/// `^` and `$` stand for the ends of the text, `.` for any character but
/// the line feed, the optional first group is taken where the rest can
/// still match, and the second group takes all that is left.
#[verifier::external_body]
fn capture_group(pattern: &str, haystack: &str, group: usize) -> (found: Option<String>)
    ensures
        text_of(found) == regex_capture(pattern@, haystack@, group as int),
        pattern@ == endpoint_pattern() && group == 1 ==> text_of(found) == stripped_prefix(
            haystack@,
        ),
        pattern@ == endpoint_pattern() && group == 2 ==> text_of(found) == endpoint_address(
            haystack@,
        ),
{
    match regex::Regex::new(pattern) {
        Ok(compiled) => match compiled.captures(haystack) {
            Some(captures) => match captures.get(group) {
                Some(found) => Some(found.as_str().to_owned()),
                None => None,
            },
            None => None,
        },
        Err(_) => None,
    }
}

/// The endpoint that a prefix and an address make: encrypted exactly where
/// the prefix that was taken off is `https://`.
pub open spec fn endpoint_from(prefix: Option<Seq<char>>, address: Option<Seq<char>>) -> Option<
    (Seq<char>, bool),
> {
    match address {
        Some(a) => Some((a, prefix == Some("https://"@))),
        None => None,
    }
}

/// The endpoint that a descriptor's text stands for: its address without
/// the prefix, encrypted exactly where that prefix is `https://`. A bare
/// host is never encrypted, whatever its name begins with.
pub open spec fn endpoint_of(text: Seq<char>) -> Option<(Seq<char>, bool)> {
    endpoint_from(stripped_prefix(text), endpoint_address(text))
}

/// Builds the endpoint from the prefix and the address that were captured
/// from a descriptor's text.
pub fn endpoint_from_capture(prefix: Option<String>, address: Option<String>) -> (found: Option<
    Endpoint,
>)
    ensures
        match found {
            Some(e) => endpoint_from(text_of(prefix), text_of(address)) == Some(e@),
            None => endpoint_from(text_of(prefix), text_of(address)) is None,
        },
{
    let secure = match &prefix {
        Some(p) => same_text(p.as_str(), "https://"),
        None => false,
    };
    match address {
        Some(a) => Some(Endpoint { address: a, secure }),
        None => None,
    }
}

/// Strips the prefix from an endpoint and keeps whether it asked for an
/// encrypted transport. `None` where the text holds no address.
pub fn resolve_endpoint(text: &str) -> (found: Option<Endpoint>)
    ensures
        match found {
            Some(e) => endpoint_of(text@) == Some(e@),
            None => endpoint_of(text@) is None,
        },
{
    let prefix = capture_group("^(https?://)?(.+?)$", text, 1);
    let address = capture_group("^(https?://)?(.+?)$", text, 2);
    endpoint_from_capture(prefix, address)
}

/// The address that the client connects to: the endpoint's address behind
/// `wss://` where the transport is encrypted, behind `ws://` where not.
pub fn connect_url(endpoint: &Endpoint) -> (url: String)
    ensures
        url@ == (if endpoint.secure {
            "wss://"@
        } else {
            "ws://"@
        }) + endpoint.address@,
{
    let mut url = if endpoint.secure {
        owned("wss://")
    } else {
        owned("ws://")
    };
    url.append(endpoint.address.as_str());
    url
}

/// The endpoint text of an explicit protocol and host name.
pub fn endpoint_url(protocol: &str, hostname: &str) -> (url: String)
    ensures
        url@ == protocol@ + "://"@ + hostname@,
{
    let mut url = owned(protocol);
    url.append("://");
    url.append(hostname);
    url
}

/// Why a session could not be opened.
pub enum ConnectionError {
    /// The descriptor's endpoint holds no address.
    InvalidEndpoint,
    /// The connect call failed, with the client's description.
    Connect(String),
    /// The sign-in call failed.
    SignIn(String),
    /// The switch to the namespace failed.
    UseNamespace(String),
    /// The switch to the database failed.
    UseDatabase(String),
}

impl ConnectionError {
    /// The text under which the error is shown to the caller.
    pub open spec fn message(&self) -> Seq<char> {
        match self {
            ConnectionError::InvalidEndpoint => "Invalid endpoint"@,
            ConnectionError::Connect(m) => m@,
            ConnectionError::SignIn(m) => m@,
            ConnectionError::UseNamespace(m) => m@,
            ConnectionError::UseDatabase(m) => m@,
        }
    }

    /// The error as the caller sees it.
    pub fn describe(&self) -> (text: String)
        ensures
            text@ == self.message(),
    {
        match self {
            ConnectionError::InvalidEndpoint => owned("Invalid endpoint"),
            ConnectionError::Connect(m) => owned(m.as_str()),
            ConnectionError::SignIn(m) => owned(m.as_str()),
            ConnectionError::UseNamespace(m) => owned(m.as_str()),
            ConnectionError::UseDatabase(m) => owned(m.as_str()),
        }
    }
}

/// Everything the calls of an open need, worked out from the descriptor.
pub struct OpenPlan {
    pub endpoint: Endpoint,
    pub credentials: Option<Credentials>,
    pub namespace: String,
    pub database: String,
}

impl OpenPlan {
    /// The plan asks for what the descriptor says, given the endpoint that
    /// its text stands for.
    pub open spec fn follows(&self, info: ConnectionInfo, endpoint: (Seq<char>, bool)) -> bool {
        &&& self.endpoint@ == endpoint
        &&& match self.credentials {
            Some(c) => c.wf() && credentials_of(info) == Some(c@),
            None => credentials_of(info) is None,
        }
        &&& self.namespace@ == info.namespace@
        &&& self.database@ == info.database@
    }
}

/// The plan for a descriptor from whose endpoint the prefix and the address
/// were captured, or the error where no address was.
pub fn plan_from_capture(
    info: &ConnectionInfo,
    prefix: Option<String>,
    address: Option<String>,
) -> (plan: Result<OpenPlan, ConnectionError>)
    ensures
        match plan {
            Ok(p) => (endpoint_from(text_of(prefix), text_of(address)) matches Some(e)
                && p.follows(*info, e)),
            Err(e) => endpoint_from(text_of(prefix), text_of(address)) is None
                && e is InvalidEndpoint,
        },
{
    match endpoint_from_capture(prefix, address) {
        Some(endpoint) => Ok(
            OpenPlan {
                endpoint,
                credentials: resolve_credentials(info),
                namespace: owned(info.namespace.as_str()),
                database: owned(info.database.as_str()),
            },
        ),
        None => Err(ConnectionError::InvalidEndpoint),
    }
}

/// Works out the calls of an open from a descriptor: where to connect, how to
/// sign in if at all, and the namespace and database to switch to. The error
/// where the descriptor's endpoint is empty or holds a line feed.
pub fn plan_open(info: &ConnectionInfo) -> (plan: Result<OpenPlan, ConnectionError>)
    ensures
        match plan {
            Ok(p) => (endpoint_of(info.endpoint@) matches Some(e) && p.follows(*info, e)),
            Err(e) => endpoint_of(info.endpoint@) is None && e is InvalidEndpoint,
        },
{
    let prefix = capture_group("^(https?://)?(.+?)$", info.endpoint.as_str(), 1);
    let address = capture_group("^(https?://)?(.+?)$", info.endpoint.as_str(), 2);
    plan_from_capture(info, prefix, address)
}

/// How far an open has come.
#[derive(Clone, Copy, Debug, PartialEq, Eq, Structural)]
pub enum OpenStage {
    Connecting,
    SigningIn,
    SelectingNamespace,
    SelectingDatabase,
    Installed,
    Aborted,
}

/// What the caller of the open pipeline is to do next.
#[derive(Clone, Copy, Debug, PartialEq, Eq, Structural)]
pub enum OpenAction {
    Connect,
    SignIn,
    UseNamespace,
    UseDatabase,
    /// Every call succeeded: store the session.
    Install,
    /// A call failed: drop the handle, store nothing, report the failure.
    Abandon,
    /// The open is over; nothing is left to do.
    Nothing,
}

/// The pipeline's transition: from the stage whose call has just ended, and
/// whether it succeeded, to the next stage and the call to make there. A plan
/// without credentials passes over the sign-in.
pub open spec fn open_transition(stage: OpenStage, signs_in: bool, succeeded: bool) -> (
    OpenStage,
    OpenAction,
) {
    match stage {
        OpenStage::Installed => (OpenStage::Installed, OpenAction::Nothing),
        OpenStage::Aborted => (OpenStage::Aborted, OpenAction::Nothing),
        _ => if !succeeded {
            (OpenStage::Aborted, OpenAction::Abandon)
        } else {
            match stage {
                OpenStage::Connecting => if signs_in {
                    (OpenStage::SigningIn, OpenAction::SignIn)
                } else {
                    (OpenStage::SelectingNamespace, OpenAction::UseNamespace)
                },
                OpenStage::SigningIn => (OpenStage::SelectingNamespace, OpenAction::UseNamespace),
                OpenStage::SelectingNamespace => (
                    OpenStage::SelectingDatabase,
                    OpenAction::UseDatabase,
                ),
                _ => (OpenStage::Installed, OpenAction::Install),
            }
        },
    }
}

/// The first step of every open: connect.
pub fn begin_open() -> (step: (OpenStage, OpenAction))
    ensures
        step == (OpenStage::Connecting, OpenAction::Connect),
{
    (OpenStage::Connecting, OpenAction::Connect)
}

/// Takes the outcome of the call that `stage` stands for and says what comes
/// next.
pub fn advance_open(stage: OpenStage, signs_in: bool, succeeded: bool) -> (step: (
    OpenStage,
    OpenAction,
))
    ensures
        step == open_transition(stage, signs_in, succeeded),
{
    match stage {
        OpenStage::Installed => (OpenStage::Installed, OpenAction::Nothing),
        OpenStage::Aborted => (OpenStage::Aborted, OpenAction::Nothing),
        OpenStage::Connecting => if !succeeded {
            (OpenStage::Aborted, OpenAction::Abandon)
        } else if signs_in {
            (OpenStage::SigningIn, OpenAction::SignIn)
        } else {
            (OpenStage::SelectingNamespace, OpenAction::UseNamespace)
        },
        OpenStage::SigningIn => if !succeeded {
            (OpenStage::Aborted, OpenAction::Abandon)
        } else {
            (OpenStage::SelectingNamespace, OpenAction::UseNamespace)
        },
        OpenStage::SelectingNamespace => if !succeeded {
            (OpenStage::Aborted, OpenAction::Abandon)
        } else {
            (OpenStage::SelectingDatabase, OpenAction::UseDatabase)
        },
        OpenStage::SelectingDatabase => if !succeeded {
            (OpenStage::Aborted, OpenAction::Abandon)
        } else {
            (OpenStage::Installed, OpenAction::Install)
        },
    }
}

/// The error of an open whose call at `stage` failed with `message`; `None`
/// at a stage that makes no call.
pub fn failure_at(stage: OpenStage, message: String) -> (error: Option<ConnectionError>)
    ensures
        match stage {
            OpenStage::Connecting => error == Some(ConnectionError::Connect(message)),
            OpenStage::SigningIn => error == Some(ConnectionError::SignIn(message)),
            OpenStage::SelectingNamespace => error == Some(ConnectionError::UseNamespace(message)),
            OpenStage::SelectingDatabase => error == Some(ConnectionError::UseDatabase(message)),
            _ => error is None,
        },
{
    match stage {
        OpenStage::Connecting => Some(ConnectionError::Connect(message)),
        OpenStage::SigningIn => Some(ConnectionError::SignIn(message)),
        OpenStage::SelectingNamespace => Some(ConnectionError::UseNamespace(message)),
        OpenStage::SelectingDatabase => Some(ConnectionError::UseDatabase(message)),
        _ => None,
    }
}

/// The stage that an open reaches when its calls end as `outcomes` says,
/// first call first.
pub open spec fn run_open(signs_in: bool, outcomes: Seq<bool>) -> OpenStage
    decreases outcomes.len(),
{
    if outcomes.len() == 0 {
        OpenStage::Connecting
    } else {
        open_transition(run_open(signs_in, outcomes.drop_last()), signs_in, outcomes.last()).0
    }
}

/// The number of calls that an open makes when none fails.
pub open spec fn calls_of_open(signs_in: bool) -> int {
    if signs_in {
        4
    } else {
        3
    }
}

/// A session is installed exactly when every call of the open was made and
/// succeeded; an open is aborted exactly when one of its calls failed after
/// all before it had succeeded. So a failure at any step leaves nothing to
/// install.
pub proof fn lemma_open_installs_only_after_every_call(signs_in: bool, outcomes: Seq<bool>)
    ensures
        run_open(signs_in, outcomes) == OpenStage::Installed <==> (outcomes.len() >= calls_of_open(
            signs_in,
        ) && forall|i: int| 0 <= i < calls_of_open(signs_in) ==> outcomes[i]),
        run_open(signs_in, outcomes) == OpenStage::Aborted <==> (exists|k: int|
            0 <= k < outcomes.len() && k < calls_of_open(signs_in) && !outcomes[k] && forall|i: int|
                0 <= i < k ==> outcomes[i]),
    decreases outcomes.len(),
{
    lemma_run_open(signs_in, outcomes);
    let n = calls_of_open(signs_in);
    let stage = run_open(signs_in, outcomes);
    if first_failure(outcomes, n) < 0 {
        assert forall|k: int|
            !(0 <= k < outcomes.len() && k < n && !outcomes[k] && forall|i: int|
                0 <= i < k ==> outcomes[i]) by {}
    } else {
        let k = first_failure(outcomes, n);
        assert(0 <= k < outcomes.len() && k < n && !outcomes[k] && forall|i: int|
            0 <= i < k ==> outcomes[i]);
    }
}

/// The index of the first failed call among the first `limit`, or -1.
pub open spec fn first_failure(outcomes: Seq<bool>, limit: int) -> int
    decreases outcomes.len(),
{
    if outcomes.len() == 0 {
        -1
    } else {
        let before = first_failure(outcomes.drop_last(), limit);
        if before >= 0 {
            before
        } else if outcomes.len() - 1 < limit && !outcomes.last() {
            outcomes.len() - 1
        } else {
            -1
        }
    }
}

/// What `first_failure` finds, and the stage that goes with it.
pub proof fn lemma_run_open(signs_in: bool, outcomes: Seq<bool>)
    ensures
        ({
            let n = calls_of_open(signs_in);
            let k = first_failure(outcomes, n);
            let stage = run_open(signs_in, outcomes);
            &&& -1 <= k < outcomes.len()
            &&& k < n
            &&& k >= 0 ==> !outcomes[k] && (forall|i: int| 0 <= i < k ==> outcomes[i]) && stage
                == OpenStage::Aborted
            &&& k < 0 ==> (forall|i: int| 0 <= i < outcomes.len() && i < n ==> outcomes[i])
            &&& k < 0 && outcomes.len() >= n ==> stage == OpenStage::Installed
            &&& k < 0 && outcomes.len() < n ==> stage != OpenStage::Installed && stage
                != OpenStage::Aborted
            &&& k < 0 && outcomes.len() == 0 ==> stage == OpenStage::Connecting
            &&& k < 0 && outcomes.len() == 1 && signs_in ==> stage == OpenStage::SigningIn
            &&& k < 0 && outcomes.len() == 1 && !signs_in ==> stage == OpenStage::SelectingNamespace
            &&& k < 0 && outcomes.len() == 2 && signs_in ==> stage == OpenStage::SelectingNamespace
            &&& k < 0 && outcomes.len() == 2 && !signs_in ==> stage == OpenStage::SelectingDatabase
            &&& k < 0 && outcomes.len() == 3 && signs_in ==> stage == OpenStage::SelectingDatabase
        }),
    decreases outcomes.len(),
{
    if outcomes.len() > 0 {
        lemma_run_open(signs_in, outcomes.drop_last());
        assert(forall|i: int| 0 <= i < outcomes.len() - 1 ==> outcomes.drop_last()[i] == outcomes[i]);
    }
}

} // verus!
