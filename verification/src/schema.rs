use crate::definition::{
    analyzer_definition, analyzer_parts, definition_permissions, field_definition, field_parts,
    index_definition, index_parts, permission_parts, scope_definition, scope_parts,
    table_definition, table_parts, table_view, table_view_parts, texts_of, user_definition,
    user_parts, AnalyzerModel, AnalyzerParts, FieldModel, FieldParts, IndexModel, IndexParts,
    PermissionModel, PermissionParts, ScopeModel, ScopeParts, TableModel, TableParts, UserModel,
    UserParts, ViewModel, ViewParts,
};
use crate::text::{or_empty, owned, text_of, text_or_empty, texts, to_chars};
use vstd::prelude::*;

verus! {

/// What the SurrealQL parser of the surrealdb crate makes of a text: for
/// each statement of the query, in order, whether it is a live select; or
/// the description of the parser's error where the text is no query.
pub uninterp spec fn parsed_query(text: Seq<char>) -> Result<Seq<bool>, Seq<char>>;

/// Calls `surrealdb::sql::parse` and tells the statements apart, or copies
/// the error's text. The contract only gives this its name: nothing is
/// claimed of how the query language reads.
#[verifier::external_body]
pub(crate) fn parse_query(text: &str) -> (parsed: Result<Vec<bool>, String>)
    ensures
        found_kinds(parsed) == parsed_query(text@),
{
    match surrealdb::sql::parse(text) {
        Ok(query) => Ok(
            query.iter().map(|s| matches!(s, surrealdb::sql::Statement::Live(_))).collect(),
        ),
        Err(error) => Err(error.to_string()),
    }
}

/// What the parser made of a query, by the views of its parts.
pub open spec fn found_kinds(parsed: Result<Vec<bool>, String>) -> Result<Seq<bool>, Seq<char>> {
    match parsed {
        Ok(k) => Ok(k@),
        Err(e) => Err(e@),
    }
}

/// What is wrong with a query: nothing where it was parsed, else the
/// parser's description.
pub open spec fn complaint_of(parsed: Result<Seq<bool>, Seq<char>>) -> Option<Seq<char>> {
    match parsed {
        Ok(_) => None,
        Err(e) => Some(e),
    }
}

/// Says what is wrong with a query that the parser has read.
pub fn complaint(parsed: &Result<Vec<bool>, String>) -> (found: Option<String>)
    ensures
        text_of(found) == complaint_of(found_kinds(*parsed)),
{
    match parsed {
        Ok(_) => None,
        Err(e) => Some(owned(e.as_str())),
    }
}

/// Checks a query: `None` where it can be parsed, else the parser's
/// description of what is wrong.
pub fn validate_query(query: &str) -> (found: Option<String>)
    ensures
        text_of(found) == complaint_of(parsed_query(query@)),
{
    let parsed = parse_query(query);
    complaint(&parsed)
}

/// The query in which a condition is tried out.
pub open spec fn where_query(clause: Seq<char>) -> Seq<char> {
    "SELECT * FROM table WHERE "@ + clause
}

/// Checks a condition: whether a select that uses it can be parsed.
pub fn validate_where_clause(clause: &str) -> (valid: bool)
    ensures
        valid == parsed_query(where_query(clause@)) is Ok,
{
    let mut query = owned("SELECT * FROM table WHERE ");
    query.append(clause);
    parse_query(query.as_str()).is_ok()
}

/// What keeps a query from being watched: that it cannot be parsed, that it
/// is not exactly one statement, or that its statement is no live select.
pub open spec fn live_complaint_of(parsed: Result<Seq<bool>, Seq<char>>) -> Option<Seq<char>> {
    match parsed {
        Err(_) => Some("Expected valid query"@),
        Ok(kinds) => if kinds.len() != 1 {
            Some("Expected single query"@)
        } else if kinds[0] {
            None
        } else {
            Some("Expected live select"@)
        },
    }
}

/// Says what keeps a query that the parser has read from being watched.
pub fn live_complaint(parsed: &Result<Vec<bool>, String>) -> (found: Option<String>)
    ensures
        text_of(found) == live_complaint_of(found_kinds(*parsed)),
{
    match parsed {
        Err(_) => Some(owned("Expected valid query")),
        Ok(kinds) => {
            if kinds.len() != 1 {
                Some(owned("Expected single query"))
            } else if kinds[0] {
                None
            } else {
                Some(owned("Expected live select"))
            }
        },
    }
}

/// Checks that a query is exactly one live select: `None` where it is,
/// else what is expected.
pub fn validate_live_query(query: &str) -> (found: Option<String>)
    ensures
        text_of(found) == live_complaint_of(parsed_query(query@)),
{
    let parsed = parse_query(query);
    live_complaint(&parsed)
}

/// Who may do what with a table or a field, each as written in the
/// definition.
pub struct PermissionInfo {
    pub select: String,
    pub create: String,
    pub update: String,
    pub delete: String,
}

/// A scope as the inspector shows it.
pub struct ScopeInfo {
    pub name: String,
    pub signup: String,
    pub signin: String,
    pub session: String,
    pub comment: String,
}

/// The view that a table is defined as.
pub struct TableViewInfo {
    pub expr: String,
    pub what: String,
    pub cond: String,
    pub group: String,
}

/// A table as the inspector shows it.
pub struct TableInfo {
    pub name: String,
    pub drop: bool,
    pub schemafull: bool,
    pub view: Option<TableViewInfo>,
    pub permissions: PermissionInfo,
    pub comment: String,
    pub changefeed: bool,
    pub changetime: String,
}

/// A field as the inspector shows it.
pub struct FieldInfo {
    pub name: String,
    pub flexible: bool,
    pub kind: String,
    pub value: String,
    pub assert: String,
    pub default: String,
    pub permissions: PermissionInfo,
    pub comment: String,
}

/// An analyzer as the inspector shows it.
pub struct AnalyzerInfo {
    pub name: String,
    pub tokenizers: Vec<String>,
    pub filters: Vec<String>,
    pub comment: String,
}

/// What kind of index a definition makes.
#[derive(Clone, Copy, Debug, PartialEq, Eq, Structural)]
pub enum IndexKind {
    Normal,
    Unique,
    Search,
    Vector,
}

/// An index as the inspector shows it.
pub struct IndexInfo {
    pub name: String,
    pub fields: String,
    pub kind: IndexKind,
    pub search: String,
    pub vector: String,
    pub comment: String,
}

/// An event as the inspector shows it.
pub struct EventInfo {
    pub name: String,
    pub cond: String,
    pub then_: String,
    pub comment: String,
}

/// A user as the inspector shows it.
pub struct UserInfo {
    pub name: String,
    pub roles: Vec<String>,
    pub comment: String,
}

/// A text without its first and its last character: what stands between
/// the brackets of a block. Empty for a text of fewer than two characters.
pub open spec fn inside(text: Seq<char>) -> Seq<char> {
    if text.len() < 2 {
        Seq::empty()
    } else {
        text.subrange(1, text.len() - 1)
    }
}

/// Takes the brackets off a block.
pub fn unwrap_block(text: &str) -> (inner: String)
    ensures
        inner@ == inside(text@),
{
    let chars = to_chars(text);
    let mut inner = String::new();
    if chars.len() < 2 {
        return inner;
    }
    let mut i: usize = 1;
    assert(inner@ =~= chars@.subrange(1, 1));
    while i < chars.len() - 1
        invariant
            1 <= i <= chars.len() - 1,
            chars@ == text@,
            inner@ == chars@.subrange(1, i as int),
        decreases chars.len() - i,
    {
        inner.push(chars[i]);
        assert(inner@ =~= chars@.subrange(1, i + 1));
        i += 1;
    }
    inner
}

/// The text of an optional part of a definition, empty where the part is
/// missing.
pub fn parse_comment(comment: Option<String>) -> (text: String)
    ensures
        text@ == or_empty(text_of(comment)),
{
    match comment {
        Some(c) => c,
        None => String::new(),
    }
}

/// The four permissions as shown.
pub open spec fn describes_permissions(info: PermissionInfo, parts: PermissionModel) -> bool {
    &&& info.select@ == parts.select
    &&& info.create@ == parts.create
    &&& info.update@ == parts.update
    &&& info.delete@ == parts.delete
}

/// The permissions as shown where none were found: four empty texts.
pub open spec fn no_permissions(info: PermissionInfo) -> bool {
    &&& info.select@.len() == 0
    &&& info.create@.len() == 0
    &&& info.update@.len() == 0
    &&& info.delete@.len() == 0
}

/// Shows the permissions that were found, or four empty texts.
pub fn parse_permissions(found: Option<PermissionParts>) -> (info: PermissionInfo)
    ensures
        match found {
            Some(p) => describes_permissions(info, p@),
            None => no_permissions(info),
        },
{
    match found {
        Some(p) => PermissionInfo {
            select: p.select,
            create: p.create,
            update: p.update,
            delete: p.delete,
        },
        None => PermissionInfo {
            select: String::new(),
            create: String::new(),
            update: String::new(),
            delete: String::new(),
        },
    }
}

/// What an extraction reports where it gives no description: the parser's
/// error where the text is no query, else that no definition of the kind
/// was found.
pub open spec fn failure_of<T>(found: Result<Option<T>, Seq<char>>, missing: Seq<char>) -> Option<
    Seq<char>,
> {
    match found {
        Ok(Some(_)) => None,
        Ok(None) => Some(missing),
        Err(e) => Some(e),
    }
}

/// What was found, by its view.
pub open spec fn found_view<P: View>(found: Result<Option<P>, String>) -> Result<
    Option<P::V>,
    Seq<char>,
> {
    match found {
        Ok(Some(p)) => Ok(Some(p@)),
        Ok(None) => Ok(None),
        Err(e) => Err(e@),
    }
}

/// The parts that were found, or the failure to report.
fn found_or<P: View>(found: Result<Option<P>, String>, missing: &str) -> (out: Result<P, String>)
    ensures
        match out {
            Ok(p) => found == Ok::<_, String>(Some(p)),
            Err(e) => failure_of(found_view(found), missing@) == Some(e@),
        },
{
    match found {
        Ok(Some(p)) => Ok(p),
        Ok(None) => Err(owned(missing)),
        Err(e) => Err(e),
    }
}

/// A scope as shown: its queries without the brackets of their blocks, and
/// empty where the scope has none; its session as written, and as no time
/// at all where the scope sets none.
pub open spec fn describes_scope(info: ScopeInfo, parts: ScopeModel) -> bool {
    &&& info.name@ == parts.name
    &&& info.signup@ == inside(or_empty(parts.signup))
    &&& info.signin@ == inside(or_empty(parts.signin))
    &&& info.session@ == match parts.session {
        Some(length) => length,
        None => "0ns"@,
    }
    &&& info.comment@ == or_empty(parts.comment)
}

/// Describes a scope from the parts of its definition.
pub fn scope_info(parts: ScopeParts) -> (info: ScopeInfo)
    ensures
        describes_scope(info, parts@),
{
    let signup = text_or_empty(&parts.signup);
    let signin = text_or_empty(&parts.signin);
    ScopeInfo {
        name: parts.name,
        signup: unwrap_block(signup.as_str()),
        signin: unwrap_block(signin.as_str()),
        session: match parts.session {
            Some(length) => length,
            None => owned("0ns"),
        },
        comment: parse_comment(parts.comment),
    }
}

/// Describes the scope that was found, or reports why none was.
pub fn scope_from(found: Result<Option<ScopeParts>, String>) -> (info: Result<ScopeInfo, String>)
    ensures
        match info {
            Ok(i) => (found_view(found) matches Ok(Some(p)) && describes_scope(i, p)),
            Err(e) => failure_of(found_view(found), "Failed to extract scope"@) == Some(e@),
        },
{
    match found_or(found, "Failed to extract scope") {
        Ok(parts) => Ok(scope_info(parts)),
        Err(e) => Err(e),
    }
}

/// Describes the scope that a text defines.
pub fn extract_scope_definition(definition: &str) -> (info: Result<ScopeInfo, String>)
    ensures
        match info {
            Ok(i) => (scope_definition(definition@) matches Ok(Some(p)) && describes_scope(i, p)),
            Err(e) => failure_of(scope_definition(definition@), "Failed to extract scope"@) == Some(
                e@,
            ),
        },
{
    scope_from(scope_parts(definition))
}

/// The view of a table as shown.
pub open spec fn describes_view(info: TableViewInfo, parts: ViewModel) -> bool {
    &&& info.expr@ == parts.expr
    &&& info.what@ == parts.what
    &&& info.cond@ == or_empty(parts.cond)
    &&& info.group@ == or_empty(parts.group)
}

/// A table as shown.
pub open spec fn describes_table(
    info: TableInfo,
    parts: TableModel,
    view: Option<ViewModel>,
    permissions: Option<PermissionModel>,
) -> bool {
    &&& info.name@ == parts.name
    &&& info.drop == parts.drop
    &&& info.schemafull == parts.full
    &&& match view {
        Some(v) => info.view is Some && describes_view(info.view->0, v),
        None => info.view is None,
    }
    &&& match permissions {
        Some(p) => describes_permissions(info.permissions, p),
        None => no_permissions(info.permissions),
    }
    &&& info.comment@ == or_empty(parts.comment)
    &&& info.changefeed == (parts.changefeed is Some)
    &&& info.changetime@ == or_empty(parts.changefeed)
}

/// Describes the view of a table.
pub fn view_info(parts: ViewParts) -> (info: TableViewInfo)
    ensures
        describes_view(info, parts@),
{
    TableViewInfo {
        expr: parts.expr,
        what: parts.what,
        cond: parse_comment(parts.cond),
        group: parse_comment(parts.group),
    }
}

/// Describes the table that was found, or reports why none was.
pub fn table_from(
    found: Result<Option<TableParts>, String>,
    view: Option<ViewParts>,
    permissions: Option<PermissionParts>,
) -> (info: Result<TableInfo, String>)
    ensures
        match info {
            Ok(i) => (found_view(found) matches Ok(Some(p)) && describes_table(
                i,
                p,
                match view {
                    Some(v) => Some(v@),
                    None => None,
                },
                match permissions {
                    Some(q) => Some(q@),
                    None => None,
                },
            )),
            Err(e) => failure_of(found_view(found), "Failed to extract table"@) == Some(e@),
        },
{
    match found_or(found, "Failed to extract table") {
        Ok(parts) => {
            let shown = match view {
                Some(v) => Some(view_info(v)),
                None => None,
            };
            let changefeed = parts.changefeed.is_some();
            Ok(
                TableInfo {
                    name: parts.name,
                    drop: parts.drop,
                    schemafull: parts.full,
                    view: shown,
                    permissions: parse_permissions(permissions),
                    comment: parse_comment(parts.comment),
                    changefeed,
                    changetime: parse_comment(parts.changefeed),
                },
            )
        },
        Err(e) => Err(e),
    }
}

/// Describes the table that a text defines.
pub fn extract_table_definition(definition: &str) -> (info: Result<TableInfo, String>)
    ensures
        match info {
            Ok(i) => (table_definition(definition@) matches Ok(Some(p)) && describes_table(
                i,
                p,
                table_view(definition@),
                definition_permissions(definition@),
            )),
            Err(e) => failure_of(table_definition(definition@), "Failed to extract table"@) == Some(
                e@,
            ),
        },
{
    let found = table_parts(definition);
    let view = table_view_parts(definition);
    let permissions = permission_parts(definition);
    table_from(found, view, permissions)
}

/// A field as shown.
pub open spec fn describes_field(
    info: FieldInfo,
    parts: FieldModel,
    permissions: Option<PermissionModel>,
) -> bool {
    &&& info.name@ == parts.name
    &&& info.flexible == parts.flex
    &&& info.kind@ == or_empty(parts.kind)
    &&& info.value@ == or_empty(parts.value)
    &&& info.assert@ == or_empty(parts.assert)
    &&& info.default@ == or_empty(parts.default)
    &&& match permissions {
        Some(p) => describes_permissions(info.permissions, p),
        None => no_permissions(info.permissions),
    }
    &&& info.comment@ == or_empty(parts.comment)
}

/// Describes the field that was found, or reports why none was.
pub fn field_from(
    found: Result<Option<FieldParts>, String>,
    permissions: Option<PermissionParts>,
) -> (info: Result<FieldInfo, String>)
    ensures
        match info {
            Ok(i) => (found_view(found) matches Ok(Some(p)) && describes_field(
                i,
                p,
                match permissions {
                    Some(q) => Some(q@),
                    None => None,
                },
            )),
            Err(e) => failure_of(found_view(found), "Failed to extract field"@) == Some(e@),
        },
{
    match found_or(found, "Failed to extract field") {
        Ok(parts) => Ok(
            FieldInfo {
                name: parts.name,
                flexible: parts.flex,
                kind: parse_comment(parts.kind),
                value: parse_comment(parts.value),
                assert: parse_comment(parts.assert),
                default: parse_comment(parts.default),
                permissions: parse_permissions(permissions),
                comment: parse_comment(parts.comment),
            },
        ),
        Err(e) => Err(e),
    }
}

/// Describes the field that a text defines.
pub fn extract_field_definition(definition: &str) -> (info: Result<FieldInfo, String>)
    ensures
        match info {
            Ok(i) => (field_definition(definition@) matches Ok(Some(p)) && describes_field(
                i,
                p,
                definition_permissions(definition@),
            )),
            Err(e) => failure_of(field_definition(definition@), "Failed to extract field"@) == Some(
                e@,
            ),
        },
{
    let found = field_parts(definition);
    let permissions = permission_parts(definition);
    field_from(found, permissions)
}

/// The texts of an optional list, none where the list is missing.
pub open spec fn or_none(list: Option<Seq<Seq<char>>>) -> Seq<Seq<char>> {
    match list {
        Some(l) => l,
        None => Seq::empty(),
    }
}

/// The list that an optional list holds, empty where it is missing.
fn list_or_none(list: Option<Vec<String>>) -> (out: Vec<String>)
    ensures
        texts(out@) == or_none(texts_of(list)),
{
    match list {
        Some(l) => l,
        None => {
            let out: Vec<String> = Vec::new();
            assert(texts(out@) =~= Seq::<Seq<char>>::empty());
            out
        },
    }
}

/// An analyzer as shown.
pub open spec fn describes_analyzer(info: AnalyzerInfo, parts: AnalyzerModel) -> bool {
    &&& info.name@ == parts.name
    &&& texts(info.tokenizers@) == or_none(parts.tokenizers)
    &&& texts(info.filters@) == or_none(parts.filters)
    &&& info.comment@ == or_empty(parts.comment)
}

/// Describes the analyzer that was found, or reports why none was.
pub fn analyzer_from(found: Result<Option<AnalyzerParts>, String>) -> (info: Result<
    AnalyzerInfo,
    String,
>)
    ensures
        match info {
            Ok(i) => (found_view(found) matches Ok(Some(p)) && describes_analyzer(i, p)),
            Err(e) => failure_of(found_view(found), "Failed to extract index"@) == Some(e@),
        },
{
    match found_or(found, "Failed to extract index") {
        Ok(parts) => Ok(
            AnalyzerInfo {
                name: parts.name,
                tokenizers: list_or_none(parts.tokenizers),
                filters: list_or_none(parts.filters),
                comment: parse_comment(parts.comment),
            },
        ),
        Err(e) => Err(e),
    }
}

/// Describes the analyzer that a text defines.
pub fn extract_analyzer_definition(definition: &str) -> (info: Result<AnalyzerInfo, String>)
    ensures
        match info {
            Ok(i) => (analyzer_definition(definition@) matches Ok(Some(p)) && describes_analyzer(
                i,
                p,
            )),
            Err(e) => failure_of(analyzer_definition(definition@), "Failed to extract index"@)
                == Some(e@),
        },
{
    analyzer_from(analyzer_parts(definition))
}

/// An index as shown: the whole definition stands as the search settings
/// of a search index and as the vector settings of a vector index.
pub open spec fn describes_index(info: IndexInfo, parts: IndexModel) -> bool {
    &&& info.name@ == parts.name
    &&& info.fields@ == parts.fields
    &&& info.kind == parts.kind
    &&& info.search@ == if parts.kind == IndexKind::Search {
        parts.definition
    } else {
        Seq::<char>::empty()
    }
    &&& info.vector@ == if parts.kind == IndexKind::Vector {
        parts.definition
    } else {
        Seq::<char>::empty()
    }
    &&& info.comment@ == or_empty(parts.comment)
}

/// Describes an index from the parts of its definition.
pub fn index_info(parts: IndexParts) -> (info: IndexInfo)
    ensures
        describes_index(info, parts@),
{
    let search = match parts.kind {
        IndexKind::Search => owned(parts.definition.as_str()),
        _ => String::new(),
    };
    let vector = match parts.kind {
        IndexKind::Vector => owned(parts.definition.as_str()),
        _ => String::new(),
    };
    IndexInfo {
        name: parts.name,
        fields: parts.fields,
        kind: parts.kind,
        search,
        vector,
        comment: parse_comment(parts.comment),
    }
}

/// Describes the index that was found, or reports why none was.
pub fn index_from(found: Result<Option<IndexParts>, String>) -> (info: Result<IndexInfo, String>)
    ensures
        match info {
            Ok(i) => (found_view(found) matches Ok(Some(p)) && describes_index(i, p)),
            Err(e) => failure_of(found_view(found), "Failed to extract index"@) == Some(e@),
        },
{
    match found_or(found, "Failed to extract index") {
        Ok(parts) => Ok(index_info(parts)),
        Err(e) => Err(e),
    }
}

/// Describes the index that a text defines.
pub fn extract_index_definition(definition: &str) -> (info: Result<IndexInfo, String>)
    ensures
        match info {
            Ok(i) => (index_definition(definition@) matches Ok(Some(p)) && describes_index(i, p)),
            Err(e) => failure_of(index_definition(definition@), "Failed to extract index"@) == Some(
                e@,
            ),
        },
{
    index_from(index_parts(definition))
}

/// Describes an event from the parts of its definition as written; what it
/// does is shown without the brackets of its block.
pub fn event_info(name: String, cond: String, block: &str, comment: Option<String>) -> (info:
    EventInfo)
    ensures
        info.name == name,
        info.cond == cond,
        info.then_@ == inside(block@),
        info.comment@ == or_empty(text_of(comment)),
{
    EventInfo { name, cond, then_: unwrap_block(block), comment: parse_comment(comment) }
}

/// A user as shown.
pub open spec fn describes_user(info: UserInfo, parts: UserModel) -> bool {
    &&& info.name@ == parts.name
    &&& texts(info.roles@) == parts.roles
    &&& info.comment@ == or_empty(parts.comment)
}

/// Describes the user that was found, or reports why none was.
pub fn user_from(found: Result<Option<UserParts>, String>) -> (info: Result<UserInfo, String>)
    ensures
        match info {
            Ok(i) => (found_view(found) matches Ok(Some(p)) && describes_user(i, p)),
            Err(e) => failure_of(found_view(found), "Failed to extract user"@) == Some(e@),
        },
{
    match found_or(found, "Failed to extract user") {
        Ok(parts) => Ok(
            UserInfo {
                name: parts.name,
                roles: parts.roles,
                comment: parse_comment(parts.comment),
            },
        ),
        Err(e) => Err(e),
    }
}

/// Describes the user that a text defines.
pub fn extract_user_definition(definition: &str) -> (info: Result<UserInfo, String>)
    ensures
        match info {
            Ok(i) => (user_definition(definition@) matches Ok(Some(p)) && describes_user(i, p)),
            Err(e) => failure_of(user_definition(definition@), "Failed to extract user"@) == Some(
                e@,
            ),
        },
{
    user_from(user_parts(definition))
}

} // verus!
