use crate::schema::IndexKind;
use crate::text::{text_of, texts};
use surrealdb::sql::statements::DefineStatement;
use surrealdb::sql::{Index, Statement};
use vstd::prelude::*;

verus! {

/// The texts that an optional list of strings holds.
pub open spec fn texts_of(list: Option<Vec<String>>) -> Option<Seq<Seq<char>>> {
    match list {
        Some(l) => Some(texts(l@)),
        None => None,
    }
}

/// The parts of a scope's definition, each as the parser writes it.
pub struct ScopeParts {
    pub name: String,
    pub signup: Option<String>,
    pub signin: Option<String>,
    pub session: Option<String>,
    pub comment: Option<String>,
}

/// What [`ScopeParts`] stand for.
pub struct ScopeModel {
    pub name: Seq<char>,
    pub signup: Option<Seq<char>>,
    pub signin: Option<Seq<char>>,
    pub session: Option<Seq<char>>,
    pub comment: Option<Seq<char>>,
}

impl View for ScopeParts {
    type V = ScopeModel;

    open spec fn view(&self) -> ScopeModel {
        ScopeModel {
            name: self.name@,
            signup: text_of(self.signup),
            signin: text_of(self.signin),
            session: text_of(self.session),
            comment: text_of(self.comment),
        }
    }
}

/// The parts of a table's definition but its view and permissions.
pub struct TableParts {
    pub name: String,
    pub drop: bool,
    pub full: bool,
    pub comment: Option<String>,
    pub changefeed: Option<String>,
}

/// What [`TableParts`] stand for.
pub struct TableModel {
    pub name: Seq<char>,
    pub drop: bool,
    pub full: bool,
    pub comment: Option<Seq<char>>,
    pub changefeed: Option<Seq<char>>,
}

impl View for TableParts {
    type V = TableModel;

    open spec fn view(&self) -> TableModel {
        TableModel {
            name: self.name@,
            drop: self.drop,
            full: self.full,
            comment: text_of(self.comment),
            changefeed: text_of(self.changefeed),
        }
    }
}

/// The parts of the view that a table is defined as.
pub struct ViewParts {
    pub expr: String,
    pub what: String,
    pub cond: Option<String>,
    pub group: Option<String>,
}

/// What [`ViewParts`] stand for.
pub struct ViewModel {
    pub expr: Seq<char>,
    pub what: Seq<char>,
    pub cond: Option<Seq<char>>,
    pub group: Option<Seq<char>>,
}

impl View for ViewParts {
    type V = ViewModel;

    open spec fn view(&self) -> ViewModel {
        ViewModel {
            expr: self.expr@,
            what: self.what@,
            cond: text_of(self.cond),
            group: text_of(self.group),
        }
    }
}

/// The four permissions of a table or a field.
pub struct PermissionParts {
    pub select: String,
    pub create: String,
    pub update: String,
    pub delete: String,
}

/// What [`PermissionParts`] stand for.
pub struct PermissionModel {
    pub select: Seq<char>,
    pub create: Seq<char>,
    pub update: Seq<char>,
    pub delete: Seq<char>,
}

impl View for PermissionParts {
    type V = PermissionModel;

    open spec fn view(&self) -> PermissionModel {
        PermissionModel {
            select: self.select@,
            create: self.create@,
            update: self.update@,
            delete: self.delete@,
        }
    }
}

/// The parts of a field's definition but its permissions.
pub struct FieldParts {
    pub name: String,
    pub flex: bool,
    pub kind: Option<String>,
    pub value: Option<String>,
    pub assert: Option<String>,
    pub default: Option<String>,
    pub comment: Option<String>,
}

/// What [`FieldParts`] stand for.
pub struct FieldModel {
    pub name: Seq<char>,
    pub flex: bool,
    pub kind: Option<Seq<char>>,
    pub value: Option<Seq<char>>,
    pub assert: Option<Seq<char>>,
    pub default: Option<Seq<char>>,
    pub comment: Option<Seq<char>>,
}

impl View for FieldParts {
    type V = FieldModel;

    open spec fn view(&self) -> FieldModel {
        FieldModel {
            name: self.name@,
            flex: self.flex,
            kind: text_of(self.kind),
            value: text_of(self.value),
            assert: text_of(self.assert),
            default: text_of(self.default),
            comment: text_of(self.comment),
        }
    }
}

/// The parts of an analyzer's definition.
pub struct AnalyzerParts {
    pub name: String,
    pub tokenizers: Option<Vec<String>>,
    pub filters: Option<Vec<String>>,
    pub comment: Option<String>,
}

/// What [`AnalyzerParts`] stand for.
pub struct AnalyzerModel {
    pub name: Seq<char>,
    pub tokenizers: Option<Seq<Seq<char>>>,
    pub filters: Option<Seq<Seq<char>>>,
    pub comment: Option<Seq<char>>,
}

impl View for AnalyzerParts {
    type V = AnalyzerModel;

    open spec fn view(&self) -> AnalyzerModel {
        AnalyzerModel {
            name: self.name@,
            tokenizers: texts_of(self.tokenizers),
            filters: texts_of(self.filters),
            comment: text_of(self.comment),
        }
    }
}

/// The parts of an index's definition, and the definition as a whole.
pub struct IndexParts {
    pub name: String,
    pub fields: String,
    pub kind: IndexKind,
    pub definition: String,
    pub comment: Option<String>,
}

/// What [`IndexParts`] stand for.
pub struct IndexModel {
    pub name: Seq<char>,
    pub fields: Seq<char>,
    pub kind: IndexKind,
    pub definition: Seq<char>,
    pub comment: Option<Seq<char>>,
}

impl View for IndexParts {
    type V = IndexModel;

    open spec fn view(&self) -> IndexModel {
        IndexModel {
            name: self.name@,
            fields: self.fields@,
            kind: self.kind,
            definition: self.definition@,
            comment: text_of(self.comment),
        }
    }
}

/// The parts of a user's definition.
pub struct UserParts {
    pub name: String,
    pub roles: Vec<String>,
    pub comment: Option<String>,
}

/// What [`UserParts`] stand for.
pub struct UserModel {
    pub name: Seq<char>,
    pub roles: Seq<Seq<char>>,
    pub comment: Option<Seq<char>>,
}

impl View for UserParts {
    type V = UserModel;

    open spec fn view(&self) -> UserModel {
        UserModel { name: self.name@, roles: texts(self.roles@), comment: text_of(self.comment) }
    }
}

/// What the parser of the surrealdb crate finds where a text is read as
/// the definition of a scope: the parts of the first statement where that
/// defines a scope, nothing where it is another statement or none, or the
/// description of the parser's error.
pub uninterp spec fn scope_definition(text: Seq<char>) -> Result<Option<ScopeModel>, Seq<char>>;

/// The same for the definition of a table.
pub uninterp spec fn table_definition(text: Seq<char>) -> Result<Option<TableModel>, Seq<char>>;

/// The view of the table that the first statement defines; nothing where
/// it defines no table or a table without a view, or the text is no query.
pub uninterp spec fn table_view(text: Seq<char>) -> Option<ViewModel>;

/// The permissions of the table or the field that the first statement
/// defines; nothing where it defines neither or the text is no query.
pub uninterp spec fn definition_permissions(text: Seq<char>) -> Option<PermissionModel>;

/// The same as [`scope_definition`] for the definition of a field.
pub uninterp spec fn field_definition(text: Seq<char>) -> Result<Option<FieldModel>, Seq<char>>;

/// The same for the definition of an analyzer.
pub uninterp spec fn analyzer_definition(text: Seq<char>) -> Result<
    Option<AnalyzerModel>,
    Seq<char>,
>;

/// The same for the definition of an index.
pub uninterp spec fn index_definition(text: Seq<char>) -> Result<Option<IndexModel>, Seq<char>>;

/// The same for the definition of a user.
pub uninterp spec fn user_definition(text: Seq<char>) -> Result<Option<UserModel>, Seq<char>>;

/// Calls `surrealdb::sql::parse` and, where the first statement defines a
/// scope, writes its parts out with their `Display`. The contract only
/// gives the result its name.
#[verifier::external_body]
pub(crate) fn scope_parts(text: &str) -> (found: Result<Option<ScopeParts>, String>)
    ensures
        match found {
            Ok(Some(p)) => scope_definition(text@) == Ok::<_, Seq<char>>(Some(p@)),
            Ok(None) => scope_definition(text@) == Ok::<Option<ScopeModel>, Seq<char>>(None),
            Err(e) => scope_definition(text@) == Err::<Option<ScopeModel>, _>(e@),
        },
{
    Ok(match surrealdb::sql::parse(text).map_err(|e| e.to_string())?.first() {
        Some(Statement::Define(DefineStatement::Scope(s))) => Some(ScopeParts {
            name: s.name.to_raw(),
            signup: s.signup.as_ref().map(ToString::to_string),
            signin: s.signin.as_ref().map(ToString::to_string),
            session: s.session.as_ref().map(ToString::to_string),
            comment: s.comment.as_ref().map(|c| c.as_str().to_owned()),
        }),
        _ => None,
    })
}

/// Calls `surrealdb::sql::parse` and, where the first statement defines a
/// table, writes its name, flags, comment and change feed out. The contract
/// only gives the result its name.
#[verifier::external_body]
pub(crate) fn table_parts(text: &str) -> (found: Result<Option<TableParts>, String>)
    ensures
        match found {
            Ok(Some(p)) => table_definition(text@) == Ok::<_, Seq<char>>(Some(p@)),
            Ok(None) => table_definition(text@) == Ok::<Option<TableModel>, Seq<char>>(None),
            Err(e) => table_definition(text@) == Err::<Option<TableModel>, _>(e@),
        },
{
    Ok(match surrealdb::sql::parse(text).map_err(|e| e.to_string())?.first() {
        Some(Statement::Define(DefineStatement::Table(t))) => Some(TableParts {
            name: t.name.to_raw(),
            drop: t.drop,
            full: t.full,
            comment: t.comment.as_ref().map(|c| c.as_str().to_owned()),
            changefeed: t.changefeed.as_ref().map(ToString::to_string),
        }),
        _ => None,
    })
}

/// Calls `surrealdb::sql::parse` and, where the first statement defines a
/// table with a view, writes the view's parts out. The contract only gives
/// the result its name.
#[verifier::external_body]
pub(crate) fn table_view_parts(text: &str) -> (found: Option<ViewParts>)
    ensures
        match found {
            Some(p) => table_view(text@) == Some(p@),
            None => table_view(text@) is None,
        },
{
    match surrealdb::sql::parse(text).ok()?.first() {
        Some(Statement::Define(DefineStatement::Table(t))) => t.view.as_ref().map(|v| ViewParts {
            expr: v.expr.to_string(),
            what: v.what.to_string(),
            cond: v.cond.as_ref().map(ToString::to_string),
            group: v.group.as_ref().map(ToString::to_string),
        }),
        _ => None,
    }
}

/// Calls `surrealdb::sql::parse` and, where the first statement defines a
/// table or a field, writes its four permissions out. The contract only
/// gives the result its name.
#[verifier::external_body]
pub(crate) fn permission_parts(text: &str) -> (found: Option<PermissionParts>)
    ensures
        match found {
            Some(p) => definition_permissions(text@) == Some(p@),
            None => definition_permissions(text@) is None,
        },
{
    let parsed = surrealdb::sql::parse(text).ok()?;
    let permissions = match parsed.first() {
        Some(Statement::Define(DefineStatement::Table(t))) => &t.permissions,
        Some(Statement::Define(DefineStatement::Field(f))) => &f.permissions,
        _ => return None,
    };
    Some(PermissionParts {
        select: permissions.select.to_string(),
        create: permissions.create.to_string(),
        update: permissions.update.to_string(),
        delete: permissions.delete.to_string(),
    })
}

/// Calls `surrealdb::sql::parse` and, where the first statement defines a
/// field, writes its parts but the permissions out. The contract only gives
/// the result its name.
#[verifier::external_body]
pub(crate) fn field_parts(text: &str) -> (found: Result<Option<FieldParts>, String>)
    ensures
        match found {
            Ok(Some(p)) => field_definition(text@) == Ok::<_, Seq<char>>(Some(p@)),
            Ok(None) => field_definition(text@) == Ok::<Option<FieldModel>, Seq<char>>(None),
            Err(e) => field_definition(text@) == Err::<Option<FieldModel>, _>(e@),
        },
{
    Ok(match surrealdb::sql::parse(text).map_err(|e| e.to_string())?.first() {
        Some(Statement::Define(DefineStatement::Field(f))) => Some(FieldParts {
            name: f.name.to_string(),
            flex: f.flex,
            kind: f.kind.as_ref().map(ToString::to_string),
            value: f.value.as_ref().map(ToString::to_string),
            assert: f.assert.as_ref().map(ToString::to_string),
            default: f.default.as_ref().map(ToString::to_string),
            comment: f.comment.as_ref().map(|c| c.as_str().to_owned()),
        }),
        _ => None,
    })
}

/// Calls `surrealdb::sql::parse` and, where the first statement defines an
/// analyzer, writes its parts out. The contract only gives the result its
/// name.
#[verifier::external_body]
pub(crate) fn analyzer_parts(text: &str) -> (found: Result<Option<AnalyzerParts>, String>)
    ensures
        match found {
            Ok(Some(p)) => analyzer_definition(text@) == Ok::<_, Seq<char>>(Some(p@)),
            Ok(None) => analyzer_definition(text@) == Ok::<Option<AnalyzerModel>, Seq<char>>(None),
            Err(e) => analyzer_definition(text@) == Err::<Option<AnalyzerModel>, _>(e@),
        },
{
    Ok(match surrealdb::sql::parse(text).map_err(|e| e.to_string())?.first() {
        Some(Statement::Define(DefineStatement::Analyzer(a))) => Some(AnalyzerParts {
            name: a.name.to_string(),
            tokenizers: a.tokenizers.as_ref().map(|t| t.iter().map(ToString::to_string).collect()),
            filters: a.filters.as_ref().map(|t| t.iter().map(ToString::to_string).collect()),
            comment: a.comment.as_ref().map(|c| c.as_str().to_owned()),
        }),
        _ => None,
    })
}

/// Calls `surrealdb::sql::parse` and, where the first statement defines an
/// index, writes its parts and the whole definition out and tells the kinds
/// of index apart. The contract only gives the result its name.
#[verifier::external_body]
pub(crate) fn index_parts(text: &str) -> (found: Result<Option<IndexParts>, String>)
    ensures
        match found {
            Ok(Some(p)) => index_definition(text@) == Ok::<_, Seq<char>>(Some(p@)),
            Ok(None) => index_definition(text@) == Ok::<Option<IndexModel>, Seq<char>>(None),
            Err(e) => index_definition(text@) == Err::<Option<IndexModel>, _>(e@),
        },
{
    Ok(match surrealdb::sql::parse(text).map_err(|e| e.to_string())?.first() {
        Some(Statement::Define(DefineStatement::Index(i))) => Some(IndexParts {
            name: i.name.to_string(),
            fields: i.cols.to_string(),
            kind: match i.index {
                Index::Idx => IndexKind::Normal,
                Index::Uniq => IndexKind::Unique,
                Index::Search(_) => IndexKind::Search,
                Index::MTree(_) => IndexKind::Vector,
            },
            definition: i.to_string(),
            comment: i.comment.as_ref().map(|c| c.as_str().to_owned()),
        }),
        _ => None,
    })
}

/// Calls `surrealdb::sql::parse` and, where the first statement defines a
/// user, writes its parts out. The contract only gives the result its name.
#[verifier::external_body]
pub(crate) fn user_parts(text: &str) -> (found: Result<Option<UserParts>, String>)
    ensures
        match found {
            Ok(Some(p)) => user_definition(text@) == Ok::<_, Seq<char>>(Some(p@)),
            Ok(None) => user_definition(text@) == Ok::<Option<UserModel>, Seq<char>>(None),
            Err(e) => user_definition(text@) == Err::<Option<UserModel>, _>(e@),
        },
{
    Ok(match surrealdb::sql::parse(text).map_err(|e| e.to_string())?.first() {
        Some(Statement::Define(DefineStatement::User(u))) => Some(UserParts {
            name: u.name.to_string(),
            roles: u.roles.iter().map(ToString::to_string).collect(),
            comment: u.comment.as_ref().map(|c| c.as_str().to_owned()),
        }),
        _ => None,
    })
}

} // verus!
