use surrealist::definition::{IndexParts, ScopeParts};
use surrealist::schema::{
    event_info, extract_analyzer_definition, extract_field_definition, extract_index_definition,
    extract_scope_definition, extract_table_definition, extract_user_definition, index_info,
    parse_comment, scope_from, scope_info, unwrap_block, IndexKind,
};

#[test]
fn blocks_lose_their_brackets() {
    assert_eq!(unwrap_block("(SELECT 1)"), "SELECT 1");
    assert_eq!(unwrap_block("{ a; b }"), " a; b ");
    assert_eq!(unwrap_block("()"), "");
    assert_eq!(unwrap_block("("), "");
    assert_eq!(unwrap_block(""), "");
    assert_eq!(unwrap_block("⟨µ⟩"), "µ");
}

#[test]
fn missing_comment_is_empty() {
    assert_eq!(parse_comment(None), "");
    assert_eq!(parse_comment(Some("note".to_string())), "note");
}

#[test]
fn scope_is_described() {
    let info = extract_scope_definition(
        "DEFINE SCOPE account SESSION 24h SIGNUP ( CREATE user SET email = $email ) SIGNIN ( SELECT * FROM user WHERE email = $email ) COMMENT 'people'",
    )
    .unwrap();
    assert_eq!(info.name, "account");
    assert_eq!(info.signup, "CREATE user SET email = $email");
    assert_eq!(info.signin, "SELECT * FROM user WHERE email = $email");
    assert_eq!(info.session, "1d");
    assert_eq!(info.comment, "people");
}

#[test]
fn scope_without_queries_shows_none() {
    let info = extract_scope_definition("DEFINE SCOPE bare").unwrap();
    assert_eq!(info.name, "bare");
    assert_eq!(info.signup, "");
    assert_eq!(info.signin, "");
    assert_eq!(info.session, "0ns");
    assert_eq!(info.comment, "");
}

#[test]
fn scope_from_parts() {
    let parts = ScopeParts {
        name: "s".to_string(),
        signup: Some("(a)".to_string()),
        signin: None,
        session: Some("1h".to_string()),
        comment: None,
    };
    let info = scope_info(parts);
    assert_eq!(info.signup, "a");
    assert_eq!(info.signin, "");
    assert_eq!(info.session, "1h");
    let bare = scope_info(ScopeParts {
        name: "s".to_string(),
        signup: None,
        signin: None,
        session: None,
        comment: None,
    });
    assert_eq!(bare.session, "0ns");
    assert_eq!(scope_from(Ok(None)).err(), Some("Failed to extract scope".to_string()));
    assert_eq!(scope_from(Err("bad".to_string())).err(), Some("bad".to_string()));
}

#[test]
fn other_statements_are_no_scope() {
    assert_eq!(
        extract_scope_definition("DEFINE TABLE t").err(),
        Some("Failed to extract scope".to_string())
    );
    assert_eq!(
        extract_scope_definition("SELECT * FROM t").err(),
        Some("Failed to extract scope".to_string())
    );
    let error = extract_scope_definition("DEFINE SCOPE").err().unwrap();
    assert_ne!(error, "Failed to extract scope");
    assert_eq!(Some(error), surrealist::schema::validate_query("DEFINE SCOPE"));
}

#[test]
fn table_is_described() {
    let info = extract_table_definition(
        "DEFINE TABLE person DROP SCHEMAFULL CHANGEFEED 1h PERMISSIONS FOR select FULL, FOR create, update WHERE admin = true, FOR delete NONE COMMENT 'all of us'",
    )
    .unwrap();
    assert_eq!(info.name, "person");
    assert!(info.drop);
    assert!(info.schemafull);
    assert!(info.view.is_none());
    assert_eq!(info.permissions.select, "FULL");
    assert_eq!(info.permissions.create, "WHERE admin = true");
    assert_eq!(info.permissions.update, "WHERE admin = true");
    assert_eq!(info.permissions.delete, "NONE");
    assert_eq!(info.comment, "all of us");
    assert!(info.changefeed);
    assert_eq!(info.changetime, "CHANGEFEED 1h");
}

#[test]
fn table_view_is_described() {
    let info = extract_table_definition(
        "DEFINE TABLE adults AS SELECT name, age FROM person WHERE age >= 18 GROUP BY name",
    )
    .unwrap();
    assert_eq!(info.name, "adults");
    assert!(!info.drop);
    assert!(!info.schemafull);
    assert!(!info.changefeed);
    assert_eq!(info.changetime, "");
    let view = info.view.unwrap();
    assert_eq!(view.expr, "name, age");
    assert_eq!(view.what, "person");
    assert_eq!(view.cond, "WHERE age >= 18");
    assert_eq!(view.group, "GROUP BY name");
    assert_eq!(
        extract_table_definition("DEFINE FIELD a ON t").err(),
        Some("Failed to extract table".to_string())
    );
}

#[test]
fn field_is_described() {
    let info = extract_field_definition(
        "DEFINE FIELD age ON person FLEXIBLE TYPE int VALUE $value OR 0 ASSERT $value >= 0 DEFAULT 1 PERMISSIONS NONE COMMENT 'years'",
    )
    .unwrap();
    assert_eq!(info.name, "age");
    assert!(info.flexible);
    assert_eq!(info.kind, "int");
    assert_eq!(info.value, "$value OR 0");
    assert_eq!(info.assert, "$value >= 0");
    assert_eq!(info.default, "1");
    assert_eq!(info.permissions.select, "NONE");
    assert_eq!(info.permissions.delete, "NONE");
    assert_eq!(info.comment, "years");
    let bare = extract_field_definition("DEFINE FIELD name ON person").unwrap();
    assert!(!bare.flexible);
    assert_eq!(bare.kind, "");
    assert_eq!(bare.value, "");
    assert_eq!(bare.assert, "");
    assert_eq!(bare.default, "");
    assert_eq!(bare.permissions.select, "FULL");
    assert_eq!(
        extract_field_definition("DEFINE TABLE t").err(),
        Some("Failed to extract field".to_string())
    );
}

#[test]
fn analyzer_is_described() {
    let info = extract_analyzer_definition(
        "DEFINE ANALYZER english TOKENIZERS blank, class FILTERS lowercase, snowball(english) COMMENT 'en'",
    )
    .unwrap();
    assert_eq!(info.name, "english");
    assert_eq!(info.tokenizers, vec!["BLANK", "CLASS"]);
    assert_eq!(info.filters, vec!["LOWERCASE", "SNOWBALL(ENGLISH)"]);
    assert_eq!(info.comment, "en");
    let bare = extract_analyzer_definition("DEFINE ANALYZER bare").unwrap();
    assert!(bare.tokenizers.is_empty());
    assert!(bare.filters.is_empty());
    assert_eq!(
        extract_analyzer_definition("DEFINE TABLE t").err(),
        Some("Failed to extract index".to_string())
    );
}

#[test]
fn index_is_described_by_kind() {
    let plain = extract_index_definition("DEFINE INDEX by_name ON person FIELDS name, age").unwrap();
    assert_eq!(plain.name, "by_name");
    assert_eq!(plain.fields, "name, age");
    assert_eq!(plain.kind, IndexKind::Normal);
    assert_eq!(plain.search, "");
    assert_eq!(plain.vector, "");
    let unique = extract_index_definition("DEFINE INDEX u ON person FIELDS email UNIQUE COMMENT 'one'").unwrap();
    assert_eq!(unique.kind, IndexKind::Unique);
    assert_eq!(unique.search, "");
    assert_eq!(unique.vector, "");
    assert_eq!(unique.comment, "one");
    let search = extract_index_definition(
        "DEFINE INDEX s ON person FIELDS bio SEARCH ANALYZER english BM25 HIGHLIGHTS",
    )
    .unwrap();
    assert_eq!(search.kind, IndexKind::Search);
    assert!(search.search.starts_with("DEFINE INDEX s ON person FIELDS bio SEARCH ANALYZER english BM25"));
    assert_eq!(search.vector, "");
    let vector = extract_index_definition("DEFINE INDEX v ON person FIELDS embedding MTREE DIMENSION 4").unwrap();
    assert_eq!(vector.kind, IndexKind::Vector);
    assert_eq!(vector.search, "");
    assert!(vector.vector.starts_with("DEFINE INDEX v ON person FIELDS embedding MTREE DIMENSION 4"));
    assert_eq!(
        extract_index_definition("DEFINE TABLE t").err(),
        Some("Failed to extract index".to_string())
    );
}

#[test]
fn index_from_parts() {
    let parts = |kind| IndexParts {
        name: "i".to_string(),
        fields: "f".to_string(),
        kind,
        definition: "DEFINE INDEX i".to_string(),
        comment: None,
    };
    assert_eq!(index_info(parts(IndexKind::Search)).search, "DEFINE INDEX i");
    assert_eq!(index_info(parts(IndexKind::Search)).vector, "");
    assert_eq!(index_info(parts(IndexKind::Vector)).vector, "DEFINE INDEX i");
    assert_eq!(index_info(parts(IndexKind::Vector)).search, "");
    assert_eq!(index_info(parts(IndexKind::Normal)).search, "");
    assert_eq!(index_info(parts(IndexKind::Unique)).vector, "");
}

#[test]
fn event_is_described() {
    let info = event_info(
        "changed".to_string(),
        "$before.email != $after.email".to_string(),
        "(CREATE log SET at = time::now())",
        Some("audit".to_string()),
    );
    assert_eq!(info.name, "changed");
    assert_eq!(info.cond, "$before.email != $after.email");
    assert_eq!(info.then_, "CREATE log SET at = time::now()");
    assert_eq!(info.comment, "audit");
}

#[test]
fn user_is_described() {
    let info = extract_user_definition(
        "DEFINE USER admin ON ROOT PASSWORD 'secret' ROLES OWNER, EDITOR COMMENT 'boss'",
    )
    .unwrap();
    assert_eq!(info.name, "admin");
    assert_eq!(info.roles, vec!["OWNER", "EDITOR"]);
    assert_eq!(info.comment, "boss");
    assert_eq!(
        extract_user_definition("DEFINE TABLE t").err(),
        Some("Failed to extract user".to_string())
    );
}
