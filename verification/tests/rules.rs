use lenso_search::config::{validate_config, SearchConfig, SearchConfigError};
use lenso_search::contract::{caller_allowed, CallerContext};
use lenso_search::failure::Failure;
use lenso_search::rules::{
    valid_dimension, valid_document_reference, valid_name, valid_secret_reference,
};
use lenso_search::schema::schema_plan;
use lenso_search::text::{
    byte_length, chars_of, is_ascii_alphanumeric, is_control, is_white_space, trim,
};

fn texts(values: &[&str]) -> Vec<String> {
    values.iter().map(|value| (*value).to_owned()).collect()
}

#[test]
fn configuration_requires_trusted_query_and_index_callers() {
    assert_eq!(
        SearchConfig::new(
            "search",
            "search/database",
            Vec::new(),
            vec!["indexer".to_owned()]
        )
        .unwrap_err(),
        SearchConfigError::InvalidQueryCallers
    );
}

#[test]
fn configuration_reports_its_first_error() {
    let good = texts(&["work-service"]);
    let cases = [
        ("Search", "search/database", good.clone(), good.clone(), SearchConfigError::InvalidSchema),
        ("search", "/database", good.clone(), good.clone(), SearchConfigError::InvalidSecretReference),
        ("search", "search/database", texts(&["a b"]), good.clone(), SearchConfigError::InvalidQueryCallers),
        ("search", "search/database", good.clone(), Vec::new(), SearchConfigError::InvalidIndexerCallers),
        ("search", "search/database", good.clone(), texts(&["ok", ""]), SearchConfigError::InvalidIndexerCallers),
        ("", "", Vec::new(), Vec::new(), SearchConfigError::InvalidSchema),
        ("search", "", Vec::new(), Vec::new(), SearchConfigError::InvalidSecretReference),
    ];
    for (schema, secret, query, indexer, expected) in cases {
        assert_eq!(SearchConfig::new(schema, secret, query, indexer).unwrap_err(), expected);
    }
}

#[test]
fn configuration_keeps_what_it_was_given() {
    let config = SearchConfig::new(
        "search",
        "search/database",
        texts(&["work-service", "agent"]),
        texts(&["document-indexer"]),
    )
    .unwrap();
    assert_eq!(config.schema(), "search");
    assert_eq!(config.database_url_secret(), "search/database");
    assert_eq!(config.query_callers(), &texts(&["work-service", "agent"]));
    assert_eq!(config.indexer_callers(), &texts(&["document-indexer"]));
    assert_eq!(config.validate(), Ok(()));
    assert_eq!(validate_config(&config), Ok(()));
}

#[test]
fn configuration_errors_read_as_sentences() {
    assert_eq!(SearchConfigError::InvalidSchema.message(), "invalid owned PostgreSQL schema");
    assert_eq!(
        SearchConfigError::InvalidSecretReference.message(),
        "invalid database URL secret reference"
    );
    assert_eq!(
        SearchConfigError::InvalidQueryCallers.message(),
        "at least one valid query caller is required"
    );
    assert_eq!(
        SearchConfigError::InvalidIndexerCallers.message(),
        "at least one valid indexer caller is required"
    );
}

#[test]
fn schema_names_are_owned_lower_case_names() {
    for good in ["search", "s", "search_2", "publicly", "pgsearch", "information_schema_2"] {
        assert_eq!(schema_plan(good), Ok(()));
    }
    for bad in [
        "", "public", "information_schema", "pg_catalog", "pg_", "Search", "search-index", "1search",
        "_search", "suche\u{e4}", "a b",
    ] {
        assert_eq!(schema_plan(bad), Err(format!("invalid owned schema name `{bad}`")));
    }
    assert_eq!(schema_plan(&"a".repeat(63)), Ok(()));
    assert!(schema_plan(&"a".repeat(64)).is_err());
}

#[test]
fn names_are_plain_and_bounded() {
    for good in ["a", "org_acme", "A.b-c:9", ".", "x.y.", &"n".repeat(256)] {
        assert!(valid_name(good));
    }
    for bad in ["", "a b", "a/b", "\u{e9}", "a\0", "a\u{0430}", &"n".repeat(257), &"\u{e9}".repeat(128)] {
        assert!(!valid_name(bad));
    }
}

#[test]
fn dimensions_have_no_outer_dots() {
    assert!(valid_dimension("organization"));
    assert!(valid_dimension("a.b"));
    assert!(!valid_dimension(".a"));
    assert!(!valid_dimension("a."));
    assert!(!valid_dimension("."));
    assert!(!valid_dimension(""));
    assert!(valid_name(".a"));
}

#[test]
fn document_references_check_every_part() {
    assert!(valid_document_reference("organization", ".org", "document", "doc."));
    assert!(!valid_document_reference(".organization", "org", "document", "doc"));
    assert!(!valid_document_reference("organization", "", "document", "doc"));
    assert!(!valid_document_reference("organization", "org", "document.", "doc"));
    assert!(!valid_document_reference("organization", "org", "document", "d c"));
}

#[test]
fn secret_references_are_plain_relative_paths() {
    for good in ["a", "search/database", "a/b/c", ".a/b.", "...", "a/..b", &"s".repeat(256)] {
        assert!(valid_secret_reference(good));
    }
    for bad in [
        "", "/a", "a/", "a//b", ".", "..", "./a", "a/.", "a/..", "../a", "a/./b", "a/../b", "a:b",
        "a b", "\u{e9}", "/", &"s".repeat(257),
    ] {
        assert!(!valid_secret_reference(bad));
    }
}

#[test]
fn callers_match_letter_for_letter() {
    let allowed = texts(&["work-service", "agent"]);
    let context = |caller: Option<&str>| CallerContext {
        caller_instance: caller.map(|caller| caller.to_owned()),
    };
    assert!(caller_allowed(&context(Some("agent")), &allowed));
    assert!(caller_allowed(&context(Some("work-service")), &allowed));
    assert!(!caller_allowed(&context(Some("Agent")), &allowed));
    assert!(!caller_allowed(&context(Some("agen")), &allowed));
    assert!(!caller_allowed(&context(Some("agent ")), &allowed));
    assert!(!caller_allowed(&context(None), &allowed));
    assert!(!caller_allowed(&context(Some("agent")), &Vec::new()));
}

#[test]
fn character_classes_are_those_of_the_standard_library() {
    for code in 0..=0x0010_ffff_u32 {
        if let Some(c) = char::from_u32(code) {
            assert_eq!(is_white_space(c), c.is_whitespace());
            assert_eq!(is_control(c), c.is_control());
            assert_eq!(is_ascii_alphanumeric(c), c.is_ascii_alphanumeric());
        }
    }
}

#[test]
fn trimming_is_that_of_the_standard_library() {
    for value in [
        "", " ", "a", " a ", "\u{3000}a b\u{85}\n", "\t\r\n", "a\u{200b}", "\u{a0}\u{e9} x\u{2028}",
        "no trim", "  \0  ",
    ] {
        assert_eq!(trim(value), value.trim());
        assert_eq!(trim(trim(value)), trim(value));
    }
    assert_eq!(chars_of("a\u{e9}\u{1f600}"), vec!['a', '\u{e9}', '\u{1f600}']);
    assert_eq!(byte_length("a\u{e9}\u{1f600}"), 7);
}

#[test]
fn an_unusable_configuration_is_an_invalid_plan() {
    let config = SearchConfig::resolved(
        "pg_search".to_owned(),
        "search/database".to_owned(),
        texts(&["work-service"]),
        texts(&["document-indexer"]),
    );
    assert_eq!(config.schema(), "pg_search");
    assert_eq!(config.validate(), Err(SearchConfigError::InvalidSchema));
    assert_eq!(
        validate_config(&config),
        Err(Failure::InvalidResolvedPlan { detail: "invalid owned PostgreSQL schema".to_owned() })
    );
}
