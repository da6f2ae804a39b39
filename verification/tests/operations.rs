use std::collections::BTreeMap;

use lenso_search::config::SearchConfig;
use lenso_search::contract::{
    CallerContext, DeleteDocumentError, DeleteDocumentRequest, DeleteDocumentResponse, SearchError,
    SearchRequest, SearchResponse, SearchResponseReferencesItem, UpsertDocumentError,
    UpsertDocumentRequest, UpsertDocumentResponse,
};
use lenso_search::delete::{delete_document, DeleteReply};
use lenso_search::failure::Failure;
use lenso_search::lifecycle::SearchState;
use lenso_search::query::{decode_references, query_references, SearchReply};
use lenso_search::store::{
    Binding, DocumentRef, ReferenceRow, ScopeRef, Step, StoreAnswer, StoreCommand,
};
use lenso_search::upsert::{upsert_document, UpsertReply, MAX_SEARCH_TEXT_BYTES};

type ScopeKey = (String, String);
type DocumentKey = (String, String, String, String);

/// Two tables that answer commands as the statements do.
#[derive(Clone, Debug, Default, PartialEq)]
struct Tables {
    scopes: BTreeMap<ScopeKey, i64>,
    documents: BTreeMap<DocumentKey, String>,
}

fn scope_key(scope: &ScopeRef) -> ScopeKey {
    (scope.scope_kind.clone(), scope.scope_id.clone())
}

fn document_key(document: &DocumentRef) -> DocumentKey {
    (
        document.scope.scope_kind.clone(),
        document.scope.scope_id.clone(),
        document.source_kind.clone(),
        document.source_id.clone(),
    )
}

impl Tables {
    fn answer(&mut self, command: &StoreCommand) -> StoreAnswer {
        match command {
            StoreCommand::ReadRevision { scope } | StoreCommand::LockScope { scope } => {
                StoreAnswer::Revision(self.scopes.get(&scope_key(scope)).copied())
            }
            StoreCommand::EnsureScope { scope } => {
                self.scopes.entry(scope_key(scope)).or_insert(0);
                StoreAnswer::Done
            }
            StoreCommand::LockRevision { scope } => match self.scopes.get(&scope_key(scope)) {
                Some(revision) => StoreAnswer::CurrentRevision(*revision),
                None => StoreAnswer::Failed,
            },
            StoreCommand::AdvanceRevision { scope } => {
                match self.scopes.get_mut(&scope_key(scope)) {
                    Some(revision) if *revision < i64::MAX => {
                        *revision += 1;
                        StoreAnswer::CurrentRevision(*revision)
                    }
                    _ => StoreAnswer::Failed,
                }
            }
            StoreCommand::ReadDocument { document } => {
                StoreAnswer::Text(self.documents.get(&document_key(document)).cloned())
            }
            StoreCommand::WriteDocument { document, search_text } => {
                self.documents.insert(document_key(document), search_text.clone());
                StoreAnswer::Done
            }
            StoreCommand::DeleteDocument { document } => {
                let removed = self.documents.remove(&document_key(document));
                StoreAnswer::Affected(u64::from(removed.is_some()))
            }
            StoreCommand::FindReferences { scope, source_kinds, query, limit } => {
                let rows = self
                    .documents
                    .iter()
                    .filter(|(key, text)| {
                        (key.0.clone(), key.1.clone()) == scope_key(scope)
                            && source_kinds.contains(&key.2)
                            && text.to_lowercase().contains(&query.to_lowercase())
                    })
                    .take(usize::try_from(*limit).unwrap())
                    .map(|(key, _)| ReferenceRow {
                        source_kind: Some(key.2.clone()),
                        source_id: Some(key.3.clone()),
                    })
                    .collect();
                StoreAnswer::Rows(rows)
            }
            _ => StoreAnswer::Done,
        }
    }
}

struct Plugin {
    config: SearchConfig,
    state: SearchState<()>,
    tables: Tables,
    refused: Option<StoreCommand>,
    asked: Vec<&'static str>,
}

fn config() -> SearchConfig {
    SearchConfig::new(
        "search",
        "search/database",
        vec!["work-service".to_owned()],
        vec!["document-indexer".to_owned()],
    )
    .unwrap()
}

fn unprepared() -> Plugin {
    Plugin {
        config: config(),
        state: SearchState::new(),
        tables: Tables::default(),
        refused: None,
        asked: Vec::new(),
    }
}

fn prepared() -> Plugin {
    let mut plugin = unprepared();
    plugin.state.activate(Ok(())).unwrap();
    plugin
}

fn caller(name: &str) -> CallerContext {
    CallerContext { caller_instance: Some(name.to_owned()) }
}

impl Plugin {
    fn ask(&mut self, tables: &mut Tables, command: &StoreCommand) -> StoreAnswer {
        self.asked.push(command.operation());
        if self.refused.as_ref() == Some(command) {
            StoreAnswer::Failed
        } else {
            tables.answer(command)
        }
    }

    fn query(&mut self, context: &CallerContext, request: SearchRequest) -> SearchReply {
        let mut tables = self.tables.clone();
        let mut step = query_references(&self.config, context, &self.state, request);
        loop {
            match step {
                Step::Finished(reply) => {
                    assert_eq!(tables, self.tables);
                    return reply;
                }
                Step::Continue(session) => {
                    let answer = self.ask(&mut tables, &session.command());
                    step = session.advance(answer);
                }
            }
        }
    }

    fn upsert(&mut self, context: &CallerContext, request: UpsertDocumentRequest) -> UpsertReply {
        let mut tables = self.tables.clone();
        let mut step = upsert_document(&self.config, context, &self.state, request);
        loop {
            match step {
                Step::Finished(reply) => {
                    if reply.is_ok() {
                        self.tables = tables;
                    }
                    return reply;
                }
                Step::Continue(session) => {
                    let answer = self.ask(&mut tables, &session.command());
                    step = session.advance(answer);
                }
            }
        }
    }

    fn delete(&mut self, context: &CallerContext, request: DeleteDocumentRequest) -> DeleteReply {
        let mut tables = self.tables.clone();
        let mut step = delete_document(&self.config, context, &self.state, request);
        loop {
            match step {
                Step::Finished(reply) => {
                    if reply.is_ok() {
                        self.tables = tables;
                    }
                    return reply;
                }
                Step::Continue(session) => {
                    let answer = self.ask(&mut tables, &session.command());
                    step = session.advance(answer);
                }
            }
        }
    }
}

fn search(query: &str) -> SearchRequest {
    SearchRequest {
        scope_kind: "organization".to_owned(),
        scope_id: "org_acme".to_owned(),
        query: query.to_owned(),
        source_kinds: vec!["document".to_owned()],
        limit: 10,
    }
}

fn document(source_id: &str, search_text: &str) -> UpsertDocumentRequest {
    UpsertDocumentRequest {
        scope_kind: "organization".to_owned(),
        scope_id: "org_acme".to_owned(),
        source_kind: "document".to_owned(),
        source_id: source_id.to_owned(),
        search_text: search_text.to_owned(),
    }
}

fn removal(source_id: &str) -> DeleteDocumentRequest {
    DeleteDocumentRequest {
        scope_kind: "organization".to_owned(),
        scope_id: "org_acme".to_owned(),
        source_kind: "document".to_owned(),
        source_id: source_id.to_owned(),
    }
}

fn scope() -> ScopeRef {
    ScopeRef { scope_kind: "organization".to_owned(), scope_id: "org_acme".to_owned() }
}

fn document_ref(source_id: &str) -> DocumentRef {
    DocumentRef {
        scope: scope(),
        source_kind: "document".to_owned(),
        source_id: source_id.to_owned(),
    }
}

fn database_failure(operation: &str) -> Failure {
    Failure::PluginFailure { detail: format!("PostgreSQL operation `{operation}` failed") }
}

#[test]
fn direct_untrusted_query_is_rejected_before_storage_access() {
    let mut plugin = unprepared();
    let result = plugin.query(&caller("untrusted"), search("quarterly report")).unwrap();
    assert_eq!(result, Err(SearchError::Forbidden));
    assert!(plugin.asked.is_empty());
}

#[test]
fn oversized_document_is_rejected_before_storage_access() {
    let mut plugin = unprepared();
    let result = plugin
        .upsert(
            &caller("document-indexer"),
            document("doc_1", &"x".repeat(MAX_SEARCH_TEXT_BYTES + 1)),
        )
        .unwrap();
    assert_eq!(result, Err(UpsertDocumentError::InvalidDocument));
    assert!(plugin.asked.is_empty());
}

#[test]
fn postgres_nul_document_is_rejected_as_a_domain_error() {
    let mut plugin = unprepared();
    let result = plugin
        .upsert(&caller("document-indexer"), document("doc_1", "quarterly\0report"))
        .unwrap();
    assert_eq!(result, Err(UpsertDocumentError::InvalidDocument));
    assert!(plugin.asked.is_empty());
}

#[test]
fn index_is_idempotent_rebuildable_and_reference_only() {
    let mut plugin = prepared();
    let indexer = caller("document-indexer");
    let document = document("doc_1", "Quarterly report finance");
    let first = plugin.upsert(&indexer, document.clone()).unwrap().unwrap();
    assert!(first.changed);
    assert_eq!(first.index_revision, 1);
    let replay = plugin.upsert(&indexer, document).unwrap().unwrap();
    assert!(!replay.changed);
    assert_eq!(replay.index_revision, 1);
    let query = caller("work-service");
    let found = plugin.query(&query, search("quarterly")).unwrap().unwrap();
    assert_eq!(found.index_revision, 1);
    assert_eq!(found.references.len(), 1);
    assert_eq!(found.references[0].source_id, "doc_1");
    let deleted = plugin.delete(&indexer, removal("doc_1")).unwrap().unwrap();
    assert!(deleted.changed);
    assert_eq!(deleted.index_revision, 2);
    let missing = plugin.query(&query, search("quarterly")).unwrap().unwrap();
    assert!(missing.references.is_empty());
    assert_eq!(missing.index_revision, 2);
}

#[test]
fn untrusted_callers_are_refused_whatever_they_send() {
    for mut plugin in [unprepared(), prepared()] {
        for context in [caller("work-service"), CallerContext { caller_instance: None }] {
            assert_eq!(
                plugin.upsert(&context, document("", "")),
                Ok(Err(UpsertDocumentError::Forbidden))
            );
            assert_eq!(
                plugin.delete(&context, removal("")),
                Ok(Err(DeleteDocumentError::Forbidden))
            );
        }
        assert_eq!(
            plugin.query(&caller("document-indexer"), search("")),
            Ok(Err(SearchError::Forbidden))
        );
        assert!(plugin.asked.is_empty());
    }
}

#[test]
fn invalid_searches_are_refused() {
    let mut plugin = prepared();
    let context = caller("work-service");
    let kinds = |count: usize| -> Vec<String> { (0..count).map(|i| format!("k{i}")).collect() };
    let bad = vec![
        SearchRequest { scope_kind: ".organization".to_owned(), ..search("x") },
        SearchRequest { scope_id: String::new(), ..search("x") },
        search(""),
        search(" \u{3000}\n"),
        search("a\u{1}b"),
        search("a\tb"),
        search(&"x".repeat(513)),
        search(&"\u{e9}".repeat(257)),
        SearchRequest { source_kinds: Vec::new(), ..search("x") },
        SearchRequest { source_kinds: kinds(33), ..search("x") },
        SearchRequest { source_kinds: vec!["ok".to_owned(), "bad.".to_owned()], ..search("x") },
        SearchRequest { limit: 0, ..search("x") },
        SearchRequest { limit: 101, ..search("x") },
        SearchRequest { limit: i64::MIN, ..search("x") },
    ];
    for request in bad {
        assert_eq!(plugin.query(&context, request), Ok(Err(SearchError::InvalidQuery)));
    }
    assert!(plugin.asked.is_empty());
    let good = vec![
        search(&format!("  {}\n", "x".repeat(512))),
        search(&"\u{e9}".repeat(256)),
        SearchRequest { source_kinds: kinds(32), ..search("x") },
        SearchRequest { limit: 1, ..search("x") },
        SearchRequest { limit: 100, ..search("x") },
    ];
    for request in good {
        assert_eq!(
            plugin.query(&context, request),
            Ok(Ok(SearchResponse { references: Vec::new(), index_revision: 0 }))
        );
    }
}

#[test]
fn invalid_documents_are_refused() {
    let mut plugin = prepared();
    let context = caller("document-indexer");
    let bad = vec![
        document("", "text"),
        document("doc 1", "text"),
        document("doc_1", ""),
        document("doc_1", " \n"),
        UpsertDocumentRequest { source_kind: ".document".to_owned(), ..document("doc_1", "text") },
        UpsertDocumentRequest { scope_kind: String::new(), ..document("doc_1", "text") },
        UpsertDocumentRequest { scope_id: "a/b".to_owned(), ..document("doc_1", "text") },
        document("doc_1", &"\u{e9}".repeat(MAX_SEARCH_TEXT_BYTES / 2 + 1)),
    ];
    for request in bad {
        assert_eq!(
            plugin.upsert(&context, request),
            Ok(Err(UpsertDocumentError::InvalidDocument))
        );
    }
    assert_eq!(
        plugin.delete(&context, removal("doc 1")),
        Ok(Err(DeleteDocumentError::InvalidDocument))
    );
    assert!(plugin.asked.is_empty());
    let longest = format!(" {} ", "x".repeat(MAX_SEARCH_TEXT_BYTES));
    assert_eq!(
        plugin.upsert(&context, document("doc_1", &longest)),
        Ok(Ok(UpsertDocumentResponse { changed: true, index_revision: 1 }))
    );
}

#[test]
fn nothing_is_done_before_activation() {
    let mut plugin = unprepared();
    let failure = Failure::PluginFailure { detail: "Search Plugin is not prepared".to_owned() };
    assert_eq!(plugin.query(&caller("work-service"), search("x")), Err(failure.clone()));
    assert_eq!(
        plugin.upsert(&caller("document-indexer"), document("doc_1", "x")),
        Err(failure.clone())
    );
    assert_eq!(plugin.delete(&caller("document-indexer"), removal("doc_1")), Err(failure));
    assert!(plugin.asked.is_empty());
}

#[test]
fn outer_white_space_does_not_change_a_document() {
    let mut plugin = prepared();
    let context = caller("document-indexer");
    plugin.upsert(&context, document("doc_1", "report")).unwrap().unwrap();
    assert_eq!(
        plugin.upsert(&context, document("doc_1", " report\u{85}")),
        Ok(Ok(UpsertDocumentResponse { changed: false, index_revision: 1 }))
    );
    assert_eq!(
        plugin.upsert(&context, document("doc_1", "Report")),
        Ok(Ok(UpsertDocumentResponse { changed: true, index_revision: 2 }))
    );
}

#[test]
fn deleting_what_is_not_there_changes_nothing() {
    let mut plugin = prepared();
    let context = caller("document-indexer");
    assert_eq!(
        plugin.delete(&context, removal("doc_1")),
        Ok(Ok(DeleteDocumentResponse { changed: false, index_revision: 0 }))
    );
    assert_eq!(plugin.tables, Tables::default());
    assert_eq!(
        plugin.asked,
        vec!["begin search delete", "lock search scope", "commit empty search delete"]
    );
    plugin.upsert(&context, document("doc_1", "report")).unwrap().unwrap();
    assert_eq!(
        plugin.delete(&context, removal("doc_2")),
        Ok(Ok(DeleteDocumentResponse { changed: false, index_revision: 1 }))
    );
    assert_eq!(
        plugin.delete(&context, removal("doc_1")),
        Ok(Ok(DeleteDocumentResponse { changed: true, index_revision: 2 }))
    );
    assert_eq!(
        plugin.delete(&context, removal("doc_1")),
        Ok(Ok(DeleteDocumentResponse { changed: false, index_revision: 2 }))
    );
}

#[test]
fn operations_ask_the_database_in_order() {
    let mut plugin = prepared();
    plugin.upsert(&caller("document-indexer"), document("doc_1", "report")).unwrap().unwrap();
    assert_eq!(
        plugin.asked,
        vec![
            "begin search upsert",
            "ensure search scope",
            "lock search scope",
            "read indexed document",
            "upsert indexed document",
            "advance search revision",
            "commit search upsert",
        ]
    );
    plugin.asked.clear();
    plugin.upsert(&caller("document-indexer"), document("doc_1", "report")).unwrap().unwrap();
    assert_eq!(
        plugin.asked,
        vec![
            "begin search upsert",
            "ensure search scope",
            "lock search scope",
            "read indexed document",
            "commit search upsert",
        ]
    );
    plugin.asked.clear();
    plugin.query(&caller("work-service"), search("report")).unwrap().unwrap();
    assert_eq!(
        plugin.asked,
        vec![
            "begin search snapshot",
            "set search snapshot",
            "read search revision",
            "query search index",
            "commit search snapshot",
        ]
    );
    plugin.asked.clear();
    plugin.delete(&caller("document-indexer"), removal("doc_1")).unwrap().unwrap();
    assert_eq!(
        plugin.asked,
        vec![
            "begin search delete",
            "lock search scope",
            "delete indexed document",
            "advance search revision",
            "commit search delete",
        ]
    );
}

#[test]
fn a_refused_statement_fails_the_operation_and_undoes_it() {
    let commands = || {
        vec![
            StoreCommand::BeginUpsert,
            StoreCommand::EnsureScope { scope: scope() },
            StoreCommand::LockRevision { scope: scope() },
            StoreCommand::ReadDocument { document: document_ref("doc_1") },
            StoreCommand::WriteDocument {
                document: document_ref("doc_1"),
                search_text: "new".to_owned(),
            },
            StoreCommand::AdvanceRevision { scope: scope() },
            StoreCommand::CommitUpsert,
        ]
    };
    for refused in commands() {
        let mut plugin = prepared();
        let operation = refused.operation();
        plugin.refused = Some(refused);
        assert_eq!(
            plugin.upsert(&caller("document-indexer"), document("doc_1", "new")),
            Err(database_failure(operation))
        );
        assert_eq!(plugin.tables, Tables::default());
    }
    for refused in [
        StoreCommand::BeginDelete,
        StoreCommand::LockScope { scope: scope() },
        StoreCommand::DeleteDocument { document: document_ref("doc_1") },
        StoreCommand::AdvanceRevision { scope: scope() },
        StoreCommand::CommitDelete,
    ] {
        let mut plugin = prepared();
        plugin.upsert(&caller("document-indexer"), document("doc_1", "new")).unwrap().unwrap();
        let before = plugin.tables.clone();
        let operation = refused.operation();
        plugin.refused = Some(refused);
        assert_eq!(
            plugin.delete(&caller("document-indexer"), removal("doc_1")),
            Err(database_failure(operation))
        );
        assert_eq!(plugin.tables, before);
    }
    let mut plugin = prepared();
    plugin.refused = Some(StoreCommand::CommitEmptyDelete);
    assert_eq!(
        plugin.delete(&caller("document-indexer"), removal("doc_1")),
        Err(database_failure("commit empty search delete"))
    );
    for refused in [
        StoreCommand::BeginQuery,
        StoreCommand::SetSnapshot,
        StoreCommand::ReadRevision { scope: scope() },
        StoreCommand::FindReferences {
            scope: scope(),
            source_kinds: vec!["document".to_owned()],
            query: "new".to_owned(),
            limit: 10,
        },
        StoreCommand::CommitQuery,
    ] {
        let mut plugin = prepared();
        let operation = refused.operation();
        plugin.refused = Some(refused);
        assert_eq!(
            plugin.query(&caller("work-service"), search(" new ")),
            Err(database_failure(operation))
        );
    }
}

#[test]
fn the_last_revision_cannot_be_passed() {
    let mut plugin = prepared();
    plugin.tables.scopes.insert(scope_key(&scope()), i64::MAX);
    let before = plugin.tables.clone();
    assert_eq!(
        plugin.upsert(&caller("document-indexer"), document("doc_1", "new")),
        Err(database_failure("advance search revision"))
    );
    assert_eq!(plugin.tables, before);
}

#[test]
fn an_answer_of_the_wrong_kind_is_a_failure() {
    let plugin = prepared();
    let step = upsert_document(
        &plugin.config,
        &caller("document-indexer"),
        &plugin.state,
        document("doc_1", "new"),
    );
    let session = match step {
        Step::Continue(session) => session,
        Step::Finished(_) => panic!("the upsert is refused"),
    };
    assert_eq!(
        session.advance(StoreAnswer::Affected(1)),
        Step::Finished(Err(database_failure("begin search upsert")))
    );
}

#[test]
fn unreadable_columns_fail_in_order() {
    let row = |kind: Option<&str>, id: Option<&str>| ReferenceRow {
        source_kind: kind.map(|kind| kind.to_owned()),
        source_id: id.map(|id| id.to_owned()),
    };
    assert_eq!(
        decode_references(vec![row(Some("document"), Some("b")), row(Some("note"), Some("a"))]),
        Ok(vec![
            SearchResponseReferencesItem { source_kind: "document".to_owned(), source_id: "b".to_owned() },
            SearchResponseReferencesItem { source_kind: "note".to_owned(), source_id: "a".to_owned() },
        ])
    );
    assert_eq!(decode_references(Vec::new()), Ok(Vec::new()));
    assert_eq!(
        decode_references(vec![row(Some("d"), Some("a")), row(None, None), row(Some("d"), None)]),
        Err(database_failure("decode search source kind"))
    );
    assert_eq!(
        decode_references(vec![row(Some("d"), None), row(None, Some("a"))]),
        Err(database_failure("decode search source id"))
    );
}

#[test]
fn an_index_is_rebuilt_in_any_order() {
    let context = caller("document-indexer");
    let mut one = prepared();
    let mut other = prepared();
    for id in ["a", "b", "c"] {
        one.upsert(&context, document(id, &format!("text of {id}"))).unwrap().unwrap();
    }
    for id in ["c", "a", "c", "b"] {
        other.upsert(&context, document(id, &format!("text of {id}"))).unwrap().unwrap();
    }
    assert_eq!(one.tables, other.tables);
}

#[test]
fn operations_touch_their_own_scope_only() {
    let context = caller("document-indexer");
    let mut plugin = prepared();
    plugin.upsert(&context, document("doc_1", "new")).unwrap().unwrap();
    let elsewhere =
        UpsertDocumentRequest { scope_id: "org_other".to_owned(), ..document("doc_1", "other") };
    assert_eq!(
        plugin.upsert(&context, elsewhere),
        Ok(Ok(UpsertDocumentResponse { changed: true, index_revision: 1 }))
    );
    let found = plugin.query(&caller("work-service"), search("new")).unwrap().unwrap();
    assert_eq!(found.index_revision, 1);
    assert_eq!(found.references.len(), 1);
}

#[test]
fn references_keep_the_order_they_were_found_in() {
    let plugin = prepared();
    let mut step = query_references(
        &plugin.config,
        &caller("work-service"),
        &plugin.state,
        search("report"),
    );
    let row = |id: &str| ReferenceRow {
        source_kind: Some("document".to_owned()),
        source_id: Some(id.to_owned()),
    };
    for answer in [
        StoreAnswer::Done,
        StoreAnswer::Done,
        StoreAnswer::Revision(Some(4)),
        StoreAnswer::Rows(vec![row("doc_3"), row("doc_1"), row("doc_2")]),
        StoreAnswer::Done,
    ] {
        step = match step {
            Step::Continue(session) => session.advance(answer),
            Step::Finished(_) => panic!("the search is over too early"),
        };
    }
    let item = |id: &str| SearchResponseReferencesItem {
        source_kind: "document".to_owned(),
        source_id: id.to_owned(),
    };
    assert_eq!(
        step,
        Step::Finished(Ok(Ok(SearchResponse {
            references: vec![item("doc_3"), item("doc_1"), item("doc_2")],
            index_revision: 4,
        })))
    );
}

#[test]
fn what_other_scopes_hold_does_not_show() {
    let context = caller("document-indexer");
    let mut one = prepared();
    let mut other = prepared();
    for plugin in [&mut one, &mut other] {
        plugin.upsert(&context, document("doc_1", "report")).unwrap().unwrap();
    }
    for text in ["report", "another report"] {
        let elsewhere =
            UpsertDocumentRequest { scope_id: "org_other".to_owned(), ..document("doc_2", text) };
        other.upsert(&context, elsewhere).unwrap().unwrap();
    }
    let searcher = caller("work-service");
    assert_eq!(
        one.query(&searcher, search("report")),
        other.query(&searcher, search("report"))
    );
}

#[test]
fn a_search_returns_no_more_than_was_asked_for() {
    let context = caller("document-indexer");
    let mut plugin = prepared();
    for id in ["doc_1", "doc_2", "doc_3"] {
        plugin.upsert(&context, document(id, "report")).unwrap().unwrap();
    }
    let all = plugin.query(&caller("work-service"), search("report")).unwrap().unwrap();
    assert_eq!(all.references.len(), 3);
    assert_eq!(all.index_revision, 3);
    let two = SearchRequest { limit: 2, ..search("report") };
    let some = plugin.query(&caller("work-service"), two).unwrap().unwrap();
    assert_eq!(some.references, all.references[..2].to_vec());
}

#[test]
fn statements_are_bound_in_order() {
    let text = |value: &str| Binding::Text(value.to_owned());
    let find = StoreCommand::FindReferences {
        scope: scope(),
        source_kinds: vec!["document".to_owned(), "note".to_owned()],
        query: "report".to_owned(),
        limit: 7,
    };
    assert!(find.sql().unwrap().contains("plainto_tsquery('simple'::regconfig,$4)"));
    assert!(find.sql().unwrap().ends_with("DESC,source_kind,source_id LIMIT $5"));
    assert_eq!(
        find.bindings(),
        vec![
            text("organization"),
            text("org_acme"),
            Binding::Texts(vec!["document".to_owned(), "note".to_owned()]),
            text("report"),
            Binding::Number(7),
        ]
    );
    let write = StoreCommand::WriteDocument {
        document: document_ref("doc_1"),
        search_text: "report".to_owned(),
    };
    assert!(write.sql().unwrap().starts_with("INSERT INTO search_documents"));
    assert_eq!(
        write.bindings(),
        vec![text("organization"), text("org_acme"), text("document"), text("doc_1"), text("report")]
    );
    let lock = StoreCommand::LockScope { scope: scope() };
    assert_eq!(
        lock.sql(),
        Some("SELECT index_revision FROM search_scopes WHERE scope_kind=$1 AND scope_id=$2 FOR UPDATE")
    );
    assert_eq!(lock.bindings(), vec![text("organization"), text("org_acme")]);
    assert_eq!(StoreCommand::CommitQuery.sql(), None);
    assert_eq!(StoreCommand::CommitQuery.bindings(), Vec::new());
}
