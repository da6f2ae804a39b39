use lenso_kernel::RuntimeFailure;
use lenso_search::agent_tools::{
    arguments_parsed, catalog, catalog_with_schema, execute, response_printed, search_answered,
    ContentType, ExecuteError, ExecuteRequest, ExecuteResponse, ExecutionFailedPayload,
    QueryReferencesError, SearchOutcome, ToolExecutionClass, ToolFailure, ToolStep,
    QUERY_REFERENCES_TOOL, TOOL_METADATA_JSON, UNKNOWN_DOMAIN_ERROR_JSON,
};
use lenso_search::config::SearchConfig;
use lenso_search::contract::{SearchRequest, SearchResponse};
use lenso_search::failure::{Failure, RelayedFailure};
use lenso_search::lifecycle::{
    resolve_secret, storage_to_prepare, SearchState, SecretOutcome, DEPENDENCY_TIMEOUT_SECONDS,
};
use serde_json::Value;

fn config() -> SearchConfig {
    SearchConfig::new(
        "search",
        "search/database",
        vec!["work-service".to_owned()],
        vec!["document-indexer".to_owned()],
    )
    .unwrap()
}

#[test]
fn request_schema_is_strict_and_bounded() {
    let catalog = catalog();
    let schema: Value = serde_json::from_str(&catalog.tools[0].input_schema_json).unwrap();
    assert_eq!(schema["additionalProperties"], false);
    assert_eq!(schema["properties"]["limit"]["maximum"], 100);
}

#[test]
fn the_catalog_lists_the_one_tool() {
    let catalog = catalog();
    assert_eq!(catalog.tools.len(), 1);
    let tool = &catalog.tools[0];
    assert_eq!(tool.name, "search_query_references");
    assert_eq!(
        tool.description,
        "Find bounded source references in one authorized scope. Re-read every result through its source Plugin before presenting content."
    );
    assert_eq!(tool.execution, ToolExecutionClass::ParallelSafe);
    assert!(tool.input_schema_json.starts_with("{\"$schema\":"));
    assert!(!tool.input_schema_json.contains('\n'));
    let schema: Value = serde_json::from_str(&tool.input_schema_json).unwrap();
    assert_eq!(schema["properties"]["limit"]["minimum"], 1);
    assert_eq!(schema["required"].as_array().unwrap().len(), 5);
    assert_eq!(catalog_with_schema("{}".to_owned()).tools[0].input_schema_json, "{}");
}

#[test]
fn fixed_texts_are_what_serde_json_prints() {
    let mut metadata = serde_json::Map::new();
    metadata.insert("tool".to_owned(), Value::from(QUERY_REFERENCES_TOOL));
    metadata.insert("references_only".to_owned(), Value::from(true));
    assert_eq!(Value::Object(metadata).to_string(), TOOL_METADATA_JSON);
    let mut details = serde_json::Map::new();
    details.insert("domain_error".to_owned(), Value::from("unknown_domain_error"));
    assert_eq!(Value::Object(details).to_string(), UNKNOWN_DOMAIN_ERROR_JSON);
}

#[test]
fn only_the_one_tool_is_found() {
    let call = |name: &str| ExecuteRequest { name: name.to_owned(), arguments_json: "{}".to_owned() };
    assert_eq!(
        execute(call(QUERY_REFERENCES_TOOL)),
        ToolStep::Parse { arguments_json: "{}".to_owned() }
    );
    for name in ["", "search_upsert_document", "Search_query_references"] {
        assert_eq!(
            execute(call(name)),
            ToolStep::Reply(Err(ToolFailure::Domain(ExecuteError::NotFound)))
        );
    }
}

#[test]
fn a_call_searches_with_the_arguments_it_was_given() {
    let request = SearchRequest {
        scope_kind: "organization".to_owned(),
        scope_id: "org_acme".to_owned(),
        query: "report".to_owned(),
        source_kinds: vec!["document".to_owned()],
        limit: 3,
    };
    assert_eq!(arguments_parsed(Some(request.clone())), ToolStep::Query { request });
    assert_eq!(
        arguments_parsed(None),
        ToolStep::Reply(Err(ToolFailure::Domain(ExecuteError::InvalidArguments)))
    );
}

#[test]
fn errors_of_the_search_are_mapped() {
    let domain = |error| ToolStep::Reply(Err(ToolFailure::Domain(error)));
    assert_eq!(
        search_answered(SearchOutcome::Refused(QueryReferencesError::Forbidden)),
        domain(ExecuteError::PermissionDenied)
    );
    assert_eq!(
        search_answered(SearchOutcome::Refused(QueryReferencesError::InvalidQuery)),
        domain(ExecuteError::InvalidArguments)
    );
    assert_eq!(
        search_answered(SearchOutcome::Refused(QueryReferencesError::Unknown)),
        domain(ExecuteError::ExecutionFailed {
            payload: ExecutionFailedPayload {
                reason_code: "unknown_domain_error".to_owned(),
                message: "Search rejected the reference query.".to_owned(),
                details_json: "{\"domain_error\":\"unknown_domain_error\"}".to_owned(),
            },
        })
    );
    assert_eq!(
        search_answered(SearchOutcome::Failed(RuntimeFailure::AdmissionClosed)),
        ToolStep::Reply(Err(ToolFailure::Runtime(RelayedFailure::Kernel(
            RuntimeFailure::AdmissionClosed
        ))))
    );
    let response = SearchResponse { references: Vec::new(), index_revision: 4 };
    assert_eq!(
        search_answered(SearchOutcome::Answered(response.clone())),
        ToolStep::Print { response }
    );
}

#[test]
fn answers_are_marked_as_references_only() {
    assert_eq!(
        response_printed(Ok("[]".to_owned())),
        ToolStep::Reply(Ok(ExecuteResponse {
            content: "[]".to_owned(),
            content_type: ContentType::Text,
            metadata_json: "{\"tool\":\"search_query_references\",\"references_only\":true}".to_owned(),
        }))
    );
    assert_eq!(
        response_printed(Err("full".to_owned())),
        ToolStep::Reply(Err(ToolFailure::Runtime(RelayedFailure::Plugin(
            Failure::PluginFailure {
                detail: "Search Tool could not serialize its response: full".to_owned(),
            }
        ))))
    );
}

#[test]
fn the_secret_decides_the_activation() {
    assert_eq!(DEPENDENCY_TIMEOUT_SECONDS, 10);
    let resolved = || SecretOutcome::Resolved("postgres://search".to_owned());
    let failed = || -> SecretOutcome<String> {
        SecretOutcome::Failed(RuntimeFailure::Cancelled { request_id: 3 })
    };
    let rejected = || -> SecretOutcome<String> { SecretOutcome::Rejected };
    assert_eq!(resolve_secret("a", resolved()), Ok("postgres://search".to_owned()));
    assert_eq!(
        resolve_secret("a", rejected()),
        Err(RelayedFailure::Plugin(Failure::PluginFailure {
            detail: "secret `a` was rejected".to_owned(),
        }))
    );
    assert_eq!(
        resolve_secret("a", failed()),
        Err(RelayedFailure::Kernel(RuntimeFailure::Cancelled { request_id: 3 }))
    );
    let storage = storage_to_prepare(&config(), resolved()).ok().unwrap();
    assert_eq!(storage.database_url, "postgres://search");
    assert_eq!(storage.schema, "search");
    let unowned = SearchConfig::resolved(
        "public".to_owned(),
        "search/database".to_owned(),
        vec!["work-service".to_owned()],
        vec!["document-indexer".to_owned()],
    );
    assert_eq!(
        storage_to_prepare(&unowned, resolved()).err(),
        Some(RelayedFailure::Plugin(Failure::InvalidResolvedPlan {
            detail: "invalid owned schema name `public`".to_owned(),
        }))
    );
    assert_eq!(
        storage_to_prepare(&config(), rejected()).err(),
        Some(RelayedFailure::Plugin(Failure::PluginFailure {
            detail: "secret `search/database` was rejected".to_owned(),
        }))
    );
    assert_eq!(
        storage_to_prepare(&config(), failed()).err(),
        Some(RelayedFailure::Kernel(RuntimeFailure::Cancelled { request_id: 3 }))
    );
}

#[test]
fn storage_is_held_from_activation_to_deactivation() {
    let mut state: SearchState<u32> = SearchState::new();
    let unprepared = Failure::PluginFailure { detail: "Search Plugin is not prepared".to_owned() };
    assert_eq!(state.prepared(), Err(unprepared.clone()));
    assert_eq!(
        state.activate(Err("no route".to_owned())),
        Err(Failure::PluginFailure { detail: "no route".to_owned() })
    );
    assert_eq!(state.prepared(), Err(unprepared.clone()));
    assert_eq!(state.activate(Ok(7)), Ok(()));
    assert_eq!(state.prepared(), Ok(&7));
    assert_eq!(
        state.activate(Err("no route".to_owned())),
        Err(Failure::PluginFailure { detail: "no route".to_owned() })
    );
    assert_eq!(state.prepared(), Ok(&7));
    assert_eq!(state.deactivate(), Some(7));
    assert_eq!(state.prepared(), Err(unprepared));
    assert_eq!(state.deactivate(), None);
}
