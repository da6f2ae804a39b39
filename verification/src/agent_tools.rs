//! The one tool that an agent gets: a bounded search for references.
use vstd::prelude::*;
use vstd::string::*;
use crate::contract::SearchRequest;
use crate::contract::SearchResponse;
use crate::failure::Failure;
use crate::failure::FailureView;
use crate::failure::RelayedFailure;

verus! {

/// The name of the tool.
pub const QUERY_REFERENCES_TOOL: &'static str = "search_query_references";

/// What the tool does, told to the agent.
pub const TOOL_DESCRIPTION: &'static str = "Find bounded source references in one authorized scope. Re-read every result through its source Plugin before presenting content.";

/// The JSON schema of the tool's arguments, which are those of a search.
pub const SEARCH_REQUEST_SCHEMA: &'static str = "{\n  \"$schema\": \"https://json-schema.org/draft/2020-12/schema\",\n  \"type\": \"object\",\n  \"required\": [\"scope_kind\", \"scope_id\", \"query\", \"source_kinds\", \"limit\"],\n  \"properties\": {\n    \"scope_kind\": {\n      \"type\": \"string\"\n    },\n    \"scope_id\": {\n      \"type\": \"string\"\n    },\n    \"query\": {\n      \"type\": \"string\"\n    },\n    \"source_kinds\": {\n      \"type\": \"array\",\n      \"items\": {\n        \"type\": \"string\"\n      }\n    },\n    \"limit\": {\n      \"type\": \"integer\",\n      \"minimum\": 1,\n      \"maximum\": 100\n    }\n  },\n  \"additionalProperties\": false,\n  \"title\": \"SearchRequest\"\n}\n";

/// What every answer of the tool says of itself.
pub const TOOL_METADATA_JSON: &'static str = "{\"tool\":\"search_query_references\",\"references_only\":true}";

/// The reason code for an error of the search that the tool does not know.
pub const UNKNOWN_DOMAIN_ERROR: &'static str = "unknown_domain_error";

/// What the agent is told of an error of the search that the tool does not know.
pub const SEARCH_REJECTED_MESSAGE: &'static str = "Search rejected the reference query.";

/// The details of an error of the search that the tool does not know.
pub const UNKNOWN_DOMAIN_ERROR_JSON: &'static str = "{\"domain_error\":\"unknown_domain_error\"}";

/// How an agent may run a tool.
#[derive(Clone, Copy, Debug, PartialEq, Eq, Structural)]
pub enum ToolExecutionClass {
    ParallelSafe,
    Exclusive,
}

/// A tool, as the agent sees it.
#[derive(Debug, PartialEq, Eq)]
pub struct ToolDefinition {
    pub name: String,
    pub description: String,
    pub input_schema_json: String,
    pub execution: ToolExecutionClass,
}

/// The tools that there are.
#[derive(Debug, PartialEq, Eq)]
pub struct CatalogResponse {
    pub tools: Vec<ToolDefinition>,
}

/// A call of a tool.
#[derive(Debug, PartialEq, Eq)]
pub struct ExecuteRequest {
    pub name: String,
    pub arguments_json: String,
}

/// What kind of content an answer holds.
#[derive(Clone, Copy, Debug, PartialEq, Eq, Structural)]
pub enum ContentType {
    Text,
}

/// The answer of a tool: text, without further content blocks.
#[derive(Debug, PartialEq, Eq)]
pub struct ExecuteResponse {
    pub content: String,
    pub content_type: ContentType,
    pub metadata_json: String,
}

/// What is known of a call that failed.
#[derive(Debug, PartialEq, Eq)]
pub struct ExecutionFailedPayload {
    pub reason_code: String,
    pub message: String,
    pub details_json: String,
}

/// Why a call of a tool is refused.
#[derive(Debug, PartialEq, Eq)]
pub enum ExecuteError {
    InvalidArguments,
    PermissionDenied,
    NotFound,
    ExecutionFailed { payload: ExecutionFailedPayload },
}

/// Why a call of a tool has no answer.
#[derive(Debug, PartialEq)]
pub enum ToolFailure {
    /// The call is refused.
    Domain(ExecuteError),
    /// Something failed.
    Runtime(RelayedFailure),
}

/// An error of a search, as its client sees it.
#[derive(Clone, Copy, Debug, PartialEq, Eq, Structural)]
pub enum QueryReferencesError {
    Forbidden,
    InvalidQuery,
    /// An error that the client does not know.
    Unknown,
}

/// What came of a search.
#[derive(Debug, PartialEq)]
pub enum SearchOutcome {
    Answered(SearchResponse),
    Refused(QueryReferencesError),
    Failed(lenso_kernel::RuntimeFailure),
}

/// What a call of a tool does next.
#[derive(Debug, PartialEq)]
pub enum ToolStep {
    /// Reads the arguments.
    Parse { arguments_json: String },
    /// Searches.
    Query { request: SearchRequest },
    /// Prints the references for the agent.
    Print { response: SearchResponse },
    /// Nothing: the call is over.
    Reply(Result<ExecuteResponse, ToolFailure>),
}

/// What an [`ExecuteResponse`] says.
pub struct ExecuteResponseView {
    pub content: Seq<char>,
    pub content_type: ContentType,
    pub metadata_json: Seq<char>,
}

/// What a [`ToolFailure`] says.
pub enum ToolFailureView {
    InvalidArguments,
    PermissionDenied,
    NotFound,
    ExecutionFailed { reason_code: Seq<char>, message: Seq<char>, details_json: Seq<char> },
    Plugin(FailureView),
    Kernel(lenso_kernel::RuntimeFailure),
}

/// What a [`ToolStep`] says.
pub enum ToolStepView {
    Parse { arguments_json: Seq<char> },
    Query { request: SearchRequest },
    Print { response: SearchResponse },
    Answer(ExecuteResponseView),
    Fail(ToolFailureView),
}

impl View for ExecuteResponse {
    type V = ExecuteResponseView;

    open spec fn view(&self) -> ExecuteResponseView {
        ExecuteResponseView {
            content: self.content@,
            content_type: self.content_type,
            metadata_json: self.metadata_json@,
        }
    }
}

impl View for ToolFailure {
    type V = ToolFailureView;

    open spec fn view(&self) -> ToolFailureView {
        match self {
            ToolFailure::Domain(ExecuteError::InvalidArguments) => ToolFailureView::InvalidArguments,
            ToolFailure::Domain(ExecuteError::PermissionDenied) => ToolFailureView::PermissionDenied,
            ToolFailure::Domain(ExecuteError::NotFound) => ToolFailureView::NotFound,
            ToolFailure::Domain(
                ExecuteError::ExecutionFailed { payload },
            ) => ToolFailureView::ExecutionFailed {
                reason_code: payload.reason_code@,
                message: payload.message@,
                details_json: payload.details_json@,
            },
            ToolFailure::Runtime(RelayedFailure::Plugin(failed)) => ToolFailureView::Plugin(failed@),
            ToolFailure::Runtime(RelayedFailure::Kernel(failed)) => ToolFailureView::Kernel(*failed),
        }
    }
}

impl View for ToolStep {
    type V = ToolStepView;

    open spec fn view(&self) -> ToolStepView {
        match self {
            ToolStep::Parse { arguments_json } => ToolStepView::Parse {
                arguments_json: arguments_json@,
            },
            ToolStep::Query { request } => ToolStepView::Query { request: *request },
            ToolStep::Print { response } => ToolStepView::Print { response: *response },
            ToolStep::Reply(Ok(response)) => ToolStepView::Answer(response@),
            ToolStep::Reply(Err(failed)) => ToolStepView::Fail(failed@),
        }
    }
}

/// What `serde_json` prints for the value that it reads from a text; nothing where the text is
/// not JSON.
pub uninterp spec fn reprinted_json(text: Seq<char>) -> Option<Seq<char>>;

/// Reads a text with `serde_json::from_str` and prints the value with the `Display` of
/// `serde_json::Value`. The outcome depends on the text alone, and is named, not described.
///
/// `serde_json::from_str` reads every text that is JSON and not nested too deeply. Of this, the
/// contract claims what is needed: [`SEARCH_REQUEST_SCHEMA`] is such a text, so it is read.
#[verifier::external_body]
fn reprint_json(text: &str) -> (printed: Option<String>)
    ensures
        match printed {
            Some(printed) => reprinted_json(text@) == Some(printed@),
            None => reprinted_json(text@) is None,
        },
        text@ == SEARCH_REQUEST_SCHEMA@ ==> printed is Some,
{
    serde_json::from_str::<serde_json::Value>(text).ok().map(|value| value.to_string())
}

/// The catalog of the one tool, whose arguments have the schema `input_schema_json`.
pub fn catalog_with_schema(input_schema_json: String) -> (catalog: CatalogResponse)
    ensures
        catalog.tools@.len() == 1,
        catalog.tools@[0].name@ == QUERY_REFERENCES_TOOL@,
        catalog.tools@[0].description@ == TOOL_DESCRIPTION@,
        catalog.tools@[0].input_schema_json@ == input_schema_json@,
        catalog.tools@[0].execution == ToolExecutionClass::ParallelSafe,
{
    let mut tools: Vec<ToolDefinition> = Vec::new();
    tools.push(
        ToolDefinition {
            name: QUERY_REFERENCES_TOOL.to_owned(),
            description: TOOL_DESCRIPTION.to_owned(),
            input_schema_json,
            execution: ToolExecutionClass::ParallelSafe,
        },
    );
    CatalogResponse { tools }
}

/// The catalog of the one tool.
pub fn catalog() -> (catalog: CatalogResponse)
    ensures
        catalog.tools@.len() == 1,
        catalog.tools@[0].name@ == QUERY_REFERENCES_TOOL@,
        catalog.tools@[0].description@ == TOOL_DESCRIPTION@,
        reprinted_json(SEARCH_REQUEST_SCHEMA@) == Some(catalog.tools@[0].input_schema_json@),
        catalog.tools@[0].execution == ToolExecutionClass::ParallelSafe,
{
    catalog_with_schema(reprint_json(SEARCH_REQUEST_SCHEMA).unwrap())
}

/// How a call starts: there is one tool only.
pub open spec fn call_started(name: Seq<char>, arguments_json: Seq<char>) -> ToolStepView {
    if name == QUERY_REFERENCES_TOOL@ {
        ToolStepView::Parse { arguments_json }
    } else {
        ToolStepView::Fail(ToolFailureView::NotFound)
    }
}

/// How a call goes on once its arguments were read, if they can be.
pub open spec fn arguments_read(arguments: Option<SearchRequest>) -> ToolStepView {
    match arguments {
        Some(request) => ToolStepView::Query { request },
        None => ToolStepView::Fail(ToolFailureView::InvalidArguments),
    }
}

/// How a call goes on once the search came back.
pub open spec fn search_done(outcome: SearchOutcome) -> ToolStepView {
    match outcome {
        SearchOutcome::Answered(response) => ToolStepView::Print { response },
        SearchOutcome::Refused(QueryReferencesError::Forbidden) => ToolStepView::Fail(
            ToolFailureView::PermissionDenied,
        ),
        SearchOutcome::Refused(QueryReferencesError::InvalidQuery) => ToolStepView::Fail(
            ToolFailureView::InvalidArguments,
        ),
        SearchOutcome::Refused(QueryReferencesError::Unknown) => ToolStepView::Fail(
            ToolFailureView::ExecutionFailed {
                reason_code: UNKNOWN_DOMAIN_ERROR@,
                message: SEARCH_REJECTED_MESSAGE@,
                details_json: UNKNOWN_DOMAIN_ERROR_JSON@,
            },
        ),
        SearchOutcome::Failed(failed) => ToolStepView::Fail(ToolFailureView::Kernel(failed)),
    }
}

/// How a call ends once the references were printed; the error says why they could not be.
pub open spec fn references_printed(printed: Result<Seq<char>, Seq<char>>) -> ToolStepView {
    match printed {
        Ok(content) => ToolStepView::Answer(
            ExecuteResponseView {
                content,
                content_type: ContentType::Text,
                metadata_json: TOOL_METADATA_JSON@,
            },
        ),
        Err(error) => ToolStepView::Fail(
            ToolFailureView::Plugin(
                FailureView::PluginFailure {
                    detail: "Search Tool could not serialize its response: "@ + error,
                },
            ),
        ),
    }
}

/// Starts a call.
pub fn execute(request: ExecuteRequest) -> (step: ToolStep)
    ensures
        step@ == call_started(request.name@, request.arguments_json@),
{
    if request.name != QUERY_REFERENCES_TOOL.to_owned() {
        return ToolStep::Reply(Err(ToolFailure::Domain(ExecuteError::NotFound)));
    }
    ToolStep::Parse { arguments_json: request.arguments_json }
}

/// Goes on with a call whose arguments were read.
pub fn arguments_parsed(arguments: Option<SearchRequest>) -> (step: ToolStep)
    ensures
        step@ == arguments_read(arguments),
{
    match arguments {
        Some(request) => ToolStep::Query { request },
        None => ToolStep::Reply(Err(ToolFailure::Domain(ExecuteError::InvalidArguments))),
    }
}

/// Goes on with a call whose search came back.
pub fn search_answered(outcome: SearchOutcome) -> (step: ToolStep)
    ensures
        step@ == search_done(outcome),
{
    match outcome {
        SearchOutcome::Answered(response) => ToolStep::Print { response },
        SearchOutcome::Refused(error) => {
            let mapped = match error {
                QueryReferencesError::Forbidden => ExecuteError::PermissionDenied,
                QueryReferencesError::InvalidQuery => ExecuteError::InvalidArguments,
                QueryReferencesError::Unknown => ExecuteError::ExecutionFailed {
                    payload: ExecutionFailedPayload {
                        reason_code: UNKNOWN_DOMAIN_ERROR.to_owned(),
                        message: SEARCH_REJECTED_MESSAGE.to_owned(),
                        details_json: UNKNOWN_DOMAIN_ERROR_JSON.to_owned(),
                    },
                },
            };
            ToolStep::Reply(Err(ToolFailure::Domain(mapped)))
        },
        SearchOutcome::Failed(failed) => ToolStep::Reply(
            Err(ToolFailure::Runtime(RelayedFailure::Kernel(failed))),
        ),
    }
}

/// Ends a call whose references were printed.
pub fn response_printed(printed: Result<String, String>) -> (step: ToolStep)
    ensures
        step@ == references_printed(
            match printed {
                Ok(content) => Ok(content@),
                Err(error) => Err(error@),
            },
        ),
{
    match printed {
        Ok(content) => ToolStep::Reply(
            Ok(
                ExecuteResponse {
                    content,
                    content_type: ContentType::Text,
                    metadata_json: TOOL_METADATA_JSON.to_owned(),
                },
            ),
        ),
        Err(error) => {
            let detail = "Search Tool could not serialize its response: ".to_owned().concat(
                error.as_str(),
            );
            ToolStep::Reply(
                Err(
                    ToolFailure::Runtime(
                        RelayedFailure::Plugin(Failure::PluginFailure { detail }),
                    ),
                ),
            )
        },
    }
}

/// What comes of a call, where `read` says what is read from a text, `search` what comes of a
/// search and `print` what comes of printing a response. Each is applied to what the call hands out.
pub open spec fn call_outcome(
    name: Seq<char>,
    arguments_json: Seq<char>,
    read: spec_fn(Seq<char>) -> Option<SearchRequest>,
    search: spec_fn(SearchRequest) -> SearchOutcome,
    print: spec_fn(SearchResponse) -> Result<Seq<char>, Seq<char>>,
) -> ToolStepView {
    match call_started(name, arguments_json) {
        ToolStepView::Parse { arguments_json } => match arguments_read(read(arguments_json)) {
            ToolStepView::Query { request } => match search_done(search(request)) {
                ToolStepView::Print { response } => references_printed(print(response)),
                over => over,
            },
            over => over,
        },
        over => over,
    }
}

/// An agent gets an answer in one way only: it calls the one tool there is, the very text that it
/// sent reads as a request, the search for that request answers, and the response that it gave can
/// be printed. The answer is then what was printed, marked as references only.
pub proof fn agents_only_search_for_references(
    name: Seq<char>,
    arguments_json: Seq<char>,
    read: spec_fn(Seq<char>) -> Option<SearchRequest>,
    search: spec_fn(SearchRequest) -> SearchOutcome,
    print: spec_fn(SearchResponse) -> Result<Seq<char>, Seq<char>>,
)
    ensures
        ({
            let over = call_outcome(name, arguments_json, read, search, print);
            let request = read(arguments_json)->0;
            let response = search(request)->Answered_0;
            &&& over is Answer || over is Fail
            &&& over is Answer <==> name == "search_query_references"@ && read(arguments_json)
                is Some && search(request) is Answered && print(response) is Ok
            &&& over matches ToolStepView::Answer(answer) ==> {
                &&& answer.content == print(response)->Ok_0
                &&& answer.content_type is Text
                &&& answer.metadata_json
                    == "{\"tool\":\"search_query_references\",\"references_only\":true}"@
            }
        }),
{
}

/// Why a call has no answer: another tool is not there; a text that does not read as a request has
/// invalid arguments, and so has a request that the search finds invalid; a search that is forbidden
/// is not permitted, one that is refused for a reason not known has failed, and a failure of the
/// search or of the printing is handed on.
pub proof fn calls_without_an_answer_say_why(
    name: Seq<char>,
    arguments_json: Seq<char>,
    read: spec_fn(Seq<char>) -> Option<SearchRequest>,
    search: spec_fn(SearchRequest) -> SearchOutcome,
    print: spec_fn(SearchResponse) -> Result<Seq<char>, Seq<char>>,
)
    ensures
        ({
            let over = call_outcome(name, arguments_json, read, search, print);
            let known = name == "search_query_references"@;
            &&& !known ==> over == ToolStepView::Fail(ToolFailureView::NotFound)
            &&& known && read(arguments_json) is None ==> over == ToolStepView::Fail(
                ToolFailureView::InvalidArguments,
            )
            &&& known && read(arguments_json) is Some ==> match search(read(arguments_json)->0) {
                SearchOutcome::Refused(QueryReferencesError::Forbidden) => over
                    == ToolStepView::Fail(ToolFailureView::PermissionDenied),
                SearchOutcome::Refused(QueryReferencesError::InvalidQuery) => over
                    == ToolStepView::Fail(ToolFailureView::InvalidArguments),
                SearchOutcome::Refused(QueryReferencesError::Unknown) => over
                    == ToolStepView::Fail(
                    ToolFailureView::ExecutionFailed {
                        reason_code: "unknown_domain_error"@,
                        message: "Search rejected the reference query."@,
                        details_json: "{\"domain_error\":\"unknown_domain_error\"}"@,
                    },
                ),
                SearchOutcome::Failed(failed) => over == ToolStepView::Fail(
                    ToolFailureView::Kernel(failed),
                ),
                SearchOutcome::Answered(response) => print(response) is Err ==> over
                    == ToolStepView::Fail(
                    ToolFailureView::Plugin(
                        FailureView::PluginFailure {
                            detail: "Search Tool could not serialize its response: "@ + print(
                                response,
                            )->Err_0,
                        },
                    ),
                ),
            }
        }),
{
}

/// From step to step a call hands on what it was given: the text that was sent is what is read, the
/// request that was read is what is searched for, and the response that came is what is printed.
pub proof fn calls_hand_on_what_they_were_given(
    arguments_json: Seq<char>,
    request: SearchRequest,
    response: SearchResponse,
    content: Seq<char>,
)
    ensures
        call_started("search_query_references"@, arguments_json) == (ToolStepView::Parse {
            arguments_json,
        }),
        arguments_read(Some(request)) == (ToolStepView::Query { request }),
        search_done(SearchOutcome::Answered(response)) == (ToolStepView::Print { response }),
        references_printed(Ok(content)) matches ToolStepView::Answer(answer) && answer.content
            == content,
{
}

/// A step, an answer and a failure are seen as what they are, with all that they hold.
pub proof fn calls_are_seen_whole(step: ToolStep)
    ensures
        match step {
            ToolStep::Parse { arguments_json } => step@ == (ToolStepView::Parse {
                arguments_json: arguments_json@,
            }),
            ToolStep::Query { request } => step@ == (ToolStepView::Query { request }),
            ToolStep::Print { response } => step@ == (ToolStepView::Print { response }),
            ToolStep::Reply(Ok(response)) => step@ matches ToolStepView::Answer(answer)
                && answer.content == response.content@ && answer.content_type
                == response.content_type && answer.metadata_json == response.metadata_json@,
            ToolStep::Reply(Err(ToolFailure::Domain(ExecuteError::NotFound))) => step@
                == ToolStepView::Fail(ToolFailureView::NotFound),
            ToolStep::Reply(Err(ToolFailure::Domain(ExecuteError::InvalidArguments))) => step@
                == ToolStepView::Fail(ToolFailureView::InvalidArguments),
            ToolStep::Reply(Err(ToolFailure::Domain(ExecuteError::PermissionDenied))) => step@
                == ToolStepView::Fail(ToolFailureView::PermissionDenied),
            ToolStep::Reply(
                Err(ToolFailure::Domain(ExecuteError::ExecutionFailed { payload })),
            ) => step@ == ToolStepView::Fail(
                ToolFailureView::ExecutionFailed {
                    reason_code: payload.reason_code@,
                    message: payload.message@,
                    details_json: payload.details_json@,
                },
            ),
            ToolStep::Reply(Err(ToolFailure::Runtime(RelayedFailure::Plugin(failed)))) => step@
                == ToolStepView::Fail(ToolFailureView::Plugin(failed@)),
            ToolStep::Reply(Err(ToolFailure::Runtime(RelayedFailure::Kernel(failed)))) => step@
                == ToolStepView::Fail(ToolFailureView::Kernel(failed)),
        },
{
}

/// What an agent is told of the tool: its name, what it does, and the schema of its arguments, which
/// are those of a search and nothing else, with a limit from 1 to 100.
pub proof fn agents_are_told_of_the_tool()
    ensures
        QUERY_REFERENCES_TOOL@ == "search_query_references"@,
        TOOL_DESCRIPTION@
            == "Find bounded source references in one authorized scope. Re-read every result through its source Plugin before presenting content."@,
        SEARCH_REQUEST_SCHEMA@
            == "{\n  \"$schema\": \"https://json-schema.org/draft/2020-12/schema\",\n  \"type\": \"object\",\n  \"required\": [\"scope_kind\", \"scope_id\", \"query\", \"source_kinds\", \"limit\"],\n  \"properties\": {\n    \"scope_kind\": {\n      \"type\": \"string\"\n    },\n    \"scope_id\": {\n      \"type\": \"string\"\n    },\n    \"query\": {\n      \"type\": \"string\"\n    },\n    \"source_kinds\": {\n      \"type\": \"array\",\n      \"items\": {\n        \"type\": \"string\"\n      }\n    },\n    \"limit\": {\n      \"type\": \"integer\",\n      \"minimum\": 1,\n      \"maximum\": 100\n    }\n  },\n  \"additionalProperties\": false,\n  \"title\": \"SearchRequest\"\n}\n"@,
{
}

} // verus!
