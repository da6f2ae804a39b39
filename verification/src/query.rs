//! Searching: who may search for what, and the steps that find the references.
use vstd::prelude::*;
use vstd::string::*;
use vstd::utf8::*;
use crate::config::SearchConfig;
use crate::config::SearchConfigView;
use crate::contract::CallerContext;
use crate::contract::Reference;
use crate::contract::SearchError;
use crate::contract::SearchRequest;
use crate::contract::SearchResponse;
use crate::contract::SearchResponseReferencesItem;
use crate::contract::SearchResponseView;
use crate::contract;
use crate::failure::Failure;
use crate::failure::FailureView;
use crate::failure;
use crate::lifecycle::SearchState;
use crate::rules;
use crate::store::Answer;
use crate::store::Command;
use crate::store::ReferenceRow;
use crate::store::Row;
use crate::store::Scope;
use crate::store::ScopeRef;
use crate::store::Step;
use crate::store::StoreAnswer;
use crate::store::StoreCommand;
use crate::store;
use crate::text;

verus! {

/// The longest query, in bytes and without the white space around it.
pub const MAX_QUERY_BYTES: usize = 512;

/// The most kinds of sources that one search looks at.
pub const MAX_SOURCE_KINDS: usize = 32;

/// The most references that one search returns.
pub const MAX_REFERENCES: i64 = 100;

/// What the operation is called that reads the kind of a source that was found.
pub const DECODE_SOURCE_KIND: &'static str = "decode search source kind";

/// What the operation is called that reads the id of a source that was found.
pub const DECODE_SOURCE_ID: &'static str = "decode search source id";

/// What a search returns: references or an error of its own, or a failure of the plugin.
pub type SearchReply = Result<Result<SearchResponse, SearchError>, Failure>;

/// What a [`SearchReply`] says.
pub type SearchReplyView = Result<Result<SearchResponseView, SearchError>, FailureView>;

/// What a search waits for.
#[derive(Debug, PartialEq, Eq)]
enum QueryStage {
    Begin,
    Snapshot,
    Revision,
    Find { revision: Option<i64> },
    Commit { revision: Option<i64>, rows: Vec<ReferenceRow> },
}

/// A search under way.
#[derive(Debug, PartialEq, Eq)]
pub struct QuerySession {
    scope: ScopeRef,
    source_kinds: Vec<String>,
    query: String,
    limit: i64,
    stage: QueryStage,
}

/// What a search waits for.
pub enum QueryStageView {
    /// That its transaction is opened.
    Begin,
    /// That it has a snapshot.
    Snapshot,
    /// That the revision is read.
    Revision,
    /// That the references are found.
    Find { revision: Option<i64> },
    /// That its transaction is ended.
    Commit { revision: Option<i64>, rows: Seq<Row> },
}

/// What a search under way looks for, and what it waits for.
pub struct QueryView {
    pub scope: Scope,
    pub source_kinds: Seq<Seq<char>>,
    pub query: Seq<char>,
    pub limit: i64,
    pub stage: QueryStageView,
}

impl View for QueryStage {
    type V = QueryStageView;

    closed spec fn view(&self) -> QueryStageView {
        match self {
            QueryStage::Begin => QueryStageView::Begin,
            QueryStage::Snapshot => QueryStageView::Snapshot,
            QueryStage::Revision => QueryStageView::Revision,
            QueryStage::Find { revision } => QueryStageView::Find { revision: *revision },
            QueryStage::Commit { revision, rows } => QueryStageView::Commit {
                revision: *revision,
                rows: store::rows_of(rows@),
            },
        }
    }
}

impl View for QuerySession {
    type V = QueryView;

    closed spec fn view(&self) -> QueryView {
        QueryView {
            scope: self.scope@,
            source_kinds: text::texts(self.source_kinds@),
            query: self.query@,
            limit: self.limit,
            stage: self.stage@,
        }
    }
}

/// What a reply says.
pub open spec fn search_reply(reply: SearchReply) -> SearchReplyView {
    match reply {
        Ok(Ok(response)) => Ok(Ok(response@)),
        Ok(Err(error)) => Ok(Err(error)),
        Err(failed) => Err(failed@),
    }
}

/// Where a search stands.
pub open spec fn search_step(step: Step<QuerySession, SearchReply>) -> Step<
    QueryView,
    SearchReplyView,
> {
    match step {
        Step::Continue(session) => Step::Continue(session@),
        Step::Finished(reply) => Step::Finished(search_reply(reply)),
    }
}

/// A query that can be searched for: some text, not too long, without control characters.
pub open spec fn is_query(query: Seq<char>) -> bool {
    &&& query.len() > 0
    &&& text::byte_len(query) <= MAX_QUERY_BYTES
    &&& forall|i: int| 0 <= i < query.len() ==> !text::control(#[trigger] query[i])
}

/// Kinds of sources that a search can look at: at least one, not too many, each a dimension.
pub open spec fn are_source_kinds(source_kinds: Seq<Seq<char>>) -> bool {
    &&& 0 < source_kinds.len() <= MAX_SOURCE_KINDS
    &&& forall|i: int|
        0 <= i < source_kinds.len() ==> rules::is_dimension(#[trigger] source_kinds[i])
}

/// A request that can be answered.
pub open spec fn is_search(request: SearchRequest) -> bool {
    &&& rules::is_dimension(request.scope_kind@)
    &&& rules::is_name(request.scope_id@)
    &&& is_query(text::trimmed(request.query@))
    &&& are_source_kinds(text::texts(request.source_kinds@))
    &&& 1 <= request.limit <= MAX_REFERENCES
}

/// How a search starts. A caller that is not trusted is refused, whatever it asks; then a
/// request that is not valid; and no search starts before the plugin is prepared.
pub open spec fn search_started(
    config: SearchConfigView,
    context: CallerContext,
    prepared: bool,
    request: SearchRequest,
) -> Step<QueryView, SearchReplyView> {
    if !contract::is_allowed(context, config.query_callers) {
        Step::Finished(Ok(Err(SearchError::Forbidden)))
    } else if !is_search(request) {
        Step::Finished(Ok(Err(SearchError::InvalidQuery)))
    } else if !prepared {
        Step::Finished(Err(failure::unprepared()))
    } else {
        Step::Continue(
            QueryView {
                scope: Scope { scope_kind: request.scope_kind@, scope_id: request.scope_id@ },
                source_kinds: text::texts(request.source_kinds@),
                query: text::trimmed(request.query@),
                limit: request.limit,
                stage: QueryStageView::Begin,
            },
        )
    }
}

/// The references that `rows` spell, in order; or what the operation is called that failed on
/// the first column that could not be read.
pub open spec fn decoded(rows: Seq<Row>) -> Result<Seq<Reference>, Seq<char>>
    decreases rows.len(),
{
    if rows.len() == 0 {
        Ok(Seq::empty())
    } else {
        match (decoded(rows.drop_last()), rows.last().source_kind, rows.last().source_id) {
            (Err(operation), _, _) => Err(operation),
            (Ok(_), None, _) => Err(DECODE_SOURCE_KIND@),
            (Ok(_), Some(_), None) => Err(DECODE_SOURCE_ID@),
            (Ok(before), Some(source_kind), Some(source_id)) => Ok(
                before.push(Reference { source_kind, source_id }),
            ),
        }
    }
}

/// The revision of a scope: zero where there is no such scope.
pub open spec fn revision_or_zero(revision: Option<i64>) -> i64 {
    match revision {
        Some(revision) => revision,
        None => 0,
    }
}

impl QueryView {
    /// The same search, waiting for something else.
    pub open spec fn at(self, stage: QueryStageView) -> QueryView {
        QueryView { stage, ..self }
    }

    /// What the search asks of the database next.
    pub open spec fn command(self) -> Command {
        match self.stage {
            QueryStageView::Begin => Command::BeginQuery,
            QueryStageView::Snapshot => Command::SetSnapshot,
            QueryStageView::Revision => Command::ReadRevision { scope: self.scope },
            QueryStageView::Find { .. } => Command::FindReferences {
                scope: self.scope,
                source_kinds: self.source_kinds,
                query: self.query,
                limit: self.limit,
            },
            QueryStageView::Commit { .. } => Command::CommitQuery,
        }
    }

    /// How the search goes on. An answer that its command cannot have counts as a failure.
    pub open spec fn after(self, answer: Answer) -> Step<QueryView, SearchReplyView> {
        match (self.stage, answer) {
            (QueryStageView::Begin, Answer::Done) => Step::Continue(
                self.at(QueryStageView::Snapshot),
            ),
            (QueryStageView::Snapshot, Answer::Done) => Step::Continue(
                self.at(QueryStageView::Revision),
            ),
            (QueryStageView::Revision, Answer::Revision(revision)) => Step::Continue(
                self.at(QueryStageView::Find { revision }),
            ),
            (QueryStageView::Find { revision }, Answer::Rows(rows)) => Step::Continue(
                self.at(QueryStageView::Commit { revision, rows }),
            ),
            (QueryStageView::Commit { revision, rows }, Answer::Done) => Step::Finished(
                match decoded(rows) {
                    Ok(references) => Ok(
                        Ok(
                            SearchResponseView {
                                references,
                                index_revision: revision_or_zero(revision),
                            },
                        ),
                    ),
                    Err(operation) => Err(failure::database_failed(operation)),
                },
            ),
            _ => Step::Finished(Err(failure::database_failed(self.command().operation()))),
        }
    }
}

/// Whether `query`, which is trimmed already, can be searched for.
fn valid_query(query: &str) -> (result: bool)
    ensures
        result == is_query(query@),
{
    let bytes: usize = text::byte_length(query);
    let chars = text::chars_of(query);
    let mut i: usize = 0;
    while i < chars.len()
        invariant
            chars@ == query@,
            i <= chars.len(),
            forall|j: int| 0 <= j < i ==> !text::control(#[trigger] query@[j]),
        decreases chars.len() - i,
    {
        if text::is_control(chars[i]) {
            return false;
        }
        i += 1;
    }
    chars.len() != 0 && bytes <= MAX_QUERY_BYTES
}

/// Whether a search can look at these kinds of sources.
fn valid_source_kinds(source_kinds: &Vec<String>) -> (result: bool)
    ensures
        result == are_source_kinds(text::texts(source_kinds@)),
{
    let ghost said = text::texts(source_kinds@);
    let mut i: usize = 0;
    while i < source_kinds.len()
        invariant
            said == text::texts(source_kinds@),
            i <= source_kinds.len(),
            forall|j: int| 0 <= j < i ==> rules::is_dimension(#[trigger] said[j]),
        decreases source_kinds.len() - i,
    {
        assert(said[i as int] == source_kinds@[i as int]@);
        if !rules::valid_dimension(source_kinds[i].as_str()) {
            return false;
        }
        i += 1;
    }
    source_kinds.len() != 0 && source_kinds.len() <= MAX_SOURCE_KINDS
}

/// Starts a search, or refuses it before the database is asked anything.
pub fn query_references<P>(
    config: &SearchConfig,
    context: &CallerContext,
    state: &SearchState<P>,
    request: SearchRequest,
) -> (step: Step<QuerySession, SearchReply>)
    ensures
        search_step(step) == search_started(config@, *context, state@ is Some, request),
{
    if !contract::caller_allowed(context, config.query_callers()) {
        return Step::Finished(Ok(Err(SearchError::Forbidden)));
    }
    let query = text::trim(request.query.as_str()).to_owned();
    if !rules::valid_dimension(request.scope_kind.as_str()) || !rules::valid_name(
        request.scope_id.as_str(),
    ) || !valid_query(query.as_str()) || !valid_source_kinds(&request.source_kinds) || request.limit
        < 1 || request.limit > MAX_REFERENCES {
        return Step::Finished(Ok(Err(SearchError::InvalidQuery)));
    }
    match state.prepared() {
        Err(failed) => Step::Finished(Err(failed)),
        Ok(_) => Step::Continue(
            QuerySession {
                scope: ScopeRef { scope_kind: request.scope_kind, scope_id: request.scope_id },
                source_kinds: request.source_kinds,
                query,
                limit: request.limit,
                stage: QueryStage::Begin,
            },
        ),
    }
}

/// The references that `rows` spell, or the failure to read the first column that is missing.
pub fn decode_references(rows: Vec<ReferenceRow>) -> (result: Result<
    Vec<SearchResponseReferencesItem>,
    Failure,
>)
    ensures
        match result {
            Ok(references) => decoded(store::rows_of(rows@)) == Ok::<_, Seq<char>>(
                references@.map_values(|item: SearchResponseReferencesItem| item@),
            ),
            Err(failed) => decoded(store::rows_of(rows@)) matches Err(operation) && failed@
                == failure::database_failed(operation),
        },
{
    let ghost said = store::rows_of(rows@);
    let mut references: Vec<SearchResponseReferencesItem> = Vec::new();
    let mut i: usize = 0;
    assert(said.take(0) =~= Seq::empty());
    assert(references@.map_values(|item: SearchResponseReferencesItem| item@) =~= Seq::empty());
    while i < rows.len()
        invariant
            said == store::rows_of(rows@),
            i <= rows.len(),
            decoded(said.take(i as int)) == Ok::<_, Seq<char>>(
                references@.map_values(|item: SearchResponseReferencesItem| item@),
            ),
        decreases rows.len() - i,
    {
        let ghost before = references@.map_values(|item: SearchResponseReferencesItem| item@);
        assert(said.take(i + 1).drop_last() =~= said.take(i as int));
        assert(said.take(i + 1).last() == rows@[i as int]@);
        match (&rows[i].source_kind, &rows[i].source_id) {
            (None, _) => {
                proof {
                    decoding_stops(said, i + 1);
                }
                return Err(failure::database_failure(DECODE_SOURCE_KIND));
            },
            (Some(_), None) => {
                proof {
                    decoding_stops(said, i + 1);
                }
                return Err(failure::database_failure(DECODE_SOURCE_ID));
            },
            (Some(source_kind), Some(source_id)) => {
                let item = SearchResponseReferencesItem {
                    source_kind: source_kind.clone(),
                    source_id: source_id.clone(),
                };
                references.push(item);
                assert(references@.map_values(|item: SearchResponseReferencesItem| item@)
                    =~= before.push(item@));
            },
        }
        i += 1;
    }
    assert(said.take(said.len() as int) =~= said);
    Ok(references)
}

/// The first column that cannot be read decides, whatever follows it.
proof fn decoding_stops(rows: Seq<Row>, end: int)
    requires
        0 <= end <= rows.len(),
        decoded(rows.take(end)) is Err,
    ensures
        decoded(rows) == decoded(rows.take(end)),
    decreases rows.len(),
{
    if end == rows.len() {
        assert(rows.take(end) =~= rows);
    } else {
        assert(rows.drop_last().take(end) =~= rows.take(end));
        decoding_stops(rows.drop_last(), end);
    }
}

impl QuerySession {
    /// What the search asks of the database next.
    pub fn command(&self) -> (command: StoreCommand)
        ensures
            command@ == self@.command(),
    {
        match &self.stage {
            QueryStage::Begin => StoreCommand::BeginQuery,
            QueryStage::Snapshot => StoreCommand::SetSnapshot,
            QueryStage::Revision => StoreCommand::ReadRevision { scope: self.scope.clone() },
            QueryStage::Find { .. } => StoreCommand::FindReferences {
                scope: self.scope.clone(),
                source_kinds: self.source_kinds.clone(),
                query: self.query.clone(),
                limit: self.limit,
            },
            QueryStage::Commit { .. } => StoreCommand::CommitQuery,
        }
    }

    /// Goes on with the search, once its command was answered.
    pub fn advance(self, answer: StoreAnswer) -> (step: Step<QuerySession, SearchReply>)
        ensures
            search_step(step) == self@.after(answer@),
    {
        let operation = self.command().operation();
        let QuerySession { scope, source_kinds, query, limit, stage } = self;
        let next = match (stage, answer) {
            (QueryStage::Begin, StoreAnswer::Done) => QueryStage::Snapshot,
            (QueryStage::Snapshot, StoreAnswer::Done) => QueryStage::Revision,
            (QueryStage::Revision, StoreAnswer::Revision(revision)) => QueryStage::Find {
                revision,
            },
            (QueryStage::Find { revision }, StoreAnswer::Rows(rows)) => QueryStage::Commit {
                revision,
                rows,
            },
            (QueryStage::Commit { revision, rows }, StoreAnswer::Done) => {
                return Step::Finished(
                    match decode_references(rows) {
                        Ok(references) => Ok(
                            Ok(
                                SearchResponse {
                                    references,
                                    index_revision: match revision {
                                        Some(revision) => revision,
                                        None => 0,
                                    },
                                },
                            ),
                        ),
                        Err(failed) => Err(failed),
                    },
                );
            },
            _ => {
                return Step::Finished(Err(failure::database_failure(operation)));
            },
        };
        Step::Continue(QuerySession { scope, source_kinds, query, limit, stage: next })
    }
}

/// Rows whose columns can all be read are the references that they spell, each in its place.
pub proof fn readable_rows_are_decoded(rows: Seq<Row>)
    requires
        forall|i: int|
            0 <= i < rows.len() ==> (#[trigger] rows[i]).source_kind is Some && rows[i].source_id
                is Some,
    ensures
        decoded(rows) matches Ok(references) && references.len() == rows.len() && forall|
            i: int,
        |
            0 <= i < rows.len() ==> #[trigger] references[i] == (Reference {
                source_kind: rows[i].source_kind->0,
                source_id: rows[i].source_id->0,
            }),
    decreases rows.len(),
{
    if rows.len() > 0 {
        let before = rows.drop_last();
        assert forall|i: int| 0 <= i < before.len() implies (#[trigger] before[i]).source_kind
            is Some && before[i].source_id is Some by {
            assert(before[i] == rows[i]);
        }
        readable_rows_are_decoded(before);
    }
}

/// The first row with a column that cannot be read decides, and of its columns the kind.
pub proof fn the_first_unreadable_column_is_reported(rows: Seq<Row>, first: int)
    requires
        0 <= first < rows.len(),
        forall|i: int|
            0 <= i < first ==> (#[trigger] rows[i]).source_kind is Some && rows[i].source_id
                is Some,
        rows[first].source_kind is None || rows[first].source_id is None,
    ensures
        decoded(rows) matches Err(operation) && operation == (if rows[first].source_kind is None {
            "decode search source kind"@
        } else {
            "decode search source id"@
        }),
{
    let readable = rows.take(first);
    assert forall|i: int| 0 <= i < readable.len() implies (#[trigger] readable[i]).source_kind
        is Some && readable[i].source_id is Some by {
        assert(readable[i] == rows[i]);
    }
    readable_rows_are_decoded(readable);
    assert(rows.take(first + 1).drop_last() =~= readable);
    assert(rows.take(first + 1).last() == rows[first]);
    decoding_stops(rows, first + 1);
}

/// When a search starts, and what is answered where it does not: a caller that is not among the
/// query callers is refused first; then a request whose scope is not a dimension and a name, whose
/// query, without the white space around it, is empty, longer than 512 bytes or holds a control
/// character, that names no kind, more than 32 or one that is not a dimension, or whose limit is
/// not from 1 to 100; and then a plugin that is not prepared fails.
pub proof fn searches_start_where_nothing_is_wrong(
    config: SearchConfigView,
    context: CallerContext,
    prepared: bool,
    request: SearchRequest,
)
    ensures
        ({
            let started = search_started(config, context, prepared, request);
            let allowed = context.caller_instance is Some && exists|i: int|
                0 <= i < config.query_callers.len() && #[trigger] config.query_callers[i]
                    == context.caller_instance->0@;
            let query = text::trimmed(request.query@);
            let kinds = request.source_kinds@;
            let valid = {
                &&& rules::is_dimension(request.scope_kind@)
                &&& rules::is_name(request.scope_id@)
                &&& query.len() != 0
                &&& encode_utf8(query).len() <= 512
                &&& forall|i: int|
                    0 <= i < query.len() ==> {
                        let n = (#[trigger] query[i]) as int;
                        32 <= n <= 126 || n >= 160
                    }
                &&& 1 <= kinds.len() <= 32
                &&& forall|i: int| 0 <= i < kinds.len() ==> rules::is_dimension((#[trigger] kinds[i])@)
                &&& 1 <= request.limit <= 100
            };
            &&& !allowed ==> (started matches Step::Finished(Ok(Err(SearchError::Forbidden))))
            &&& allowed && !valid ==> (started matches Step::Finished(
                Ok(Err(SearchError::InvalidQuery)),
            ))
            &&& allowed && valid && !prepared ==> (started matches Step::Finished(
                Err(FailureView::PluginFailure { detail }),
            ) && detail == "Search Plugin is not prepared"@)
            &&& allowed && valid && prepared ==> started is Continue
        }),
{
    let query = text::trimmed(request.query@);
    let kinds = request.source_kinds@;
    assert(contract::is_allowed(context, config.query_callers) <==> context.caller_instance is Some
        && exists|i: int|
        0 <= i < config.query_callers.len() && #[trigger] config.query_callers[i]
            == context.caller_instance->0@);
    if forall|i: int| 0 <= i < query.len() ==> !text::control(#[trigger] query[i]) {
        assert forall|i: int| 0 <= i < query.len() implies ({
            let n = (#[trigger] query[i]) as int;
            32 <= n <= 126 || n >= 160
        }) by {
            assert(!text::control(query[i]));
        }
    }
    if are_source_kinds(text::texts(kinds)) {
        assert forall|i: int| 0 <= i < kinds.len() implies rules::is_dimension(
            (#[trigger] kinds[i])@,
        ) by {
            assert(rules::is_dimension(text::texts(kinds)[i]));
        }
    }
}

/// What a search that started asks of the database, one after the other, and what it makes of the
/// answers: it looks for the whole query, in the scope and in every kind that the request names,
/// for as many references as it wants; it returns the rows in their order with the revision that
/// was read before; and any answer but the one that is waited for fails it, with the operation that
/// failed.
pub proof fn searches_ask_step_by_step(
    config: SearchConfigView,
    context: CallerContext,
    request: SearchRequest,
    revision: Option<i64>,
    rows: Seq<Row>,
    other: Answer,
)
    requires
        search_started(config, context, true, request) is Continue,
    ensures
        ({
            let scope = Scope { scope_kind: request.scope_kind@, scope_id: request.scope_id@ };
            let begun = search_started(config, context, true, request)->Continue_0;
            &&& begun.command() is BeginQuery
            &&& begun.after(Answer::Done) matches Step::Continue(snapshot)
            &&& snapshot.command() is SetSnapshot
            &&& snapshot.after(Answer::Done) matches Step::Continue(reading)
            &&& reading.command() == (Command::ReadRevision { scope })
            &&& reading.after(Answer::Revision(revision)) matches Step::Continue(finding)
            &&& finding.command() matches Command::FindReferences {
                scope: searched,
                source_kinds,
                query,
                limit,
            }
            &&& searched == scope
            &&& source_kinds.len() == request.source_kinds@.len()
            &&& forall|i: int|
                0 <= i < source_kinds.len() ==> #[trigger] source_kinds[i]
                    == request.source_kinds@[i]@
            &&& query == text::trimmed(request.query@)
            &&& limit == request.limit
            &&& finding.after(Answer::Rows(rows)) matches Step::Continue(ending)
            &&& ending.command() is CommitQuery
            &&& ending.after(Answer::Done) matches Step::Finished(reply)
            &&& (forall|i: int|
                0 <= i < rows.len() ==> (#[trigger] rows[i]).source_kind is Some
                    && rows[i].source_id is Some) ==> {
                &&& reply matches Ok(Ok(response))
                &&& response.index_revision == (if revision is Some {
                    revision->0
                } else {
                    0i64
                })
                &&& response.references.len() == rows.len()
                &&& forall|i: int|
                    0 <= i < rows.len() ==> {
                        let reference = #[trigger] response.references[i];
                        &&& Some(reference.source_kind) == rows[i].source_kind
                        &&& Some(reference.source_id) == rows[i].source_id
                    }
            }
            &&& forall|first: int|
                0 <= first < rows.len() && (forall|i: int|
                    0 <= i < first ==> (#[trigger] rows[i]).source_kind is Some
                        && rows[i].source_id is Some) && ((#[trigger] rows[first]).source_kind
                    is None || rows[first].source_id is None) ==> {
                    &&& reply matches Err(FailureView::PluginFailure { detail })
                    &&& rows[first].source_kind is None ==> detail == "PostgreSQL operation `"@
                        + "decode search source kind"@ + "` failed"@
                    &&& rows[first].source_kind is Some ==> detail == "PostgreSQL operation `"@
                        + "decode search source id"@ + "` failed"@
                }
        }),
        ({
            let begun = search_started(config, context, true, request)->Continue_0;
            let snapshot = begun.after(Answer::Done)->Continue_0;
            let reading = snapshot.after(Answer::Done)->Continue_0;
            let finding = reading.after(Answer::Revision(revision))->Continue_0;
            let ending = finding.after(Answer::Rows(rows))->Continue_0;
            &&& other !is Done ==> (begun.after(other) matches Step::Finished(Err(FailureView::PluginFailure { detail }))
                && detail == "PostgreSQL operation `"@ + "begin search snapshot"@ + "` failed"@)
            &&& other !is Done ==> (snapshot.after(other) matches Step::Finished(Err(FailureView::PluginFailure { detail }))
                && detail == "PostgreSQL operation `"@ + "set search snapshot"@ + "` failed"@)
            &&& other !is Revision ==> (reading.after(other) matches Step::Finished(Err(FailureView::PluginFailure { detail }))
                && detail == "PostgreSQL operation `"@ + "read search revision"@ + "` failed"@)
            &&& other !is Rows ==> (finding.after(other) matches Step::Finished(Err(FailureView::PluginFailure { detail }))
                && detail == "PostgreSQL operation `"@ + "query search index"@ + "` failed"@)
            &&& other !is Done ==> (ending.after(other) matches Step::Finished(Err(FailureView::PluginFailure { detail }))
                && detail == "PostgreSQL operation `"@ + "commit search snapshot"@ + "` failed"@)
        }),
{
    if forall|i: int|
        0 <= i < rows.len() ==> (#[trigger] rows[i]).source_kind is Some && rows[i].source_id
            is Some {
        readable_rows_are_decoded(rows);
    }
    assert forall|first: int|
        0 <= first < rows.len() && (forall|i: int|
            0 <= i < first ==> (#[trigger] rows[i]).source_kind is Some && rows[i].source_id
                is Some) && ((#[trigger] rows[first]).source_kind is None || rows[first].source_id
            is None) implies decoded(rows) matches Err(operation) && operation == (
    if rows[first].source_kind is None {
        "decode search source kind"@
    } else {
        "decode search source id"@
    }) by {
        the_first_unreadable_column_is_reported(rows, first);
    }
}

/// A reply, and where a search stands, are seen as what they are.
pub proof fn search_replies_are_seen_whole(
    step: Step<QuerySession, SearchReply>,
    rows: Seq<ReferenceRow>,
)
    ensures
        match step {
            Step::Continue(session) => search_step(step) == Step::<
                QueryView,
                SearchReplyView,
            >::Continue(session@),
            Step::Finished(Ok(Ok(response))) => search_step(step) matches Step::Finished(Ok(Ok(said)))
                && said == response@,
            Step::Finished(Ok(Err(error))) => search_step(step) matches Step::Finished(Ok(Err(said)))
                && said == error,
            Step::Finished(Err(failed)) => search_step(step) matches Step::Finished(Err(said))
                && said == failed@,
        },
        store::rows_of(rows).len() == rows.len(),
        forall|i: int| 0 <= i < rows.len() ==> #[trigger] store::rows_of(rows)[i] == rows[i]@,
{
}

} // verus!
