//! What the operations do to the index as a whole.
//!
//! The index is modelled as the revisions of its scopes and the texts of its documents. What the
//! database does with a command is modelled by [`IndexModel::performed`]: it is the meaning of
//! the command's statement on the tables. Any command can also be refused, for reasons that lie
//! with the database. The laws say what follows for whole operations, each run as a transaction
//! of its own: what it did is kept where it is answered, and undone where it fails.
//!
//! A command that fails has done nothing, and this is said of the end of a transaction too. The
//! model knows no answer that is lost on its way: where the database ends a transaction and only
//! the news of it fails to arrive, the operation fails and what it did is kept all the same.
use vstd::prelude::*;
use crate::config::SearchConfigView;
use crate::contract::CallerContext;
use crate::contract::DeleteDocumentRequest;
use crate::contract::Reference;
use crate::contract::SearchRequest;
use crate::contract::UpsertDocumentRequest;
use crate::delete::DeleteReplyView;
use crate::delete::DeleteStage;
use crate::delete::DeleteView;
use crate::delete;
use crate::query::QueryStageView;
use crate::query::QueryView;
use crate::query::SearchReplyView;
use crate::query;
use crate::store::Answer;
use crate::store::BindingView;
use crate::store::Command;
use crate::store::DocumentId;
use crate::store::Row;
use crate::store::Scope;
use crate::store::Step;
use crate::text;
use crate::upsert::UpsertReplyView;
use crate::upsert::UpsertStage;
use crate::upsert::UpsertView;
use crate::upsert;

verus! {

/// The index: the revision of each scope and what is indexed of each document.
#[verifier::ext_equal]
pub struct IndexModel {
    pub revisions: Map<Scope, i64>,
    pub documents: Map<DocumentId, Seq<char>>,
}

/// What the database is asked to find: the scope and the kinds to look at, what to look for, and
/// how much of it.
pub struct Find {
    pub scope: Scope,
    pub source_kinds: Seq<Seq<char>>,
    pub query: Seq<char>,
    pub limit: i64,
}

/// What a request wants to be found: its own scope, all of its kinds, its query without the white
/// space around it, and its limit.
pub open spec fn asked(request: SearchRequest) -> Find {
    Find {
        scope: searched_scope(request),
        source_kinds: text::texts(request.source_kinds@),
        query: text::trimmed(request.query@),
        limit: request.limit,
    }
}

/// A database that finds nothing.
pub open spec fn nothing() -> spec_fn(Find) -> Seq<Row> {
    |find: Find| Seq::empty()
}

/// The value of `key`, if there is one.
pub open spec fn lookup<K, V>(map: Map<K, V>, key: K) -> Option<V> {
    if map.contains_key(key) {
        Some(map[key])
    } else {
        None
    }
}

impl IndexModel {
    /// The index before anything was indexed.
    pub open spec fn empty() -> IndexModel {
        IndexModel { revisions: Map::empty(), documents: Map::empty() }
    }

    /// What the tables always keep: no revision is negative, and every document is in a scope
    /// that is there.
    pub open spec fn sound(self) -> bool {
        &&& forall|scope: Scope| #[trigger] self.revisions.contains_key(scope) ==> self.revisions[scope] >= 0
        &&& forall|document: DocumentId| #[trigger]
            self.documents.contains_key(document) ==> self.revisions.contains_key(document.scope)
    }

    /// The revision of a scope: zero where there is no such scope.
    pub open spec fn revision(self, scope: Scope) -> i64 {
        query::revision_or_zero(lookup(self.revisions, scope))
    }

    /// The answer to a command that is not refused, and the index after it. What the database finds
    /// for what a command asks for is up to the database: `finder` says it.
    pub open spec fn performed(
        self,
        command: Command,
        finder: spec_fn(Find) -> Seq<Row>,
    ) -> (Answer, IndexModel) {
        match command {
            Command::ReadRevision { scope } => (
                Answer::Revision(lookup(self.revisions, scope)),
                self,
            ),
            Command::FindReferences { scope, source_kinds, query, limit } => (
                Answer::Rows(finder(Find { scope, source_kinds, query, limit })),
                self,
            ),
            Command::EnsureScope { scope } => (
                Answer::Done,
                if self.revisions.contains_key(scope) {
                    self
                } else {
                    IndexModel { revisions: self.revisions.insert(scope, 0), ..self }
                },
            ),
            Command::LockRevision { scope } => match lookup(self.revisions, scope) {
                Some(revision) => (Answer::CurrentRevision(revision), self),
                None => (Answer::Failed, self),
            },
            Command::LockScope { scope } => (
                Answer::Revision(lookup(self.revisions, scope)),
                self,
            ),
            Command::ReadDocument { document } => (
                Answer::Text(lookup(self.documents, document)),
                self,
            ),
            Command::WriteDocument { document, search_text } => (
                Answer::Done,
                IndexModel { documents: self.documents.insert(document, search_text), ..self },
            ),
            Command::AdvanceRevision { scope } => match lookup(self.revisions, scope) {
                Some(revision) if revision < i64::MAX => (
                    Answer::CurrentRevision((revision + 1) as i64),
                    IndexModel {
                        revisions: self.revisions.insert(scope, (revision + 1) as i64),
                        ..self
                    },
                ),
                _ => (Answer::Failed, self),
            },
            Command::DeleteDocument { document } => if self.documents.contains_key(document) {
                (
                    Answer::Affected(1),
                    IndexModel { documents: self.documents.remove(document), ..self },
                )
            } else {
                (Answer::Affected(0), self)
            },
            _ => (Answer::Done, self),
        }
    }

    /// The answer to a command and the index after it, where `refused` says which commands the
    /// database refuses.
    pub open spec fn tried(
        self,
        command: Command,
        finder: spec_fn(Find) -> Seq<Row>,
        refused: spec_fn(Command) -> bool,
    ) -> (Answer, IndexModel) {
        if refused(command) {
            (Answer::Failed, self)
        } else {
            self.performed(command, finder)
        }
    }
}

/// The text that a statement is run with under a number, counted from zero.
pub open spec fn text_at(bindings: Seq<BindingView>, i: int) -> Seq<char> {
    match bindings[i] {
        BindingView::Text(text) => text,
        _ => Seq::empty(),
    }
}

impl IndexModel {
    /// The index after a statement, by what the statement says and what it is run with.
    pub open spec fn ran(self, statement: Seq<char>, bindings: Seq<BindingView>) -> IndexModel {
        let scope = Scope { scope_kind: text_at(bindings, 0), scope_id: text_at(bindings, 1) };
        let document = DocumentId {
            scope,
            source_kind: text_at(bindings, 2),
            source_id: text_at(bindings, 3),
        };
        if statement
            == "INSERT INTO search_scopes(scope_kind,scope_id) VALUES($1,$2) ON CONFLICT DO NOTHING"@ {
            if self.revisions.contains_key(scope) {
                self
            } else {
                IndexModel { revisions: self.revisions.insert(scope, 0), ..self }
            }
        } else if statement
            == "INSERT INTO search_documents(scope_kind,scope_id,source_kind,source_id,search_text) VALUES($1,$2,$3,$4,$5) ON CONFLICT(scope_kind,scope_id,source_kind,source_id) DO UPDATE SET search_text=EXCLUDED.search_text,updated_at=transaction_timestamp()"@ {
            IndexModel {
                documents: self.documents.insert(document, text_at(bindings, 4)),
                ..self
            }
        } else if statement
            == "UPDATE search_scopes SET index_revision=index_revision+1 WHERE scope_kind=$1 AND scope_id=$2 RETURNING index_revision"@ {
            if self.revisions.contains_key(scope) && self.revisions[scope] < i64::MAX {
                IndexModel {
                    revisions: self.revisions.insert(scope, (self.revisions[scope] + 1) as i64),
                    ..self
                }
            } else {
                self
            }
        } else if statement
            == "DELETE FROM search_documents WHERE scope_kind=$1 AND scope_id=$2 AND source_kind=$3 AND source_id=$4"@ {
            IndexModel { documents: self.documents.remove(document), ..self }
        } else {
            self
        }
    }
}

/// A database that refuses nothing.
pub open spec fn willing() -> spec_fn(Command) -> bool {
    |command: Command| false
}

/// How many answers an upsert still waits for, at most.
pub open spec fn upsert_rest(stage: UpsertStage) -> nat {
    match stage {
        UpsertStage::Begin => 7,
        UpsertStage::Ensure => 6,
        UpsertStage::Lock => 5,
        UpsertStage::Read { .. } => 4,
        UpsertStage::Write => 3,
        UpsertStage::Advance => 2,
        UpsertStage::Commit { .. } => 1,
    }
}

/// What comes of an upsert under way, and the index that its transaction sees at the end.
pub open spec fn upsert_run(
    session: UpsertView,
    index: IndexModel,
    refused: spec_fn(Command) -> bool,
) -> (UpsertReplyView, IndexModel)
    decreases upsert_rest(session.stage),
{
    let (answer, next) = index.tried(session.command(), nothing(), refused);
    match session.after(answer) {
        Step::Finished(reply) => (reply, next),
        Step::Continue(session) => upsert_run(session, next, refused),
    }
}

/// What comes of an upsert, and the index after it.
pub open spec fn upsert_outcome(
    config: SearchConfigView,
    context: CallerContext,
    prepared: bool,
    request: UpsertDocumentRequest,
    index: IndexModel,
    refused: spec_fn(Command) -> bool,
) -> (UpsertReplyView, IndexModel) {
    match upsert::upsert_started(config, context, prepared, request) {
        Step::Finished(reply) => (reply, index),
        Step::Continue(session) => {
            let (reply, next) = upsert_run(session, index, refused);
            (
                reply,
                if reply is Ok {
                    next
                } else {
                    index
                },
            )
        },
    }
}

/// How many answers a delete still waits for, at most.
pub open spec fn delete_rest(stage: DeleteStage) -> nat {
    match stage {
        DeleteStage::Begin => 5,
        DeleteStage::Lock => 4,
        DeleteStage::Remove { .. } => 3,
        DeleteStage::Advance => 2,
        DeleteStage::CommitEmpty => 1,
        DeleteStage::Commit { .. } => 1,
    }
}

/// What comes of a delete under way, and the index that its transaction sees at the end.
pub open spec fn delete_run(
    session: DeleteView,
    index: IndexModel,
    refused: spec_fn(Command) -> bool,
) -> (DeleteReplyView, IndexModel)
    decreases delete_rest(session.stage),
{
    let (answer, next) = index.tried(session.command(), nothing(), refused);
    match session.after(answer) {
        Step::Finished(reply) => (reply, next),
        Step::Continue(session) => delete_run(session, next, refused),
    }
}

/// What comes of a delete, and the index after it.
pub open spec fn delete_outcome(
    config: SearchConfigView,
    context: CallerContext,
    prepared: bool,
    request: DeleteDocumentRequest,
    index: IndexModel,
    refused: spec_fn(Command) -> bool,
) -> (DeleteReplyView, IndexModel) {
    match delete::delete_started(config, context, prepared, request) {
        Step::Finished(reply) => (reply, index),
        Step::Continue(session) => {
            let (reply, next) = delete_run(session, index, refused);
            (
                reply,
                if reply is Ok {
                    next
                } else {
                    index
                },
            )
        },
    }
}

/// How many answers a search still waits for, at most.
pub open spec fn query_rest(stage: QueryStageView) -> nat {
    match stage {
        QueryStageView::Begin => 5,
        QueryStageView::Snapshot => 4,
        QueryStageView::Revision => 3,
        QueryStageView::Find { .. } => 2,
        QueryStageView::Commit { .. } => 1,
    }
}

/// What comes of a search under way, and the index that its transaction sees at the end.
pub open spec fn query_run(
    session: QueryView,
    index: IndexModel,
    finder: spec_fn(Find) -> Seq<Row>,
    refused: spec_fn(Command) -> bool,
) -> (SearchReplyView, IndexModel)
    decreases query_rest(session.stage),
{
    let (answer, next) = index.tried(session.command(), finder, refused);
    match session.after(answer) {
        Step::Finished(reply) => (reply, next),
        Step::Continue(session) => query_run(session, next, finder, refused),
    }
}

/// What comes of a search, where `finder` says what the database finds, and the index after it.
pub open spec fn query_outcome(
    config: SearchConfigView,
    context: CallerContext,
    prepared: bool,
    request: SearchRequest,
    index: IndexModel,
    finder: spec_fn(Find) -> Seq<Row>,
    refused: spec_fn(Command) -> bool,
) -> (SearchReplyView, IndexModel) {
    match query::search_started(config, context, prepared, request) {
        Step::Finished(reply) => (reply, index),
        Step::Continue(session) => query_run(session, index, finder, refused),
    }
}

/// The scope that a search looks at.
pub open spec fn searched_scope(request: SearchRequest) -> Scope {
    Scope { scope_kind: request.scope_kind@, scope_id: request.scope_id@ }
}

/// What the statement of a search can find: no more rows than asked for, no row twice, and only
/// documents of the scope and of the kinds asked for that are in the index. Which of them match
/// the query, and in what order, is up to the database.
pub open spec fn findable(index: IndexModel, request: SearchRequest, found: Seq<Row>) -> bool {
    &&& found.len() <= request.limit
    &&& found.no_duplicates()
    &&& forall|i: int|
        0 <= i < found.len() ==> {
            let row = #[trigger] found[i];
            &&& row.source_kind is Some
            &&& row.source_id is Some
            &&& text::texts(request.source_kinds@).contains(row.source_kind->0)
            &&& index.documents.contains_key(document_at(searched_scope(request), row))
        }
}

/// The row that refers to a document.
pub open spec fn row_of(document: DocumentId) -> Row {
    Row { source_kind: Some(document.source_kind), source_id: Some(document.source_id) }
}

/// The document of a scope that a row refers to.
pub open spec fn document_at(scope: Scope, row: Row) -> DocumentId
    recommends
        row.source_kind is Some,
        row.source_id is Some,
{
    DocumentId { scope, source_kind: row.source_kind->0, source_id: row.source_id->0 }
}

/// The document of a scope that a reference refers to.
pub open spec fn referred(scope: Scope, reference: Reference) -> DocumentId {
    DocumentId { scope, source_kind: reference.source_kind, source_id: reference.source_id }
}

/// What the database knows of texts: which of them match which queries, how well they match, and
/// in which order it sorts texts.
pub struct FullText {
    /// Whether a text matches a query.
    pub matches: spec_fn(Seq<char>, Seq<char>) -> bool,
    /// How well a text matches a query: the better, the higher.
    pub rank: spec_fn(Seq<char>, Seq<char>) -> int,
    /// Whether a text is sorted before another.
    pub before: spec_fn(Seq<char>, Seq<char>) -> bool,
}

impl FullText {
    /// Of two texts, at most one is sorted before the other.
    pub open spec fn ordered(self) -> bool {
        vstd::relations::asymmetric(self.before)
    }

    /// Whether a search is for a document: it is in the index, in the scope and of a kind that
    /// the search looks at, and its text matches the query.
    pub open spec fn selects(
        self,
        index: IndexModel,
        request: SearchRequest,
        document: DocumentId,
    ) -> bool {
        &&& document.scope == searched_scope(request)
        &&& text::texts(request.source_kinds@).contains(document.source_kind)
        &&& index.documents.contains_key(document)
        &&& (self.matches)(index.documents[document], text::trimmed(request.query@))
    }

    /// Whether a search puts one document before another: by falling rank, then by the kind of
    /// the source, then by its id.
    pub open spec fn ranks_before(
        self,
        index: IndexModel,
        request: SearchRequest,
        first: DocumentId,
        second: DocumentId,
    ) -> bool {
        let query = text::trimmed(request.query@);
        let first_rank = (self.rank)(index.documents[first], query);
        let second_rank = (self.rank)(index.documents[second], query);
        ||| first_rank > second_rank
        ||| first_rank == second_rank && (self.before)(first.source_kind, second.source_kind)
        ||| first_rank == second_rank && first.source_kind == second.source_kind && (self.before)(
            first.source_id,
            second.source_id,
        )
    }

    /// What the statement of a search finds: only documents that the search is for, in the order
    /// of their rank; and each of them, unless there are as many already as were asked for and
    /// all of these rank before it.
    pub open spec fn finds(
        self,
        index: IndexModel,
        request: SearchRequest,
        found: Seq<Row>,
    ) -> bool {
        let scope = searched_scope(request);
        &&& findable(index, request, found)
        &&& forall|i: int|
            0 <= i < found.len() ==> self.selects(
                index,
                request,
                document_at(scope, #[trigger] found[i]),
            )
        &&& forall|i: int, j: int|
            #![trigger found[i], found[j]]
            0 <= i < j < found.len() ==> self.ranks_before(
                index,
                request,
                document_at(scope, found[i]),
                document_at(scope, found[j]),
            )
        &&& forall|document: DocumentId| #[trigger]
            self.selects(index, request, document) && !found.contains(row_of(document)) ==> {
                &&& found.len() == request.limit
                &&& forall|i: int|
                    0 <= i < found.len() ==> self.ranks_before(
                        index,
                        request,
                        document_at(scope, #[trigger] found[i]),
                        document,
                    )
            }
    }
}

/// Whether two indexes hold the same in one scope.
pub open spec fn alike_in(scope: Scope, index: IndexModel, other: IndexModel) -> bool {
    &&& lookup(index.revisions, scope) == lookup(other.revisions, scope)
    &&& forall|document: DocumentId|
        document.scope == scope ==> #[trigger] lookup(index.documents, document) == lookup(
            other.documents,
            document,
        )
}

} // verus!
