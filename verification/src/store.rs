//! What an operation asks of the database, and what the database answers.
use vstd::prelude::*;
use vstd::string::*;
use crate::text;

verus! {

pub const SET_SNAPSHOT_SQL: &'static str = "SET TRANSACTION ISOLATION LEVEL REPEATABLE READ, READ ONLY";

pub const READ_REVISION_SQL: &'static str = "SELECT index_revision FROM search_scopes WHERE scope_kind=$1 AND scope_id=$2";

pub const FIND_REFERENCES_SQL: &'static str = "SELECT source_kind,source_id FROM search_documents WHERE scope_kind=$1 AND scope_id=$2 AND source_kind=ANY($3) AND search_vector @@ plainto_tsquery('simple'::regconfig,$4) ORDER BY ts_rank_cd(search_vector,plainto_tsquery('simple'::regconfig,$4)) DESC,source_kind,source_id LIMIT $5";

pub const ENSURE_SCOPE_SQL: &'static str = "INSERT INTO search_scopes(scope_kind,scope_id) VALUES($1,$2) ON CONFLICT DO NOTHING";

pub const LOCK_SCOPE_SQL: &'static str = "SELECT index_revision FROM search_scopes WHERE scope_kind=$1 AND scope_id=$2 FOR UPDATE";

pub const READ_DOCUMENT_SQL: &'static str = "SELECT search_text FROM search_documents WHERE scope_kind=$1 AND scope_id=$2 AND source_kind=$3 AND source_id=$4";

pub const WRITE_DOCUMENT_SQL: &'static str = "INSERT INTO search_documents(scope_kind,scope_id,source_kind,source_id,search_text) VALUES($1,$2,$3,$4,$5) ON CONFLICT(scope_kind,scope_id,source_kind,source_id) DO UPDATE SET search_text=EXCLUDED.search_text,updated_at=transaction_timestamp()";

pub const ADVANCE_REVISION_SQL: &'static str = "UPDATE search_scopes SET index_revision=index_revision+1 WHERE scope_kind=$1 AND scope_id=$2 RETURNING index_revision";

pub const DELETE_DOCUMENT_SQL: &'static str = "DELETE FROM search_documents WHERE scope_kind=$1 AND scope_id=$2 AND source_kind=$3 AND source_id=$4";

/// The scope that an operation works in.
#[derive(Debug, PartialEq, Eq)]
pub struct ScopeRef {
    pub scope_kind: String,
    pub scope_id: String,
}

/// The document that an operation is about.
#[derive(Debug, PartialEq, Eq)]
pub struct DocumentRef {
    pub scope: ScopeRef,
    pub source_kind: String,
    pub source_id: String,
}

/// What a [`ScopeRef`] spells.
pub struct Scope {
    pub scope_kind: Seq<char>,
    pub scope_id: Seq<char>,
}

/// What a [`DocumentRef`] spells.
pub struct DocumentId {
    pub scope: Scope,
    pub source_kind: Seq<char>,
    pub source_id: Seq<char>,
}

impl View for ScopeRef {
    type V = Scope;

    open spec fn view(&self) -> Scope {
        Scope { scope_kind: self.scope_kind@, scope_id: self.scope_id@ }
    }
}

impl View for DocumentRef {
    type V = DocumentId;

    open spec fn view(&self) -> DocumentId {
        DocumentId {
            scope: self.scope@,
            source_kind: self.source_kind@,
            source_id: self.source_id@,
        }
    }
}

impl Clone for ScopeRef {
    fn clone(&self) -> (copy: ScopeRef)
        ensures
            copy@ == self@,
    {
        ScopeRef { scope_kind: self.scope_kind.clone(), scope_id: self.scope_id.clone() }
    }
}

impl Clone for DocumentRef {
    fn clone(&self) -> (copy: DocumentRef)
        ensures
            copy@ == self@,
    {
        DocumentRef {
            scope: self.scope.clone(),
            source_kind: self.source_kind.clone(),
            source_id: self.source_id.clone(),
        }
    }
}

/// One thing to do in the database.
#[derive(Debug, PartialEq, Eq)]
pub enum StoreCommand {
    /// Opens the transaction of a search.
    BeginQuery,
    /// Gives the search one read-only snapshot of the index.
    SetSnapshot,
    /// Reads the revision of a scope, if there is such a scope.
    ReadRevision { scope: ScopeRef },
    /// Finds the documents of a scope that match a query, best first.
    FindReferences { scope: ScopeRef, source_kinds: Vec<String>, query: String, limit: i64 },
    /// Ends the transaction of a search.
    CommitQuery,
    /// Opens the transaction of an upsert.
    BeginUpsert,
    /// Adds a scope, unless it is there.
    EnsureScope { scope: ScopeRef },
    /// Locks a scope that is there, and reads its revision.
    LockRevision { scope: ScopeRef },
    /// Reads what is indexed of a document, if it is indexed.
    ReadDocument { document: DocumentRef },
    /// Indexes a document, in place of what was indexed of it.
    WriteDocument { document: DocumentRef, search_text: String },
    /// Raises the revision of a scope by one, and reads it.
    AdvanceRevision { scope: ScopeRef },
    /// Ends the transaction of an upsert.
    CommitUpsert,
    /// Opens the transaction of a delete.
    BeginDelete,
    /// Locks a scope and reads its revision, if there is such a scope.
    LockScope { scope: ScopeRef },
    /// Ends the transaction of a delete in a scope that is not there.
    CommitEmptyDelete,
    /// Takes a document out of the index.
    DeleteDocument { document: DocumentRef },
    /// Ends the transaction of a delete.
    CommitDelete,
}

/// What a [`StoreCommand`] asks for.
pub enum Command {
    BeginQuery,
    SetSnapshot,
    ReadRevision { scope: Scope },
    FindReferences { scope: Scope, source_kinds: Seq<Seq<char>>, query: Seq<char>, limit: i64 },
    CommitQuery,
    BeginUpsert,
    EnsureScope { scope: Scope },
    LockRevision { scope: Scope },
    ReadDocument { document: DocumentId },
    WriteDocument { document: DocumentId, search_text: Seq<char> },
    AdvanceRevision { scope: Scope },
    CommitUpsert,
    BeginDelete,
    LockScope { scope: Scope },
    CommitEmptyDelete,
    DeleteDocument { document: DocumentId },
    CommitDelete,
}

impl View for StoreCommand {
    type V = Command;

    open spec fn view(&self) -> Command {
        match self {
            StoreCommand::BeginQuery => Command::BeginQuery,
            StoreCommand::SetSnapshot => Command::SetSnapshot,
            StoreCommand::ReadRevision { scope } => Command::ReadRevision { scope: scope@ },
            StoreCommand::FindReferences { scope, source_kinds, query, limit } => Command::FindReferences { scope: scope@, source_kinds: text::texts(source_kinds@), query: query@, limit: *limit },
            StoreCommand::CommitQuery => Command::CommitQuery,
            StoreCommand::BeginUpsert => Command::BeginUpsert,
            StoreCommand::EnsureScope { scope } => Command::EnsureScope { scope: scope@ },
            StoreCommand::LockRevision { scope } => Command::LockRevision { scope: scope@ },
            StoreCommand::ReadDocument { document } => Command::ReadDocument { document: document@ },
            StoreCommand::WriteDocument { document, search_text } => Command::WriteDocument { document: document@, search_text: search_text@ },
            StoreCommand::AdvanceRevision { scope } => Command::AdvanceRevision { scope: scope@ },
            StoreCommand::CommitUpsert => Command::CommitUpsert,
            StoreCommand::BeginDelete => Command::BeginDelete,
            StoreCommand::LockScope { scope } => Command::LockScope { scope: scope@ },
            StoreCommand::CommitEmptyDelete => Command::CommitEmptyDelete,
            StoreCommand::DeleteDocument { document } => Command::DeleteDocument { document: document@ },
            StoreCommand::CommitDelete => Command::CommitDelete,
        }
    }
}

/// A value that a statement is run with.
#[derive(Debug, PartialEq, Eq)]
pub enum Binding {
    Text(String),
    Texts(Vec<String>),
    Number(i64),
}

/// What a [`Binding`] holds.
pub enum BindingView {
    Text(Seq<char>),
    Texts(Seq<Seq<char>>),
    Number(i64),
}

impl View for Binding {
    type V = BindingView;

    open spec fn view(&self) -> BindingView {
        match self {
            Binding::Text(text) => BindingView::Text(text@),
            Binding::Texts(texts) => BindingView::Texts(text::texts(texts@)),
            Binding::Number(number) => BindingView::Number(*number),
        }
    }
}

/// What each of `bindings` holds.
pub open spec fn bound(bindings: Seq<Binding>) -> Seq<BindingView> {
    bindings.map_values(|binding: Binding| binding@)
}

/// The values that name a scope in a statement.
pub open spec fn scope_bindings(scope: Scope) -> Seq<BindingView> {
    seq![BindingView::Text(scope.scope_kind), BindingView::Text(scope.scope_id)]
}

/// The values that name a document in a statement.
pub open spec fn document_bindings(document: DocumentId) -> Seq<BindingView> {
    seq![
        BindingView::Text(document.scope.scope_kind),
        BindingView::Text(document.scope.scope_id),
        BindingView::Text(document.source_kind),
        BindingView::Text(document.source_id),
    ]
}

impl Command {
    /// What the operation is called where it fails.
    pub open spec fn operation(self) -> Seq<char> {
        match self {
            Command::BeginQuery => "begin search snapshot"@,
            Command::SetSnapshot => "set search snapshot"@,
            Command::ReadRevision { .. } => "read search revision"@,
            Command::FindReferences { .. } => "query search index"@,
            Command::CommitQuery => "commit search snapshot"@,
            Command::BeginUpsert => "begin search upsert"@,
            Command::EnsureScope { .. } => "ensure search scope"@,
            Command::LockRevision { .. } => "lock search scope"@,
            Command::ReadDocument { .. } => "read indexed document"@,
            Command::WriteDocument { .. } => "upsert indexed document"@,
            Command::AdvanceRevision { .. } => "advance search revision"@,
            Command::CommitUpsert => "commit search upsert"@,
            Command::BeginDelete => "begin search delete"@,
            Command::LockScope { .. } => "lock search scope"@,
            Command::CommitEmptyDelete => "commit empty search delete"@,
            Command::DeleteDocument { .. } => "delete indexed document"@,
            Command::CommitDelete => "commit search delete"@,
        }
    }

    /// The statement that does it. Opening and ending a transaction take none.
    pub open spec fn sql(self) -> Option<Seq<char>> {
        match self {
            Command::BeginQuery => None,
            Command::SetSnapshot => Some(SET_SNAPSHOT_SQL@),
            Command::ReadRevision { .. } => Some(READ_REVISION_SQL@),
            Command::FindReferences { .. } => Some(FIND_REFERENCES_SQL@),
            Command::CommitQuery => None,
            Command::BeginUpsert => None,
            Command::EnsureScope { .. } => Some(ENSURE_SCOPE_SQL@),
            Command::LockRevision { .. } => Some(LOCK_SCOPE_SQL@),
            Command::ReadDocument { .. } => Some(READ_DOCUMENT_SQL@),
            Command::WriteDocument { .. } => Some(WRITE_DOCUMENT_SQL@),
            Command::AdvanceRevision { .. } => Some(ADVANCE_REVISION_SQL@),
            Command::CommitUpsert => None,
            Command::BeginDelete => None,
            Command::LockScope { .. } => Some(LOCK_SCOPE_SQL@),
            Command::CommitEmptyDelete => None,
            Command::DeleteDocument { .. } => Some(DELETE_DOCUMENT_SQL@),
            Command::CommitDelete => None,
        }
    }

    /// The values that the statement is run with, in order.
    pub open spec fn bindings(self) -> Seq<BindingView> {
        match self {
            Command::ReadRevision { scope } => scope_bindings(scope),
            Command::FindReferences { scope, source_kinds, query, limit } => scope_bindings(scope).push(BindingView::Texts(source_kinds)).push(BindingView::Text(query)).push(
                BindingView::Number(limit),
            ),
            Command::EnsureScope { scope } => scope_bindings(scope),
            Command::LockRevision { scope } => scope_bindings(scope),
            Command::ReadDocument { document } => document_bindings(document),
            Command::WriteDocument { document, search_text } => document_bindings(document).push(
                BindingView::Text(search_text),
            ),
            Command::AdvanceRevision { scope } => scope_bindings(scope),
            Command::LockScope { scope } => scope_bindings(scope),
            Command::DeleteDocument { document } => document_bindings(document),
            _ => Seq::empty(),
        }
    }
}

impl StoreCommand {
    /// What the operation is called where it fails.
    pub fn operation(&self) -> (operation: &'static str)
        ensures
            operation@ == self@.operation(),
    {
        match self {
            StoreCommand::BeginQuery => "begin search snapshot",
            StoreCommand::SetSnapshot => "set search snapshot",
            StoreCommand::ReadRevision { .. } => "read search revision",
            StoreCommand::FindReferences { .. } => "query search index",
            StoreCommand::CommitQuery => "commit search snapshot",
            StoreCommand::BeginUpsert => "begin search upsert",
            StoreCommand::EnsureScope { .. } => "ensure search scope",
            StoreCommand::LockRevision { .. } => "lock search scope",
            StoreCommand::ReadDocument { .. } => "read indexed document",
            StoreCommand::WriteDocument { .. } => "upsert indexed document",
            StoreCommand::AdvanceRevision { .. } => "advance search revision",
            StoreCommand::CommitUpsert => "commit search upsert",
            StoreCommand::BeginDelete => "begin search delete",
            StoreCommand::LockScope { .. } => "lock search scope",
            StoreCommand::CommitEmptyDelete => "commit empty search delete",
            StoreCommand::DeleteDocument { .. } => "delete indexed document",
            StoreCommand::CommitDelete => "commit search delete",
        }
    }

    /// The statement that does it. Opening and ending a transaction take none.
    pub fn sql(&self) -> (sql: Option<&'static str>)
        ensures
            match sql {
                Some(statement) => self@.sql() == Some(statement@),
                None => self@.sql() is None,
            },
    {
        match self {
            StoreCommand::BeginQuery => None,
            StoreCommand::SetSnapshot => Some(SET_SNAPSHOT_SQL),
            StoreCommand::ReadRevision { .. } => Some(READ_REVISION_SQL),
            StoreCommand::FindReferences { .. } => Some(FIND_REFERENCES_SQL),
            StoreCommand::CommitQuery => None,
            StoreCommand::BeginUpsert => None,
            StoreCommand::EnsureScope { .. } => Some(ENSURE_SCOPE_SQL),
            StoreCommand::LockRevision { .. } => Some(LOCK_SCOPE_SQL),
            StoreCommand::ReadDocument { .. } => Some(READ_DOCUMENT_SQL),
            StoreCommand::WriteDocument { .. } => Some(WRITE_DOCUMENT_SQL),
            StoreCommand::AdvanceRevision { .. } => Some(ADVANCE_REVISION_SQL),
            StoreCommand::CommitUpsert => None,
            StoreCommand::BeginDelete => None,
            StoreCommand::LockScope { .. } => Some(LOCK_SCOPE_SQL),
            StoreCommand::CommitEmptyDelete => None,
            StoreCommand::DeleteDocument { .. } => Some(DELETE_DOCUMENT_SQL),
            StoreCommand::CommitDelete => None,
        }
    }

    /// The values that the statement is run with, in order.
    pub fn bindings(&self) -> (bindings: Vec<Binding>)
        ensures
            bound(bindings@) == self@.bindings(),
    {
        match self {
            StoreCommand::ReadRevision { scope } => bind_scope(scope),
            StoreCommand::FindReferences { scope, source_kinds, query, limit } => {
                let mut bindings = bind_scope(scope);
                bindings.push(Binding::Texts(source_kinds.clone()));
                bindings.push(Binding::Text(query.clone()));
                bindings.push(Binding::Number(*limit));
                assert(bound(bindings@) =~= self@.bindings());
                bindings
            },
            StoreCommand::EnsureScope { scope } => bind_scope(scope),
            StoreCommand::LockRevision { scope } => bind_scope(scope),
            StoreCommand::ReadDocument { document } => bind_document(document),
            StoreCommand::WriteDocument { document, search_text } => {
                let mut bindings = bind_document(document);
                bindings.push(Binding::Text(search_text.clone()));
                assert(bound(bindings@) =~= self@.bindings());
                bindings
            },
            StoreCommand::AdvanceRevision { scope } => bind_scope(scope),
            StoreCommand::LockScope { scope } => bind_scope(scope),
            StoreCommand::DeleteDocument { document } => bind_document(document),
            _ => {
                let bindings: Vec<Binding> = Vec::new();
                assert(bound(bindings@) =~= Seq::empty());
                bindings
            },
        }
    }
}

fn bind_scope(scope: &ScopeRef) -> (bindings: Vec<Binding>)
    ensures
        bound(bindings@) == scope_bindings(scope@),
{
    let mut bindings: Vec<Binding> = Vec::new();
    bindings.push(Binding::Text(scope.scope_kind.clone()));
    bindings.push(Binding::Text(scope.scope_id.clone()));
    assert(bound(bindings@) =~= scope_bindings(scope@));
    bindings
}

fn bind_document(document: &DocumentRef) -> (bindings: Vec<Binding>)
    ensures
        bound(bindings@) == document_bindings(document@),
{
    let mut bindings = bind_scope(&document.scope);
    let ghost scope = bound(bindings@);
    bindings.push(Binding::Text(document.source_kind.clone()));
    bindings.push(Binding::Text(document.source_id.clone()));
    assert(bound(bindings@).take(2) =~= scope);
    assert(bound(bindings@)[0] == scope[0] && bound(bindings@)[1] == scope[1]);
    assert(bound(bindings@) =~= document_bindings(document@));
    bindings
}

/// One row that a search found. A column that could not be read is missing.
#[derive(Debug, PartialEq, Eq)]
pub struct ReferenceRow {
    pub source_kind: Option<String>,
    pub source_id: Option<String>,
}

/// What came of a [`StoreCommand`].
#[derive(Debug, PartialEq, Eq)]
pub enum StoreAnswer {
    /// It failed.
    Failed,
    /// It was done, and there is nothing to tell.
    Done,
    /// The revision of a scope, if there is such a scope.
    Revision(Option<i64>),
    /// The revision of a scope that is there.
    CurrentRevision(i64),
    /// What is indexed of a document, if it is indexed.
    Text(Option<String>),
    /// The rows that were found.
    Rows(Vec<ReferenceRow>),
    /// The number of rows that were changed.
    Affected(u64),
}

/// What a [`ReferenceRow`] spells.
pub struct Row {
    pub source_kind: Option<Seq<char>>,
    pub source_id: Option<Seq<char>>,
}

/// What a [`StoreAnswer`] tells.
pub enum Answer {
    Failed,
    Done,
    Revision(Option<i64>),
    CurrentRevision(i64),
    Text(Option<Seq<char>>),
    Rows(Seq<Row>),
    Affected(u64),
}

/// What a value spells, where there is one.
pub open spec fn spelled(value: Option<String>) -> Option<Seq<char>> {
    match value {
        Some(text) => Some(text@),
        None => None,
    }
}

/// What each of `rows` spells.
pub open spec fn rows_of(rows: Seq<ReferenceRow>) -> Seq<Row> {
    rows.map_values(|row: ReferenceRow| row@)
}

impl View for ReferenceRow {
    type V = Row;

    open spec fn view(&self) -> Row {
        Row { source_kind: spelled(self.source_kind), source_id: spelled(self.source_id) }
    }
}

impl View for StoreAnswer {
    type V = Answer;

    open spec fn view(&self) -> Answer {
        match self {
            StoreAnswer::Failed => Answer::Failed,
            StoreAnswer::Done => Answer::Done,
            StoreAnswer::Revision(revision) => Answer::Revision(*revision),
            StoreAnswer::CurrentRevision(revision) => Answer::CurrentRevision(*revision),
            StoreAnswer::Text(text) => Answer::Text(spelled(*text)),
            StoreAnswer::Rows(rows) => Answer::Rows(rows_of(rows@)),
            StoreAnswer::Affected(count) => Answer::Affected(*count),
        }
    }
}

/// Where an operation stands: it goes on with `S`, or it is over with the reply `R`.
#[derive(Debug, PartialEq, Eq)]
pub enum Step<S, R> {
    Continue(S),
    Finished(R),
}

/// What each command is called where it fails, and the statement that does it: a search reads one
/// snapshot of one scope, an upsert adds the scope and replaces the document, a delete takes out
/// the one row that all four columns name, and a revision is raised by one.
pub proof fn commands_run_their_statements(command: StoreCommand)
    ensures
        match command {
            StoreCommand::BeginQuery => {
                &&& command@.operation() == "begin search snapshot"@
                &&& command@.sql() is None
            },
            StoreCommand::SetSnapshot => {
                &&& command@.operation() == "set search snapshot"@
                &&& command@.sql() == Some(
                    "SET TRANSACTION ISOLATION LEVEL REPEATABLE READ, READ ONLY"@,
                )
            },
            StoreCommand::ReadRevision { .. } => {
                &&& command@.operation() == "read search revision"@
                &&& command@.sql() == Some(
                    "SELECT index_revision FROM search_scopes WHERE scope_kind=$1 AND scope_id=$2"@,
                )
            },
            StoreCommand::FindReferences { .. } => {
                &&& command@.operation() == "query search index"@
                &&& command@.sql() == Some(
                    "SELECT source_kind,source_id FROM search_documents WHERE scope_kind=$1 AND scope_id=$2 AND source_kind=ANY($3) AND search_vector @@ plainto_tsquery('simple'::regconfig,$4) ORDER BY ts_rank_cd(search_vector,plainto_tsquery('simple'::regconfig,$4)) DESC,source_kind,source_id LIMIT $5"@,
                )
            },
            StoreCommand::CommitQuery => {
                &&& command@.operation() == "commit search snapshot"@
                &&& command@.sql() is None
            },
            StoreCommand::BeginUpsert => {
                &&& command@.operation() == "begin search upsert"@
                &&& command@.sql() is None
            },
            StoreCommand::EnsureScope { .. } => {
                &&& command@.operation() == "ensure search scope"@
                &&& command@.sql() == Some(
                    "INSERT INTO search_scopes(scope_kind,scope_id) VALUES($1,$2) ON CONFLICT DO NOTHING"@,
                )
            },
            StoreCommand::LockRevision { .. } => {
                &&& command@.operation() == "lock search scope"@
                &&& command@.sql() == Some(
                    "SELECT index_revision FROM search_scopes WHERE scope_kind=$1 AND scope_id=$2 FOR UPDATE"@,
                )
            },
            StoreCommand::ReadDocument { .. } => {
                &&& command@.operation() == "read indexed document"@
                &&& command@.sql() == Some(
                    "SELECT search_text FROM search_documents WHERE scope_kind=$1 AND scope_id=$2 AND source_kind=$3 AND source_id=$4"@,
                )
            },
            StoreCommand::WriteDocument { .. } => {
                &&& command@.operation() == "upsert indexed document"@
                &&& command@.sql() == Some(
                    "INSERT INTO search_documents(scope_kind,scope_id,source_kind,source_id,search_text) VALUES($1,$2,$3,$4,$5) ON CONFLICT(scope_kind,scope_id,source_kind,source_id) DO UPDATE SET search_text=EXCLUDED.search_text,updated_at=transaction_timestamp()"@,
                )
            },
            StoreCommand::AdvanceRevision { .. } => {
                &&& command@.operation() == "advance search revision"@
                &&& command@.sql() == Some(
                    "UPDATE search_scopes SET index_revision=index_revision+1 WHERE scope_kind=$1 AND scope_id=$2 RETURNING index_revision"@,
                )
            },
            StoreCommand::CommitUpsert => {
                &&& command@.operation() == "commit search upsert"@
                &&& command@.sql() is None
            },
            StoreCommand::BeginDelete => {
                &&& command@.operation() == "begin search delete"@
                &&& command@.sql() is None
            },
            StoreCommand::LockScope { .. } => {
                &&& command@.operation() == "lock search scope"@
                &&& command@.sql() == Some(
                    "SELECT index_revision FROM search_scopes WHERE scope_kind=$1 AND scope_id=$2 FOR UPDATE"@,
                )
            },
            StoreCommand::CommitEmptyDelete => {
                &&& command@.operation() == "commit empty search delete"@
                &&& command@.sql() is None
            },
            StoreCommand::DeleteDocument { .. } => {
                &&& command@.operation() == "delete indexed document"@
                &&& command@.sql() == Some(
                    "DELETE FROM search_documents WHERE scope_kind=$1 AND scope_id=$2 AND source_kind=$3 AND source_id=$4"@,
                )
            },
            StoreCommand::CommitDelete => {
                &&& command@.operation() == "commit search delete"@
                &&& command@.sql() is None
            },
        },
{
}

/// Every statement is run with the values of its command, each under its own number.
pub proof fn statements_are_bound_with_their_values(command: StoreCommand)
    ensures
        match command {
            StoreCommand::ReadRevision { scope } => command@.bindings() =~= seq![
                BindingView::Text(scope.scope_kind@),
                BindingView::Text(scope.scope_id@),
            ],
            StoreCommand::FindReferences { scope, source_kinds, query, limit } => command@.bindings() =~= seq![
                BindingView::Text(scope.scope_kind@),
                BindingView::Text(scope.scope_id@),
                BindingView::Texts(
                    Seq::new(source_kinds@.len(), |i: int| source_kinds@[i]@),
                ),
                BindingView::Text(query@),
                BindingView::Number(limit),
            ],
            StoreCommand::EnsureScope { scope } => command@.bindings() =~= seq![
                BindingView::Text(scope.scope_kind@),
                BindingView::Text(scope.scope_id@),
            ],
            StoreCommand::LockRevision { scope } => command@.bindings() =~= seq![
                BindingView::Text(scope.scope_kind@),
                BindingView::Text(scope.scope_id@),
            ],
            StoreCommand::ReadDocument { document } => command@.bindings() =~= seq![
                BindingView::Text(document.scope.scope_kind@),
                BindingView::Text(document.scope.scope_id@),
                BindingView::Text(document.source_kind@),
                BindingView::Text(document.source_id@),
            ],
            StoreCommand::WriteDocument { document, search_text } => command@.bindings() =~= seq![
                BindingView::Text(document.scope.scope_kind@),
                BindingView::Text(document.scope.scope_id@),
                BindingView::Text(document.source_kind@),
                BindingView::Text(document.source_id@),
                BindingView::Text(search_text@),
            ],
            StoreCommand::AdvanceRevision { scope } => command@.bindings() =~= seq![
                BindingView::Text(scope.scope_kind@),
                BindingView::Text(scope.scope_id@),
            ],
            StoreCommand::LockScope { scope } => command@.bindings() =~= seq![
                BindingView::Text(scope.scope_kind@),
                BindingView::Text(scope.scope_id@),
            ],
            StoreCommand::DeleteDocument { document } => command@.bindings() =~= seq![
                BindingView::Text(document.scope.scope_kind@),
                BindingView::Text(document.scope.scope_id@),
                BindingView::Text(document.source_kind@),
                BindingView::Text(document.source_id@),
            ],
            _ => command@.bindings().len() == 0,
        },
{
    if let StoreCommand::FindReferences { source_kinds, .. } = command {
        assert(text::texts(source_kinds@) =~= Seq::new(
            source_kinds@.len(),
            |i: int| source_kinds@[i]@,
        ));
    }
}

/// A command is seen as what it is, with all that it holds.
pub proof fn commands_are_seen_whole(command: StoreCommand)
    ensures
        match command {
            StoreCommand::BeginQuery => command@ is BeginQuery,
            StoreCommand::SetSnapshot => command@ is SetSnapshot,
            StoreCommand::ReadRevision { scope } => command@ == (Command::ReadRevision { scope: scope@ }),
            StoreCommand::FindReferences { scope, source_kinds, query, limit } => command@ == (Command::FindReferences { scope: scope@, source_kinds: text::texts(source_kinds@), query: query@, limit }),
            StoreCommand::CommitQuery => command@ is CommitQuery,
            StoreCommand::BeginUpsert => command@ is BeginUpsert,
            StoreCommand::EnsureScope { scope } => command@ == (Command::EnsureScope { scope: scope@ }),
            StoreCommand::LockRevision { scope } => command@ == (Command::LockRevision { scope: scope@ }),
            StoreCommand::ReadDocument { document } => command@ == (Command::ReadDocument { document: document@ }),
            StoreCommand::WriteDocument { document, search_text } => command@ == (Command::WriteDocument { document: document@, search_text: search_text@ }),
            StoreCommand::AdvanceRevision { scope } => command@ == (Command::AdvanceRevision { scope: scope@ }),
            StoreCommand::CommitUpsert => command@ is CommitUpsert,
            StoreCommand::BeginDelete => command@ is BeginDelete,
            StoreCommand::LockScope { scope } => command@ == (Command::LockScope { scope: scope@ }),
            StoreCommand::CommitEmptyDelete => command@ is CommitEmptyDelete,
            StoreCommand::DeleteDocument { document } => command@ == (Command::DeleteDocument { document: document@ }),
            StoreCommand::CommitDelete => command@ is CommitDelete,
        },
{
}

/// A scope, a document, a row and a binding are seen as what they are, with all that they hold.
pub proof fn values_are_seen_whole(
    scope: ScopeRef,
    document: DocumentRef,
    row: ReferenceRow,
    binding: Binding,
)
    ensures
        scope@.scope_kind == scope.scope_kind@,
        scope@.scope_id == scope.scope_id@,
        document@.scope.scope_kind == document.scope.scope_kind@,
        document@.scope.scope_id == document.scope.scope_id@,
        document@.source_kind == document.source_kind@,
        document@.source_id == document.source_id@,
        row@.source_kind is Some <==> row.source_kind is Some,
        row@.source_id is Some <==> row.source_id is Some,
        row.source_kind is Some ==> row@.source_kind->0 == row.source_kind->0@,
        row.source_id is Some ==> row@.source_id->0 == row.source_id->0@,
        match binding {
            Binding::Text(value) => binding@ == BindingView::Text(value@),
            Binding::Texts(values) => binding@ matches BindingView::Texts(spelled_values)
                && spelled_values.len() == values@.len() && forall|i: int|
                0 <= i < values@.len() ==> #[trigger] spelled_values[i] == values@[i]@,
            Binding::Number(number) => binding@ == BindingView::Number(number),
        },
{
}

/// The bindings that a statement is run with are all there, each in its place.
pub proof fn bindings_are_seen_whole(bindings: Seq<Binding>)
    ensures
        bound(bindings).len() == bindings.len(),
        forall|i: int| 0 <= i < bindings.len() ==> #[trigger] bound(bindings)[i] == bindings[i]@,
{
}

/// An answer is seen as what it is, with all that it holds.
pub proof fn answers_are_seen_whole(answer: StoreAnswer)
    ensures
        match answer {
            StoreAnswer::Failed => answer@ is Failed,
            StoreAnswer::Done => answer@ is Done,
            StoreAnswer::Revision(revision) => answer@ == Answer::Revision(revision),
            StoreAnswer::CurrentRevision(revision) => answer@ == Answer::CurrentRevision(revision),
            StoreAnswer::Text(None) => answer@ == Answer::Text(None),
            StoreAnswer::Text(Some(existing)) => answer@ == Answer::Text(Some(existing@)),
            StoreAnswer::Rows(rows) => answer@ matches Answer::Rows(seen) && seen.len()
                == rows@.len() && forall|i: int|
                0 <= i < rows@.len() ==> #[trigger] seen[i] == rows@[i]@,
            StoreAnswer::Affected(count) => answer@ == Answer::Affected(count),
        },
{
}

/// Two commands that run the same statement are of one kind, but for the two that lock a scope.
pub proof fn statements_are_not_shared(command: Command, other: Command)
    requires
        command.sql() is Some,
        command.sql() == other.sql(),
    ensures
        command is SetSnapshot <==> other is SetSnapshot,
        command is ReadRevision <==> other is ReadRevision,
        command is FindReferences <==> other is FindReferences,
        command is EnsureScope <==> other is EnsureScope,
        command is LockRevision || command is LockScope <==> other is LockRevision
            || other is LockScope,
        command is ReadDocument <==> other is ReadDocument,
        command is WriteDocument <==> other is WriteDocument,
        command is AdvanceRevision <==> other is AdvanceRevision,
        command is DeleteDocument <==> other is DeleteDocument,
{
    statements_by_length();
}

/// No two statements are equally long.
pub proof fn statements_by_length()
    ensures
        SET_SNAPSHOT_SQL@.len() == 58,
        READ_REVISION_SQL@.len() == 76,
        FIND_REFERENCES_SQL@.len() == 282,
        ENSURE_SCOPE_SQL@.len() == 83,
        LOCK_SCOPE_SQL@.len() == 87,
        READ_DOCUMENT_SQL@.len() == 112,
        WRITE_DOCUMENT_SQL@.len() == 243,
        ADVANCE_REVISION_SQL@.len() == 117,
        DELETE_DOCUMENT_SQL@.len() == 100,
{
    reveal_strlit("SET TRANSACTION ISOLATION LEVEL REPEATABLE READ, READ ONLY");
    reveal_strlit("SELECT index_revision FROM search_scopes WHERE scope_kind=$1 AND scope_id=$2");
    reveal_strlit("SELECT source_kind,source_id FROM search_documents WHERE scope_kind=$1 AND scope_id=$2 AND source_kind=ANY($3) AND search_vector @@ plainto_tsquery('simple'::regconfig,$4) ORDER BY ts_rank_cd(search_vector,plainto_tsquery('simple'::regconfig,$4)) DESC,source_kind,source_id LIMIT $5");
    reveal_strlit("INSERT INTO search_scopes(scope_kind,scope_id) VALUES($1,$2) ON CONFLICT DO NOTHING");
    reveal_strlit("SELECT index_revision FROM search_scopes WHERE scope_kind=$1 AND scope_id=$2 FOR UPDATE");
    reveal_strlit("SELECT search_text FROM search_documents WHERE scope_kind=$1 AND scope_id=$2 AND source_kind=$3 AND source_id=$4");
    reveal_strlit("INSERT INTO search_documents(scope_kind,scope_id,source_kind,source_id,search_text) VALUES($1,$2,$3,$4,$5) ON CONFLICT(scope_kind,scope_id,source_kind,source_id) DO UPDATE SET search_text=EXCLUDED.search_text,updated_at=transaction_timestamp()");
    reveal_strlit("UPDATE search_scopes SET index_revision=index_revision+1 WHERE scope_kind=$1 AND scope_id=$2 RETURNING index_revision");
    reveal_strlit("DELETE FROM search_documents WHERE scope_kind=$1 AND scope_id=$2 AND source_kind=$3 AND source_id=$4");
}

/// What a statement starts with tells what it does: only the commands that change the tables insert,
/// update or delete.
pub proof fn statements_that_change_the_tables(command: Command)
    requires
        command.sql() is Some,
    ensures
        ({
            let statement = command.sql()->0;
            &&& statement.len() > 5
            &&& command is EnsureScope || command is WriteDocument <==> statement[0] == 'I'
                && statement[1] == 'N' && statement[2] == 'S'
            &&& command is AdvanceRevision <==> statement[0] == 'U' && statement[1] == 'P'
                && statement[2] == 'D'
            &&& command is DeleteDocument <==> statement[0] == 'D' && statement[1] == 'E'
                && statement[2] == 'L'
            &&& command is ReadRevision || command is FindReferences || command is LockRevision
                || command is LockScope || command is ReadDocument <==> statement[0] == 'S'
                && statement[1] == 'E' && statement[2] == 'L'
        }),
{
    reveal_strlit("SET TRANSACTION ISOLATION LEVEL REPEATABLE READ, READ ONLY");
    reveal_strlit("SELECT index_revision FROM search_scopes WHERE scope_kind=$1 AND scope_id=$2");
    reveal_strlit("SELECT source_kind,source_id FROM search_documents WHERE scope_kind=$1 AND scope_id=$2 AND source_kind=ANY($3) AND search_vector @@ plainto_tsquery('simple'::regconfig,$4) ORDER BY ts_rank_cd(search_vector,plainto_tsquery('simple'::regconfig,$4)) DESC,source_kind,source_id LIMIT $5");
    reveal_strlit("INSERT INTO search_scopes(scope_kind,scope_id) VALUES($1,$2) ON CONFLICT DO NOTHING");
    reveal_strlit("SELECT index_revision FROM search_scopes WHERE scope_kind=$1 AND scope_id=$2 FOR UPDATE");
    reveal_strlit("SELECT search_text FROM search_documents WHERE scope_kind=$1 AND scope_id=$2 AND source_kind=$3 AND source_id=$4");
    reveal_strlit("INSERT INTO search_documents(scope_kind,scope_id,source_kind,source_id,search_text) VALUES($1,$2,$3,$4,$5) ON CONFLICT(scope_kind,scope_id,source_kind,source_id) DO UPDATE SET search_text=EXCLUDED.search_text,updated_at=transaction_timestamp()");
    reveal_strlit("UPDATE search_scopes SET index_revision=index_revision+1 WHERE scope_kind=$1 AND scope_id=$2 RETURNING index_revision");
    reveal_strlit("DELETE FROM search_documents WHERE scope_kind=$1 AND scope_id=$2 AND source_kind=$3 AND source_id=$4");
}

} // verus!
