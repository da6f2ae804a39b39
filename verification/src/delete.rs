//! Taking a document out of the index: who may do it, and the steps it takes.
use vstd::prelude::*;
use vstd::string::*;
use crate::config::SearchConfig;
use crate::config::SearchConfigView;
use crate::contract::CallerContext;
use crate::contract::DeleteDocumentError;
use crate::contract::DeleteDocumentRequest;
use crate::contract::DeleteDocumentResponse;
use crate::contract;
use crate::failure::Failure;
use crate::failure::FailureView;
use crate::failure;
use crate::lifecycle::SearchState;
use crate::rules;
use crate::store::Answer;
use crate::store::Command;
use crate::store::DocumentId;
use crate::store::DocumentRef;
use crate::store::Scope;
use crate::store::ScopeRef;
use crate::store::Step;
use crate::store::StoreAnswer;
use crate::store::StoreCommand;

verus! {

/// What a delete returns: what became of the index or an error of its own, or a failure of the
/// plugin.
pub type DeleteReply = Result<Result<DeleteDocumentResponse, DeleteDocumentError>, Failure>;

/// What a [`DeleteReply`] says.
pub type DeleteReplyView = Result<Result<DeleteDocumentResponse, DeleteDocumentError>, FailureView>;

/// What a delete waits for.
#[derive(Clone, Copy, Debug, PartialEq, Eq, Structural)]
pub enum DeleteStage {
    /// That its transaction is opened.
    Begin,
    /// That the scope is locked and its revision read.
    Lock,
    /// That its transaction, which changed nothing, is ended.
    CommitEmpty,
    /// That the document is taken out.
    Remove { revision: i64 },
    /// That the revision is raised.
    Advance,
    /// That its transaction is ended.
    Commit { changed: bool, index_revision: i64 },
}

/// A delete under way.
#[derive(Debug, PartialEq, Eq)]
pub struct DeleteSession {
    document: DocumentRef,
    stage: DeleteStage,
}

/// What a delete under way takes out, and what it waits for.
pub struct DeleteView {
    pub document: DocumentId,
    pub stage: DeleteStage,
}

impl View for DeleteSession {
    type V = DeleteView;

    closed spec fn view(&self) -> DeleteView {
        DeleteView { document: self.document@, stage: self.stage }
    }
}

/// What a reply says.
pub open spec fn delete_reply(reply: DeleteReply) -> DeleteReplyView {
    match reply {
        Ok(answered) => Ok(answered),
        Err(failed) => Err(failed@),
    }
}

/// Where a delete stands.
pub open spec fn delete_step(step: Step<DeleteSession, DeleteReply>) -> Step<
    DeleteView,
    DeleteReplyView,
> {
    match step {
        Step::Continue(session) => Step::Continue(session@),
        Step::Finished(reply) => Step::Finished(delete_reply(reply)),
    }
}

/// The document that a request is about.
pub open spec fn document_of(request: DeleteDocumentRequest) -> DocumentId {
    DocumentId {
        scope: Scope { scope_kind: request.scope_kind@, scope_id: request.scope_id@ },
        source_kind: request.source_kind@,
        source_id: request.source_id@,
    }
}

/// How a delete starts. A caller that is not trusted is refused, whatever it names; then a
/// document that cannot exist; and no delete starts before the plugin is prepared.
pub open spec fn delete_started(
    config: SearchConfigView,
    context: CallerContext,
    prepared: bool,
    request: DeleteDocumentRequest,
) -> Step<DeleteView, DeleteReplyView> {
    if !contract::is_allowed(context, config.indexer_callers) {
        Step::Finished(Ok(Err(DeleteDocumentError::Forbidden)))
    } else if !rules::is_document_reference(
        request.scope_kind@,
        request.scope_id@,
        request.source_kind@,
        request.source_id@,
    ) {
        Step::Finished(Ok(Err(DeleteDocumentError::InvalidDocument)))
    } else if !prepared {
        Step::Finished(Err(failure::unprepared()))
    } else {
        Step::Continue(DeleteView { document: document_of(request), stage: DeleteStage::Begin })
    }
}

impl DeleteView {
    /// The same delete, waiting for something else.
    pub open spec fn at(self, stage: DeleteStage) -> DeleteView {
        DeleteView { stage, ..self }
    }

    /// What the delete asks of the database next.
    pub open spec fn command(self) -> Command {
        match self.stage {
            DeleteStage::Begin => Command::BeginDelete,
            DeleteStage::Lock => Command::LockScope { scope: self.document.scope },
            DeleteStage::CommitEmpty => Command::CommitEmptyDelete,
            DeleteStage::Remove { .. } => Command::DeleteDocument { document: self.document },
            DeleteStage::Advance => Command::AdvanceRevision { scope: self.document.scope },
            DeleteStage::Commit { .. } => Command::CommitDelete,
        }
    }

    /// How the delete goes on. The revision is raised where a document was taken out, and only
    /// there. An answer that its command cannot have counts as a failure.
    pub open spec fn after(self, answer: Answer) -> Step<DeleteView, DeleteReplyView> {
        match (self.stage, answer) {
            (DeleteStage::Begin, Answer::Done) => Step::Continue(self.at(DeleteStage::Lock)),
            (DeleteStage::Lock, Answer::Revision(None)) => Step::Continue(
                self.at(DeleteStage::CommitEmpty),
            ),
            (DeleteStage::Lock, Answer::Revision(Some(revision))) => Step::Continue(
                self.at(DeleteStage::Remove { revision }),
            ),
            (DeleteStage::CommitEmpty, Answer::Done) => Step::Finished(
                Ok(Ok(DeleteDocumentResponse { changed: false, index_revision: 0 })),
            ),
            (DeleteStage::Remove { revision }, Answer::Affected(count)) => Step::Continue(
                if count == 1 {
                    self.at(DeleteStage::Advance)
                } else {
                    self.at(DeleteStage::Commit { changed: false, index_revision: revision })
                },
            ),
            (DeleteStage::Advance, Answer::CurrentRevision(index_revision)) => Step::Continue(
                self.at(DeleteStage::Commit { changed: true, index_revision }),
            ),
            (DeleteStage::Commit { changed, index_revision }, Answer::Done) => Step::Finished(
                Ok(Ok(DeleteDocumentResponse { changed, index_revision })),
            ),
            _ => Step::Finished(Err(failure::database_failed(self.command().operation()))),
        }
    }
}

/// Starts a delete, or refuses it before the database is asked anything.
pub fn delete_document<P>(
    config: &SearchConfig,
    context: &CallerContext,
    state: &SearchState<P>,
    request: DeleteDocumentRequest,
) -> (step: Step<DeleteSession, DeleteReply>)
    ensures
        delete_step(step) == delete_started(config@, *context, state@ is Some, request),
{
    if !contract::caller_allowed(context, config.indexer_callers()) {
        return Step::Finished(Ok(Err(DeleteDocumentError::Forbidden)));
    }
    if !rules::valid_document_reference(
        request.scope_kind.as_str(),
        request.scope_id.as_str(),
        request.source_kind.as_str(),
        request.source_id.as_str(),
    ) {
        return Step::Finished(Ok(Err(DeleteDocumentError::InvalidDocument)));
    }
    match state.prepared() {
        Err(failed) => Step::Finished(Err(failed)),
        Ok(_) => Step::Continue(
            DeleteSession {
                document: DocumentRef {
                    scope: ScopeRef { scope_kind: request.scope_kind, scope_id: request.scope_id },
                    source_kind: request.source_kind,
                    source_id: request.source_id,
                },
                stage: DeleteStage::Begin,
            },
        ),
    }
}

impl DeleteSession {
    /// What the delete asks of the database next.
    pub fn command(&self) -> (command: StoreCommand)
        ensures
            command@ == self@.command(),
    {
        match self.stage {
            DeleteStage::Begin => StoreCommand::BeginDelete,
            DeleteStage::Lock => StoreCommand::LockScope { scope: self.document.scope.clone() },
            DeleteStage::CommitEmpty => StoreCommand::CommitEmptyDelete,
            DeleteStage::Remove { .. } => StoreCommand::DeleteDocument {
                document: self.document.clone(),
            },
            DeleteStage::Advance => StoreCommand::AdvanceRevision {
                scope: self.document.scope.clone(),
            },
            DeleteStage::Commit { .. } => StoreCommand::CommitDelete,
        }
    }

    /// Goes on with the delete, once its command was answered.
    pub fn advance(self, answer: StoreAnswer) -> (step: Step<DeleteSession, DeleteReply>)
        ensures
            delete_step(step) == self@.after(answer@),
    {
        let next = match (self.stage, answer) {
            (DeleteStage::Begin, StoreAnswer::Done) => DeleteStage::Lock,
            (DeleteStage::Lock, StoreAnswer::Revision(None)) => DeleteStage::CommitEmpty,
            (DeleteStage::Lock, StoreAnswer::Revision(Some(revision))) => DeleteStage::Remove {
                revision,
            },
            (DeleteStage::CommitEmpty, StoreAnswer::Done) => {
                return Step::Finished(
                    Ok(Ok(DeleteDocumentResponse { changed: false, index_revision: 0 })),
                );
            },
            (DeleteStage::Remove { revision }, StoreAnswer::Affected(count)) => if count == 1 {
                DeleteStage::Advance
            } else {
                DeleteStage::Commit { changed: false, index_revision: revision }
            },
            (DeleteStage::Advance, StoreAnswer::CurrentRevision(index_revision)) => {
                DeleteStage::Commit { changed: true, index_revision }
            },
            (DeleteStage::Commit { changed, index_revision }, StoreAnswer::Done) => {
                return Step::Finished(Ok(Ok(DeleteDocumentResponse { changed, index_revision })));
            },
            _ => {
                let operation = self.command().operation();
                return Step::Finished(Err(failure::database_failure(operation)));
            },
        };
        Step::Continue(DeleteSession { document: self.document, stage: next })
    }
}

/// When a delete starts, and what is answered where it does not: a caller that is not among the
/// indexer callers is refused first; then a document that is not referred to as one; and then a
/// plugin that is not prepared fails.
pub proof fn deletes_start_where_nothing_is_wrong(
    config: SearchConfigView,
    context: CallerContext,
    prepared: bool,
    request: DeleteDocumentRequest,
)
    ensures
        ({
            let started = delete_started(config, context, prepared, request);
            let allowed = context.caller_instance is Some && exists|i: int|
                0 <= i < config.indexer_callers.len() && #[trigger] config.indexer_callers[i]
                    == context.caller_instance->0@;
            let valid = {
                &&& rules::is_dimension(request.scope_kind@)
                &&& rules::is_name(request.scope_id@)
                &&& rules::is_dimension(request.source_kind@)
                &&& rules::is_name(request.source_id@)
            };
            &&& !allowed ==> (started matches Step::Finished(
                Ok(Err(DeleteDocumentError::Forbidden)),
            ))
            &&& allowed && !valid ==> (started matches Step::Finished(
                Ok(Err(DeleteDocumentError::InvalidDocument)),
            ))
            &&& allowed && valid && !prepared ==> (started matches Step::Finished(
                Err(FailureView::PluginFailure { detail }),
            ) && detail == "Search Plugin is not prepared"@)
            &&& allowed && valid && prepared ==> started is Continue
        }),
{
    assert(contract::is_allowed(context, config.indexer_callers) <==> context.caller_instance
        is Some && exists|i: int|
        0 <= i < config.indexer_callers.len() && #[trigger] config.indexer_callers[i]
            == context.caller_instance->0@);
}

/// What a delete that started asks of the database, one after the other, and what it makes of the
/// answers: in a scope that is not there it changes nothing at revision zero; elsewhere it deletes
/// the document that the request names, and raises the revision exactly where one row was deleted;
/// it returns the revision that was raised, or else the one that was locked; and any answer but the
/// one that is waited for fails it, with the operation that failed.
pub proof fn deletes_ask_step_by_step(
    config: SearchConfigView,
    context: CallerContext,
    request: DeleteDocumentRequest,
    revision: i64,
    raised: i64,
    count: u64,
    other: Answer,
)
    requires
        delete_started(config, context, true, request) is Continue,
    ensures
        ({
            let scope = Scope { scope_kind: request.scope_kind@, scope_id: request.scope_id@ };
            let document = DocumentId {
                scope,
                source_kind: request.source_kind@,
                source_id: request.source_id@,
            };
            let begun = delete_started(config, context, true, request)->Continue_0;
            &&& begun.command() is BeginDelete
            &&& begun.after(Answer::Done) matches Step::Continue(locking)
            &&& locking.command() == (Command::LockScope { scope })
            &&& locking.after(Answer::Revision(None)) matches Step::Continue(missing)
            &&& missing.command() is CommitEmptyDelete
            &&& missing.after(Answer::Done) matches Step::Finished(Ok(Ok(unchanged)))
            &&& !unchanged.changed
            &&& unchanged.index_revision == 0
            &&& locking.after(Answer::Revision(Some(revision))) matches Step::Continue(removing)
            &&& removing.command() == (Command::DeleteDocument { document })
            &&& removing.after(Answer::Affected(count)) matches Step::Continue(removed)
            &&& count != 1 ==> {
                &&& removed.command() is CommitDelete
                &&& removed.after(Answer::Done) matches Step::Finished(Ok(Ok(response)))
                &&& !response.changed
                &&& response.index_revision == revision
                &&& other !is Done ==> (removed.after(other) matches Step::Finished(Err(FailureView::PluginFailure { detail }))
                && detail == "PostgreSQL operation `"@ + "commit search delete"@ + "` failed"@)
            }
            &&& count == 1 ==> {
                &&& removed.command() == (Command::AdvanceRevision { scope })
                &&& removed.after(Answer::CurrentRevision(raised)) matches Step::Continue(ending)
                &&& ending.command() is CommitDelete
                &&& ending.after(Answer::Done) matches Step::Finished(Ok(Ok(response)))
                &&& response.changed
                &&& response.index_revision == raised
                &&& other !is CurrentRevision ==> (removed.after(other) matches Step::Finished(Err(FailureView::PluginFailure { detail }))
                && detail == "PostgreSQL operation `"@ + "advance search revision"@ + "` failed"@)
                &&& other !is Done ==> (ending.after(other) matches Step::Finished(Err(FailureView::PluginFailure { detail }))
                && detail == "PostgreSQL operation `"@ + "commit search delete"@ + "` failed"@)
            }
            &&& other !is Done ==> (begun.after(other) matches Step::Finished(Err(FailureView::PluginFailure { detail }))
                && detail == "PostgreSQL operation `"@ + "begin search delete"@ + "` failed"@)
            &&& other !is Revision ==> (locking.after(other) matches Step::Finished(Err(FailureView::PluginFailure { detail }))
                && detail == "PostgreSQL operation `"@ + "lock search scope"@ + "` failed"@)
            &&& other !is Done ==> (missing.after(other) matches Step::Finished(Err(FailureView::PluginFailure { detail }))
                && detail == "PostgreSQL operation `"@ + "commit empty search delete"@ + "` failed"@)
            &&& other !is Affected ==> (removing.after(other) matches Step::Finished(Err(FailureView::PluginFailure { detail }))
                && detail == "PostgreSQL operation `"@ + "delete indexed document"@ + "` failed"@)
        }),
{
}

/// A reply, and where a delete stands, are seen as what they are.
pub proof fn delete_replies_are_seen_whole(step: Step<DeleteSession, DeleteReply>)
    ensures
        match step {
            Step::Continue(session) => delete_step(step) == Step::<
                DeleteView,
                DeleteReplyView,
            >::Continue(session@),
            Step::Finished(Ok(answered)) => delete_step(step) matches Step::Finished(Ok(said))
                && said == answered,
            Step::Finished(Err(failed)) => delete_step(step) matches Step::Finished(Err(said))
                && said == failed@,
        },
{
}

} // verus!
