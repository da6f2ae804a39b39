//! Indexing a document: who may do it, which documents are accepted, and the steps it takes.
use vstd::prelude::*;
use vstd::string::*;
use vstd::utf8::*;
use crate::config::SearchConfig;
use crate::config::SearchConfigView;
use crate::contract::CallerContext;
use crate::contract::UpsertDocumentError;
use crate::contract::UpsertDocumentRequest;
use crate::contract::UpsertDocumentResponse;
use crate::contract;
use crate::failure::Failure;
use crate::failure::FailureView;
use crate::failure;
use crate::lifecycle::SearchState;
use crate::rules;
use crate::store::Answer;
use crate::store::Command;
use crate::store::DocumentId;
use crate::store::DocumentRef;
use crate::store::Scope;
use crate::store::ScopeRef;
use crate::store::Step;
use crate::store::StoreAnswer;
use crate::store::StoreCommand;
use crate::text;

verus! {

/// The longest text that is indexed of a document, in bytes and without the white space around it.
pub const MAX_SEARCH_TEXT_BYTES: usize = 64 * 1024;

/// What an upsert returns: what became of the index or an error of its own, or a failure of the
/// plugin.
pub type UpsertReply = Result<Result<UpsertDocumentResponse, UpsertDocumentError>, Failure>;

/// What an [`UpsertReply`] says.
pub type UpsertReplyView = Result<Result<UpsertDocumentResponse, UpsertDocumentError>, FailureView>;

/// What an upsert waits for.
#[derive(Clone, Copy, Debug, PartialEq, Eq, Structural)]
pub enum UpsertStage {
    /// That its transaction is opened.
    Begin,
    /// That the scope is there.
    Ensure,
    /// That the scope is locked and its revision read.
    Lock,
    /// That what is indexed of the document is read.
    Read { revision: i64 },
    /// That the document is indexed.
    Write,
    /// That the revision is raised.
    Advance,
    /// That its transaction is ended.
    Commit { changed: bool, index_revision: i64 },
}

/// An upsert under way.
#[derive(Debug, PartialEq, Eq)]
pub struct UpsertSession {
    document: DocumentRef,
    search_text: String,
    stage: UpsertStage,
}

/// What an upsert under way indexes, and what it waits for.
pub struct UpsertView {
    pub document: DocumentId,
    pub search_text: Seq<char>,
    pub stage: UpsertStage,
}

impl View for UpsertSession {
    type V = UpsertView;

    closed spec fn view(&self) -> UpsertView {
        UpsertView {
            document: self.document@,
            search_text: self.search_text@,
            stage: self.stage,
        }
    }
}

/// What a reply says.
pub open spec fn upsert_reply(reply: UpsertReply) -> UpsertReplyView {
    match reply {
        Ok(answered) => Ok(answered),
        Err(failed) => Err(failed@),
    }
}

/// Where an upsert stands.
pub open spec fn upsert_step(step: Step<UpsertSession, UpsertReply>) -> Step<
    UpsertView,
    UpsertReplyView,
> {
    match step {
        Step::Continue(session) => Step::Continue(session@),
        Step::Finished(reply) => Step::Finished(upsert_reply(reply)),
    }
}

/// A text that can be indexed: some text, not too long, without the character NUL, which
/// PostgreSQL cannot store.
pub open spec fn is_search_text(search_text: Seq<char>) -> bool {
    &&& search_text.len() > 0
    &&& text::byte_len(search_text) <= MAX_SEARCH_TEXT_BYTES
    &&& !search_text.contains('\0')
}

/// A document that can be indexed.
pub open spec fn is_document(request: UpsertDocumentRequest) -> bool {
    &&& rules::is_document_reference(
        request.scope_kind@,
        request.scope_id@,
        request.source_kind@,
        request.source_id@,
    )
    &&& is_search_text(text::trimmed(request.search_text@))
}

/// The document that a request is about.
pub open spec fn document_of(request: UpsertDocumentRequest) -> DocumentId {
    DocumentId {
        scope: Scope { scope_kind: request.scope_kind@, scope_id: request.scope_id@ },
        source_kind: request.source_kind@,
        source_id: request.source_id@,
    }
}

/// How an upsert starts. A caller that is not trusted is refused, whatever it sends; then a
/// document that is not valid; and no upsert starts before the plugin is prepared.
pub open spec fn upsert_started(
    config: SearchConfigView,
    context: CallerContext,
    prepared: bool,
    request: UpsertDocumentRequest,
) -> Step<UpsertView, UpsertReplyView> {
    if !contract::is_allowed(context, config.indexer_callers) {
        Step::Finished(Ok(Err(UpsertDocumentError::Forbidden)))
    } else if !is_document(request) {
        Step::Finished(Ok(Err(UpsertDocumentError::InvalidDocument)))
    } else if !prepared {
        Step::Finished(Err(failure::unprepared()))
    } else {
        Step::Continue(
            UpsertView {
                document: document_of(request),
                search_text: text::trimmed(request.search_text@),
                stage: UpsertStage::Begin,
            },
        )
    }
}

impl UpsertView {
    /// The same upsert, waiting for something else.
    pub open spec fn at(self, stage: UpsertStage) -> UpsertView {
        UpsertView { stage, ..self }
    }

    /// What the upsert asks of the database next.
    pub open spec fn command(self) -> Command {
        match self.stage {
            UpsertStage::Begin => Command::BeginUpsert,
            UpsertStage::Ensure => Command::EnsureScope { scope: self.document.scope },
            UpsertStage::Lock => Command::LockRevision { scope: self.document.scope },
            UpsertStage::Read { .. } => Command::ReadDocument { document: self.document },
            UpsertStage::Write => Command::WriteDocument {
                document: self.document,
                search_text: self.search_text,
            },
            UpsertStage::Advance => Command::AdvanceRevision { scope: self.document.scope },
            UpsertStage::Commit { .. } => Command::CommitUpsert,
        }
    }

    /// How the upsert goes on. Only a text that differs from the indexed one is written, and only
    /// then is the revision raised. An answer that its command cannot have counts as a failure.
    pub open spec fn after(self, answer: Answer) -> Step<UpsertView, UpsertReplyView> {
        match (self.stage, answer) {
            (UpsertStage::Begin, Answer::Done) => Step::Continue(self.at(UpsertStage::Ensure)),
            (UpsertStage::Ensure, Answer::Done) => Step::Continue(self.at(UpsertStage::Lock)),
            (UpsertStage::Lock, Answer::CurrentRevision(revision)) => Step::Continue(
                self.at(UpsertStage::Read { revision }),
            ),
            (UpsertStage::Read { revision }, Answer::Text(existing)) => Step::Continue(
                if existing == Some(self.search_text) {
                    self.at(UpsertStage::Commit { changed: false, index_revision: revision })
                } else {
                    self.at(UpsertStage::Write)
                },
            ),
            (UpsertStage::Write, Answer::Done) => Step::Continue(self.at(UpsertStage::Advance)),
            (UpsertStage::Advance, Answer::CurrentRevision(index_revision)) => Step::Continue(
                self.at(UpsertStage::Commit { changed: true, index_revision }),
            ),
            (UpsertStage::Commit { changed, index_revision }, Answer::Done) => Step::Finished(
                Ok(Ok(UpsertDocumentResponse { changed, index_revision })),
            ),
            _ => Step::Finished(Err(failure::database_failed(self.command().operation()))),
        }
    }
}

/// Whether `search_text`, which is trimmed already, can be indexed.
fn valid_search_text(search_text: &str) -> (result: bool)
    ensures
        result == is_search_text(search_text@),
{
    let bytes: usize = text::byte_length(search_text);
    let chars = text::chars_of(search_text);
    let mut i: usize = 0;
    while i < chars.len()
        invariant
            chars@ == search_text@,
            i <= chars.len(),
            forall|j: int| 0 <= j < i ==> #[trigger] search_text@[j] != '\0',
        decreases chars.len() - i,
    {
        if chars[i] == '\0' {
            assert(search_text@[i as int] == '\0');
            return false;
        }
        i += 1;
    }
    chars.len() != 0 && bytes <= MAX_SEARCH_TEXT_BYTES
}

/// Starts an upsert, or refuses it before the database is asked anything.
pub fn upsert_document<P>(
    config: &SearchConfig,
    context: &CallerContext,
    state: &SearchState<P>,
    request: UpsertDocumentRequest,
) -> (step: Step<UpsertSession, UpsertReply>)
    ensures
        upsert_step(step) == upsert_started(config@, *context, state@ is Some, request),
{
    if !contract::caller_allowed(context, config.indexer_callers()) {
        return Step::Finished(Ok(Err(UpsertDocumentError::Forbidden)));
    }
    let search_text = text::trim(request.search_text.as_str()).to_owned();
    if !rules::valid_document_reference(
        request.scope_kind.as_str(),
        request.scope_id.as_str(),
        request.source_kind.as_str(),
        request.source_id.as_str(),
    ) || !valid_search_text(search_text.as_str()) {
        return Step::Finished(Ok(Err(UpsertDocumentError::InvalidDocument)));
    }
    match state.prepared() {
        Err(failed) => Step::Finished(Err(failed)),
        Ok(_) => Step::Continue(
            UpsertSession {
                document: DocumentRef {
                    scope: ScopeRef { scope_kind: request.scope_kind, scope_id: request.scope_id },
                    source_kind: request.source_kind,
                    source_id: request.source_id,
                },
                search_text,
                stage: UpsertStage::Begin,
            },
        ),
    }
}

impl UpsertSession {
    /// What the upsert asks of the database next.
    pub fn command(&self) -> (command: StoreCommand)
        ensures
            command@ == self@.command(),
    {
        match self.stage {
            UpsertStage::Begin => StoreCommand::BeginUpsert,
            UpsertStage::Ensure => StoreCommand::EnsureScope { scope: self.document.scope.clone() },
            UpsertStage::Lock => StoreCommand::LockRevision { scope: self.document.scope.clone() },
            UpsertStage::Read { .. } => StoreCommand::ReadDocument {
                document: self.document.clone(),
            },
            UpsertStage::Write => StoreCommand::WriteDocument {
                document: self.document.clone(),
                search_text: self.search_text.clone(),
            },
            UpsertStage::Advance => StoreCommand::AdvanceRevision {
                scope: self.document.scope.clone(),
            },
            UpsertStage::Commit { .. } => StoreCommand::CommitUpsert,
        }
    }

    /// Goes on with the upsert, once its command was answered.
    pub fn advance(self, answer: StoreAnswer) -> (step: Step<UpsertSession, UpsertReply>)
        ensures
            upsert_step(step) == self@.after(answer@),
    {
        let next = match (self.stage, answer) {
            (UpsertStage::Begin, StoreAnswer::Done) => UpsertStage::Ensure,
            (UpsertStage::Ensure, StoreAnswer::Done) => UpsertStage::Lock,
            (UpsertStage::Lock, StoreAnswer::CurrentRevision(revision)) => UpsertStage::Read {
                revision,
            },
            (UpsertStage::Read { revision }, StoreAnswer::Text(existing)) => {
                let changed = match existing {
                    Some(existing) => existing != self.search_text,
                    None => true,
                };
                if changed {
                    UpsertStage::Write
                } else {
                    UpsertStage::Commit { changed: false, index_revision: revision }
                }
            },
            (UpsertStage::Write, StoreAnswer::Done) => UpsertStage::Advance,
            (UpsertStage::Advance, StoreAnswer::CurrentRevision(index_revision)) => {
                UpsertStage::Commit { changed: true, index_revision }
            },
            (UpsertStage::Commit { changed, index_revision }, StoreAnswer::Done) => {
                return Step::Finished(Ok(Ok(UpsertDocumentResponse { changed, index_revision })));
            },
            _ => {
                let operation = self.command().operation();
                return Step::Finished(Err(failure::database_failure(operation)));
            },
        };
        Step::Continue(
            UpsertSession { document: self.document, search_text: self.search_text, stage: next },
        )
    }
}

/// When an upsert starts, and what is answered where it does not: a caller that is not among the
/// indexer callers is refused first; then a document that is not referred to as one, or whose text,
/// without the white space around it, is empty, longer than 65536 bytes or holds the character of
/// number zero, and no other document; and then a plugin that is not prepared fails.
pub proof fn upserts_start_where_nothing_is_wrong(
    config: SearchConfigView,
    context: CallerContext,
    prepared: bool,
    request: UpsertDocumentRequest,
)
    ensures
        ({
            let started = upsert_started(config, context, prepared, request);
            let allowed = context.caller_instance is Some && exists|i: int|
                0 <= i < config.indexer_callers.len() && #[trigger] config.indexer_callers[i]
                    == context.caller_instance->0@;
            let search_text = text::trimmed(request.search_text@);
            let valid = {
                &&& rules::is_dimension(request.scope_kind@)
                &&& rules::is_name(request.scope_id@)
                &&& rules::is_dimension(request.source_kind@)
                &&& rules::is_name(request.source_id@)
                &&& search_text.len() != 0
                &&& encode_utf8(search_text).len() <= 65536
                &&& forall|i: int|
                    0 <= i < search_text.len() ==> (#[trigger] search_text[i]) as int != 0
            };
            &&& !allowed ==> (started matches Step::Finished(
                Ok(Err(UpsertDocumentError::Forbidden)),
            ))
            &&& allowed && !valid ==> (started matches Step::Finished(
                Ok(Err(UpsertDocumentError::InvalidDocument)),
            ))
            &&& allowed && valid && !prepared ==> (started matches Step::Finished(
                Err(FailureView::PluginFailure { detail }),
            ) && detail == "Search Plugin is not prepared"@)
            &&& allowed && valid && prepared ==> started is Continue
        }),
{
    let search_text = text::trimmed(request.search_text@);
    assert(contract::is_allowed(context, config.indexer_callers) <==> context.caller_instance
        is Some && exists|i: int|
        0 <= i < config.indexer_callers.len() && #[trigger] config.indexer_callers[i]
            == context.caller_instance->0@);
    assert('\0' as int == 0);
    if !search_text.contains('\0') {
        assert forall|i: int| 0 <= i < search_text.len() implies (#[trigger] search_text[i]) as int
            != 0 by {
            assert(search_text[i] != '\0');
        }
    }
}

/// What an upsert that started asks of the database, one after the other, and what it makes of the
/// answers: it writes the text, without the white space around it, under the four parts that the
/// request names, exactly where another text or none was indexed, and raises the revision exactly
/// then; it returns the revision that was raised, or else the one that was locked; and any answer
/// but the one that is waited for fails it, with the operation that failed.
pub proof fn upserts_ask_step_by_step(
    config: SearchConfigView,
    context: CallerContext,
    request: UpsertDocumentRequest,
    revision: i64,
    raised: i64,
    indexed: Option<Seq<char>>,
    other: Answer,
)
    requires
        upsert_started(config, context, true, request) is Continue,
    ensures
        ({
            let scope = Scope { scope_kind: request.scope_kind@, scope_id: request.scope_id@ };
            let document = DocumentId {
                scope,
                source_kind: request.source_kind@,
                source_id: request.source_id@,
            };
            let search_text = text::trimmed(request.search_text@);
            let begun = upsert_started(config, context, true, request)->Continue_0;
            &&& begun.command() is BeginUpsert
            &&& begun.after(Answer::Done) matches Step::Continue(ensuring)
            &&& ensuring.command() == (Command::EnsureScope { scope })
            &&& ensuring.after(Answer::Done) matches Step::Continue(locking)
            &&& locking.command() == (Command::LockRevision { scope })
            &&& locking.after(Answer::CurrentRevision(revision)) matches Step::Continue(reading)
            &&& reading.command() == (Command::ReadDocument { document })
            &&& reading.after(Answer::Text(indexed)) matches Step::Continue(read)
            &&& indexed is Some && indexed->0 == search_text ==> {
                &&& read.command() is CommitUpsert
                &&& read.after(Answer::Done) matches Step::Finished(Ok(Ok(response)))
                &&& !response.changed
                &&& response.index_revision == revision
                &&& other !is Done ==> (read.after(other) matches Step::Finished(Err(FailureView::PluginFailure { detail }))
                && detail == "PostgreSQL operation `"@ + "commit search upsert"@ + "` failed"@)
            }
            &&& indexed is None || indexed->0 != search_text ==> {
                &&& read.command() == (Command::WriteDocument { document, search_text })
                &&& read.after(Answer::Done) matches Step::Continue(raising)
                &&& raising.command() == (Command::AdvanceRevision { scope })
                &&& raising.after(Answer::CurrentRevision(raised)) matches Step::Continue(ending)
                &&& ending.command() is CommitUpsert
                &&& ending.after(Answer::Done) matches Step::Finished(Ok(Ok(response)))
                &&& response.changed
                &&& response.index_revision == raised
                &&& other !is Done ==> (read.after(other) matches Step::Finished(Err(FailureView::PluginFailure { detail }))
                && detail == "PostgreSQL operation `"@ + "upsert indexed document"@ + "` failed"@)
                &&& other !is CurrentRevision ==> (raising.after(other) matches Step::Finished(Err(FailureView::PluginFailure { detail }))
                && detail == "PostgreSQL operation `"@ + "advance search revision"@ + "` failed"@)
                &&& other !is Done ==> (ending.after(other) matches Step::Finished(Err(FailureView::PluginFailure { detail }))
                && detail == "PostgreSQL operation `"@ + "commit search upsert"@ + "` failed"@)
            }
            &&& other !is Done ==> (begun.after(other) matches Step::Finished(Err(FailureView::PluginFailure { detail }))
                && detail == "PostgreSQL operation `"@ + "begin search upsert"@ + "` failed"@)
            &&& other !is Done ==> (ensuring.after(other) matches Step::Finished(Err(FailureView::PluginFailure { detail }))
                && detail == "PostgreSQL operation `"@ + "ensure search scope"@ + "` failed"@)
            &&& other !is CurrentRevision ==> (locking.after(other) matches Step::Finished(Err(FailureView::PluginFailure { detail }))
                && detail == "PostgreSQL operation `"@ + "lock search scope"@ + "` failed"@)
            &&& other !is Text ==> (reading.after(other) matches Step::Finished(Err(FailureView::PluginFailure { detail }))
                && detail == "PostgreSQL operation `"@ + "read indexed document"@ + "` failed"@)
        }),
{
}

/// A reply, and where an upsert stands, are seen as what they are.
pub proof fn upsert_replies_are_seen_whole(step: Step<UpsertSession, UpsertReply>)
    ensures
        match step {
            Step::Continue(session) => upsert_step(step) == Step::<
                UpsertView,
                UpsertReplyView,
            >::Continue(session@),
            Step::Finished(Ok(answered)) => upsert_step(step) matches Step::Finished(Ok(said))
                && said == answered,
            Step::Finished(Err(failed)) => upsert_step(step) matches Step::Finished(Err(said))
                && said == failed@,
        },
{
}

} // verus!
