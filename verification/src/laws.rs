//! The laws of the index: what holds of whole operations, whatever the requests are.
use vstd::prelude::*;
use crate::config::SearchConfigView;
use crate::contract::CallerContext;
use crate::contract::DeleteDocumentError;
use crate::contract::DeleteDocumentRequest;
use crate::contract::DeleteDocumentResponse;
use crate::contract::Reference;
use crate::contract::SearchError;
use crate::contract::SearchRequest;
use crate::contract::UpsertDocumentError;
use crate::contract::UpsertDocumentRequest;
use crate::contract::UpsertDocumentResponse;
use crate::contract;
use crate::delete::DeleteReplyView;
use crate::delete;
use crate::model::Find;
use crate::model::FullText;
use crate::model::IndexModel;
use crate::model;
use crate::query::SearchReplyView;
use crate::query;
use crate::rules;
use crate::store::Command;
use crate::store::DocumentId;
use crate::store::Row;
use crate::store::Scope;
use crate::store;
use crate::text;
use crate::upsert::UpsertReplyView;
use crate::upsert;

verus! {

/// Whether indexing `search_text` as `document` changes anything.
pub open spec fn upsert_changes(
    index: IndexModel,
    document: DocumentId,
    search_text: Seq<char>,
) -> bool {
    model::lookup(index.documents, document) != Some(search_text)
}

/// The revision that a scope has after an upsert.
pub open spec fn upserted_revision(
    index: IndexModel,
    document: DocumentId,
    search_text: Seq<char>,
) -> int {
    index.revision(document.scope) + if upsert_changes(index, document, search_text) {
        1int
    } else {
        0int
    }
}

/// The index with `search_text` indexed as `document`.
pub open spec fn upserted(
    index: IndexModel,
    document: DocumentId,
    search_text: Seq<char>,
) -> IndexModel {
    IndexModel {
        revisions: index.revisions.insert(
            document.scope,
            upserted_revision(index, document, search_text) as i64,
        ),
        documents: index.documents.insert(document, search_text),
    }
}

/// The reply to an upsert that was done.
pub open spec fn upsert_answer(changed: bool, index_revision: i64) -> UpsertReplyView {
    Ok(Ok(UpsertDocumentResponse { changed, index_revision }))
}

/// The reply to a delete that was done.
pub open spec fn delete_answer(changed: bool, index_revision: i64) -> DeleteReplyView {
    Ok(Ok(DeleteDocumentResponse { changed, index_revision }))
}

/// Whether taking `document` out changes anything.
pub open spec fn delete_changes(index: IndexModel, document: DocumentId) -> bool {
    index.revisions.contains_key(document.scope) && index.documents.contains_key(document)
}

/// The revision that a scope has after a delete.
pub open spec fn deleted_revision(index: IndexModel, document: DocumentId) -> int {
    index.revision(document.scope) + if delete_changes(index, document) {
        1int
    } else {
        0int
    }
}

/// The index without `document`.
pub open spec fn deleted(index: IndexModel, document: DocumentId) -> IndexModel {
    if delete_changes(index, document) {
        IndexModel {
            revisions: index.revisions.insert(
                document.scope,
                deleted_revision(index, document) as i64,
            ),
            documents: index.documents.remove(document),
        }
    } else {
        index
    }
}

/// An upsert that is let in and that the database does not refuse indexes the text without the
/// white space around it. It says whether that changed the index, and raises the revision of the
/// scope by one exactly where it did.
pub proof fn upsert_indexes_the_document(
    config: SearchConfigView,
    context: CallerContext,
    request: UpsertDocumentRequest,
    index: IndexModel,
)
    requires
        contract::is_allowed(context, config.indexer_callers),
        upsert::is_document(request),
        upserted_revision(
            index,
            upsert::document_of(request),
            text::trimmed(request.search_text@),
        ) <= i64::MAX,
    ensures
        ({
            let document = upsert::document_of(request);
            let search_text = text::trimmed(request.search_text@);
            model::upsert_outcome(config, context, true, request, index, model::willing()) == (
                upsert_answer(
                    upsert_changes(index, document, search_text),
                    upserted_revision(index, document, search_text) as i64,
                ),
                upserted(index, document, search_text),
            )
        }),
{
    let document = upsert::document_of(request);
    let search_text = text::trimmed(request.search_text@);
    reveal_with_fuel(model::upsert_run, 8);
    let end = model::upsert_outcome(config, context, true, request, index, model::willing()).1;
    assert(end.revisions =~= upserted(index, document, search_text).revisions);
    assert(end.documents =~= upserted(index, document, search_text).documents);
}

/// Sending the same document again changes nothing: the replay says so, and gives the revision
/// that the first upsert gave.
pub proof fn upsert_is_idempotent(
    config: SearchConfigView,
    context: CallerContext,
    request: UpsertDocumentRequest,
    index: IndexModel,
)
    requires
        contract::is_allowed(context, config.indexer_callers),
        upsert::is_document(request),
        upserted_revision(
            index,
            upsert::document_of(request),
            text::trimmed(request.search_text@),
        ) <= i64::MAX,
    ensures
        ({
            let first = model::upsert_outcome(
                config,
                context,
                true,
                request,
                index,
                model::willing(),
            );
            let replay = model::upsert_outcome(
                config,
                context,
                true,
                request,
                first.1,
                model::willing(),
            );
            &&& first.0 matches Ok(Ok(response))
            &&& replay == (upsert_answer(false, response.index_revision), first.1)
        }),
{
    let document = upsert::document_of(request);
    let search_text = text::trimmed(request.search_text@);
    let after = upserted(index, document, search_text);
    upsert_indexes_the_document(config, context, request, index);
    upsert_indexes_the_document(config, context, request, after);
    assert(upserted(after, document, search_text) =~= after);
}

/// Two texts that differ in the white space around them only are one document to the index.
pub proof fn outer_white_space_is_not_indexed(
    config: SearchConfigView,
    context: CallerContext,
    prepared: bool,
    request: UpsertDocumentRequest,
    other: UpsertDocumentRequest,
    index: IndexModel,
    refused: spec_fn(Command) -> bool,
)
    requires
        upsert::document_of(request) == upsert::document_of(other),
        text::trimmed(request.search_text@) == text::trimmed(other.search_text@),
    ensures
        model::upsert_outcome(config, context, prepared, request, index, refused)
            == model::upsert_outcome(config, context, prepared, other, index, refused),
{
}

/// An upsert is done as a whole or not at all: whatever the database refuses, the upsert is
/// answered as if nothing was refused, or the index stays as it was.
pub proof fn upsert_is_atomic(
    config: SearchConfigView,
    context: CallerContext,
    prepared: bool,
    request: UpsertDocumentRequest,
    index: IndexModel,
    refused: spec_fn(Command) -> bool,
)
    ensures
        ({
            let outcome = model::upsert_outcome(config, context, prepared, request, index, refused);
            ||| outcome == model::upsert_outcome(
                config,
                context,
                prepared,
                request,
                index,
                model::willing(),
            )
            ||| outcome.0 is Err && outcome.1 == index
        }),
{
    reveal_with_fuel(model::upsert_run, 8);
}

/// An upsert that is answered says truly what became of the index.
pub proof fn upsert_replies_truly(
    config: SearchConfigView,
    context: CallerContext,
    prepared: bool,
    request: UpsertDocumentRequest,
    index: IndexModel,
    refused: spec_fn(Command) -> bool,
)
    ensures
        ({
            let (reply, after) = model::upsert_outcome(
                config,
                context,
                prepared,
                request,
                index,
                refused,
            );
            let document = upsert::document_of(request);
            reply matches Ok(Ok(response)) ==> {
                &&& contract::is_allowed(context, config.indexer_callers)
                &&& upsert::is_document(request)
                &&& prepared
                &&& response.changed == (after.documents != index.documents)
                &&& response.index_revision == after.revision(document.scope)
                &&& response.index_revision == index.revision(document.scope) + if response.changed {
                    1int
                } else {
                    0int
                }
            }
        }),
{
    let document = upsert::document_of(request);
    let search_text = text::trimmed(request.search_text@);
    let (reply, after) = model::upsert_outcome(config, context, prepared, request, index, refused);
    reveal_with_fuel(model::upsert_run, 8);
    if reply matches Ok(Ok(_)) {
        if upsert_changes(index, document, search_text) {
            assert(after.documents != index.documents) by {
                assert(model::lookup(after.documents, document) == Some(search_text));
            }
        } else {
            assert(after.documents =~= index.documents);
        }
    }
}

/// A delete that is let in and that the database does not refuse takes the document out. It says
/// whether that changed the index, and raises the revision of the scope by one exactly where it
/// did. A scope that is not there has the revision zero, and is not created.
pub proof fn delete_removes_the_document(
    config: SearchConfigView,
    context: CallerContext,
    request: DeleteDocumentRequest,
    index: IndexModel,
)
    requires
        contract::is_allowed(context, config.indexer_callers),
        rules::is_document_reference(
            request.scope_kind@,
            request.scope_id@,
            request.source_kind@,
            request.source_id@,
        ),
        deleted_revision(index, delete::document_of(request)) <= i64::MAX,
    ensures
        ({
            let document = delete::document_of(request);
            model::delete_outcome(config, context, true, request, index, model::willing()) == (
                delete_answer(
                    delete_changes(index, document),
                    deleted_revision(index, document) as i64,
                ),
                deleted(index, document),
            )
        }),
        index.sound() ==> !deleted(index, delete::document_of(request)).documents.contains_key(
            delete::document_of(request),
        ),
{
    reveal_with_fuel(model::delete_run, 6);
}

/// Deleting the same document again changes nothing.
pub proof fn delete_is_idempotent(
    config: SearchConfigView,
    context: CallerContext,
    request: DeleteDocumentRequest,
    index: IndexModel,
)
    requires
        contract::is_allowed(context, config.indexer_callers),
        rules::is_document_reference(
            request.scope_kind@,
            request.scope_id@,
            request.source_kind@,
            request.source_id@,
        ),
        deleted_revision(index, delete::document_of(request)) <= i64::MAX,
    ensures
        ({
            let first = model::delete_outcome(
                config,
                context,
                true,
                request,
                index,
                model::willing(),
            );
            let replay = model::delete_outcome(
                config,
                context,
                true,
                request,
                first.1,
                model::willing(),
            );
            &&& first.0 matches Ok(Ok(response))
            &&& replay == (delete_answer(false, response.index_revision), first.1)
        }),
{
    let document = delete::document_of(request);
    delete_removes_the_document(config, context, request, index);
    delete_removes_the_document(config, context, request, deleted(index, document));
}

/// A delete is done as a whole or not at all: whatever the database refuses, the delete is
/// answered as if nothing was refused, or the index stays as it was.
pub proof fn delete_is_atomic(
    config: SearchConfigView,
    context: CallerContext,
    prepared: bool,
    request: DeleteDocumentRequest,
    index: IndexModel,
    refused: spec_fn(Command) -> bool,
)
    ensures
        ({
            let outcome = model::delete_outcome(config, context, prepared, request, index, refused);
            ||| outcome == model::delete_outcome(
                config,
                context,
                prepared,
                request,
                index,
                model::willing(),
            )
            ||| outcome.0 is Err && outcome.1 == index
        }),
{
    reveal_with_fuel(model::delete_run, 6);
}

/// A delete that is answered says truly what became of the index.
pub proof fn delete_replies_truly(
    config: SearchConfigView,
    context: CallerContext,
    prepared: bool,
    request: DeleteDocumentRequest,
    index: IndexModel,
    refused: spec_fn(Command) -> bool,
)
    ensures
        ({
            let (reply, after) = model::delete_outcome(
                config,
                context,
                prepared,
                request,
                index,
                refused,
            );
            let document = delete::document_of(request);
            reply matches Ok(Ok(response)) ==> {
                &&& contract::is_allowed(context, config.indexer_callers)
                &&& rules::is_document_reference(
                    request.scope_kind@,
                    request.scope_id@,
                    request.source_kind@,
                    request.source_id@,
                )
                &&& prepared
                &&& response.changed == (after.documents != index.documents)
                &&& response.index_revision == after.revision(document.scope)
                &&& response.index_revision == index.revision(document.scope) + if response.changed {
                    1int
                } else {
                    0int
                }
            }
        }),
{
    let document = delete::document_of(request);
    let (reply, after) = model::delete_outcome(config, context, prepared, request, index, refused);
    reveal_with_fuel(model::delete_run, 6);
    if reply matches Ok(Ok(_)) && delete_changes(index, document) {
        assert(index.documents.contains_key(document) && !after.documents.contains_key(document));
    }
}

/// An upsert touches one scope and one document, whatever comes of it.
pub proof fn upsert_touches_nothing_else(
    config: SearchConfigView,
    context: CallerContext,
    prepared: bool,
    request: UpsertDocumentRequest,
    index: IndexModel,
    refused: spec_fn(Command) -> bool,
    scope: Scope,
    document: DocumentId,
)
    ensures
        ({
            let after = model::upsert_outcome(
                config,
                context,
                prepared,
                request,
                index,
                refused,
            ).1;
            let own = upsert::document_of(request);
            &&& scope != own.scope ==> model::lookup(after.revisions, scope) == model::lookup(
                index.revisions,
                scope,
            )
            &&& document != own ==> model::lookup(after.documents, document) == model::lookup(
                index.documents,
                document,
            )
        }),
{
    reveal_with_fuel(model::upsert_run, 8);
}

/// A delete touches one scope and one document, whatever comes of it.
pub proof fn delete_touches_nothing_else(
    config: SearchConfigView,
    context: CallerContext,
    prepared: bool,
    request: DeleteDocumentRequest,
    index: IndexModel,
    refused: spec_fn(Command) -> bool,
    scope: Scope,
    document: DocumentId,
)
    ensures
        ({
            let after = model::delete_outcome(
                config,
                context,
                prepared,
                request,
                index,
                refused,
            ).1;
            let own = delete::document_of(request);
            &&& scope != own.scope ==> model::lookup(after.revisions, scope) == model::lookup(
                index.revisions,
                scope,
            )
            &&& document != own ==> model::lookup(after.documents, document) == model::lookup(
                index.documents,
                document,
            )
        }),
{
    reveal_with_fuel(model::delete_run, 6);
}

/// Every operation keeps the index sound, and no revision ever falls.
pub proof fn operations_keep_the_index_sound(
    config: SearchConfigView,
    context: CallerContext,
    prepared: bool,
    upsert: UpsertDocumentRequest,
    delete: DeleteDocumentRequest,
    index: IndexModel,
    refused: spec_fn(Command) -> bool,
    scope: Scope,
)
    requires
        index.sound(),
    ensures
        ({
            let upserted = model::upsert_outcome(
                config,
                context,
                prepared,
                upsert,
                index,
                refused,
            ).1;
            let deleted = model::delete_outcome(
                config,
                context,
                prepared,
                delete,
                index,
                refused,
            ).1;
            &&& upserted.sound()
            &&& deleted.sound()
            &&& upserted.revision(scope) >= index.revision(scope)
            &&& deleted.revision(scope) >= index.revision(scope)
        }),
{
    upsert_keeps_the_index_sound(config, context, prepared, upsert, index, refused, scope);
    delete_keeps_the_index_sound(config, context, prepared, delete, index, refused, scope);
}

proof fn upsert_keeps_the_index_sound(
    config: SearchConfigView,
    context: CallerContext,
    prepared: bool,
    request: UpsertDocumentRequest,
    index: IndexModel,
    refused: spec_fn(Command) -> bool,
    scope: Scope,
)
    requires
        index.sound(),
    ensures
        ({
            let after = model::upsert_outcome(
                config,
                context,
                prepared,
                request,
                index,
                refused,
            ).1;
            after.sound() && after.revision(scope) >= index.revision(scope)
        }),
{
    let document = upsert::document_of(request);
    let search_text = text::trimmed(request.search_text@);
    upsert_is_atomic(config, context, prepared, request, index, refused);
    if upsert::upsert_started(config, context, prepared, request) is Continue {
        if upserted_revision(index, document, search_text) <= i64::MAX {
            upsert_indexes_the_document(config, context, request, index);
        } else {
            reveal_with_fuel(model::upsert_run, 8);
        }
    }
}

proof fn delete_keeps_the_index_sound(
    config: SearchConfigView,
    context: CallerContext,
    prepared: bool,
    request: DeleteDocumentRequest,
    index: IndexModel,
    refused: spec_fn(Command) -> bool,
    scope: Scope,
)
    requires
        index.sound(),
    ensures
        ({
            let after = model::delete_outcome(
                config,
                context,
                prepared,
                request,
                index,
                refused,
            ).1;
            after.sound() && after.revision(scope) >= index.revision(scope)
        }),
{
    let document = delete::document_of(request);
    delete_is_atomic(config, context, prepared, request, index, refused);
    if delete::delete_started(config, context, prepared, request) is Continue {
        if deleted_revision(index, document) <= i64::MAX {
            delete_removes_the_document(config, context, request, index);
        } else {
            reveal_with_fuel(model::delete_run, 6);
        }
    }
}

/// What was indexed and then deleted is gone, and the index has moved on by one revision for
/// each of the two changes.
pub proof fn delete_undoes_an_upsert(
    config: SearchConfigView,
    context: CallerContext,
    upsert: UpsertDocumentRequest,
    delete: DeleteDocumentRequest,
    index: IndexModel,
)
    requires
        contract::is_allowed(context, config.indexer_callers),
        upsert::is_document(upsert),
        upsert::document_of(upsert) == delete::document_of(delete),
        !index.documents.contains_key(upsert::document_of(upsert)),
        index.revision(upsert::document_of(upsert).scope) + 2 <= i64::MAX,
    ensures
        ({
            let document = upsert::document_of(upsert);
            let revision = index.revision(document.scope);
            let first = model::upsert_outcome(
                config,
                context,
                true,
                upsert,
                index,
                model::willing(),
            );
            let second = model::delete_outcome(
                config,
                context,
                true,
                delete,
                first.1,
                model::willing(),
            );
            &&& first.0 == upsert_answer(true, (revision + 1) as i64)
            &&& second.0 == delete_answer(true, (revision + 2) as i64)
            &&& second.1.documents == index.documents
        }),
{
    let document = upsert::document_of(upsert);
    let search_text = text::trimmed(upsert.search_text@);
    upsert_indexes_the_document(config, context, upsert, index);
    delete_removes_the_document(config, context, delete, upserted(index, document, search_text));
    assert(index.documents.insert(document, search_text).remove(document) =~= index.documents);
}

/// A caller that is not trusted with an operation is refused, whatever it asks and whatever the
/// state of the plugin is, and nothing is done.
pub proof fn untrusted_callers_are_refused(
    config: SearchConfigView,
    context: CallerContext,
    prepared: bool,
    search: SearchRequest,
    upsert: UpsertDocumentRequest,
    delete: DeleteDocumentRequest,
    index: IndexModel,
    finder: spec_fn(Find) -> Seq<Row>,
    refused: spec_fn(Command) -> bool,
)
    ensures
        !contract::is_allowed(context, config.query_callers) ==> model::query_outcome(
            config,
            context,
            prepared,
            search,
            index,
            finder,
            refused,
        ) == (forbidden_search(), index),
        !contract::is_allowed(context, config.indexer_callers) ==> model::upsert_outcome(
            config,
            context,
            prepared,
            upsert,
            index,
            refused,
        ) == (forbidden_upsert(), index),
        !contract::is_allowed(context, config.indexer_callers) ==> model::delete_outcome(
            config,
            context,
            prepared,
            delete,
            index,
            refused,
        ) == (forbidden_delete(), index),
{
}

/// The reply to a search by a caller that is not trusted.
pub open spec fn forbidden_search() -> SearchReplyView {
    Ok(Err(SearchError::Forbidden))
}

/// The reply to an upsert by a caller that is not trusted.
pub open spec fn forbidden_upsert() -> UpsertReplyView {
    Ok(Err(UpsertDocumentError::Forbidden))
}

/// The reply to a delete by a caller that is not trusted.
pub open spec fn forbidden_delete() -> DeleteReplyView {
    Ok(Err(DeleteDocumentError::Forbidden))
}

/// A search changes nothing.
pub proof fn search_is_read_only(
    config: SearchConfigView,
    context: CallerContext,
    prepared: bool,
    request: SearchRequest,
    index: IndexModel,
    finder: spec_fn(Find) -> Seq<Row>,
    refused: spec_fn(Command) -> bool,
)
    ensures
        model::query_outcome(config, context, prepared, request, index, finder, refused).1 == index,
{
    reveal_with_fuel(model::query_run, 6);
}

/// A search that is let in and that the database does not refuse returns the references that
/// were found, in their order, with the revision of the scope they were found at. They are no
/// more than was asked for, no two are alike, and each is a document of the scope, of a kind that
/// was asked for, that is in the index.
pub proof fn search_returns_indexed_references(
    config: SearchConfigView,
    context: CallerContext,
    request: SearchRequest,
    index: IndexModel,
    finder: spec_fn(Find) -> Seq<Row>,
)
    requires
        contract::is_allowed(context, config.query_callers),
        query::is_search(request),
        model::findable(index, request, finder(model::asked(request))),
    ensures
        ({
            let found = finder(model::asked(request));
            let scope = Scope { scope_kind: request.scope_kind@, scope_id: request.scope_id@ };
            let reply = model::query_outcome(
                config,
                context,
                true,
                request,
                index,
                finder,
                model::willing(),
            ).0;
            &&& reply matches Ok(Ok(response))
            &&& response.index_revision == index.revision(scope)
            &&& response.references.len() == found.len() <= request.limit <= query::MAX_REFERENCES
            &&& response.references.no_duplicates()
            &&& forall|i: int|
                0 <= i < found.len() ==> {
                    let reference = #[trigger] response.references[i];
                    &&& found[i].source_kind == Some(reference.source_kind)
                    &&& found[i].source_id == Some(reference.source_id)
                    &&& text::texts(request.source_kinds@).contains(reference.source_kind)
                    &&& index.documents.contains_key(
                        DocumentId {
                            scope,
                            source_kind: reference.source_kind,
                            source_id: reference.source_id,
                        },
                    )
                }
        }),
{
    let found = finder(model::asked(request));
    reveal_with_fuel(model::query_run, 6);
    assert forall|i: int| 0 <= i < found.len() implies (#[trigger] found[i]).source_kind is Some
        && found[i].source_id is Some by {}
    query::readable_rows_are_decoded(found);
    let references = query::decoded(found)->Ok_0;
    assert forall|i: int, j: int|
        0 <= i < references.len() && 0 <= j < references.len() && i != j implies references[i]
        != references[j] by {
        assert(found[i] != found[j]);
    }
}

/// A search tells nothing of what is indexed: two indexes in which its scope has the same
/// revision, whatever else they hold, give the same reply where the same references are found.
pub proof fn search_never_tells_indexed_text(
    config: SearchConfigView,
    context: CallerContext,
    prepared: bool,
    request: SearchRequest,
    index: IndexModel,
    other: IndexModel,
    finder: spec_fn(Find) -> Seq<Row>,
    refused: spec_fn(Command) -> bool,
)
    requires
        model::lookup(index.revisions, model::searched_scope(request)) == model::lookup(
            other.revisions,
            model::searched_scope(request),
        ),
    ensures
        model::query_outcome(config, context, prepared, request, index, finder, refused).0
            == model::query_outcome(config, context, prepared, request, other, finder, refused).0,
{
    reveal_with_fuel(model::query_run, 6);
}

/// Whatever the database refuses, a search fails or is answered as if nothing was refused.
pub proof fn search_is_answered_whole_or_fails(
    config: SearchConfigView,
    context: CallerContext,
    prepared: bool,
    request: SearchRequest,
    index: IndexModel,
    finder: spec_fn(Find) -> Seq<Row>,
    refused: spec_fn(Command) -> bool,
)
    ensures
        ({
            let reply = model::query_outcome(
                config,
                context,
                prepared,
                request,
                index,
                finder,
                refused,
            ).0;
            ||| reply is Err
            ||| reply == model::query_outcome(
                config,
                context,
                prepared,
                request,
                index,
                finder,
                model::willing(),
            ).0
        }),
{
    reveal_with_fuel(model::query_run, 6);
}

/// The references come by rank: best first, and at the same rank sorted by kind and id. A document
/// that the search is for is among them, unless there are as many as were asked for and all of
/// them rank before it.
pub proof fn search_returns_references_by_rank(
    config: SearchConfigView,
    context: CallerContext,
    request: SearchRequest,
    index: IndexModel,
    full_text: FullText,
    finder: spec_fn(Find) -> Seq<Row>,
)
    requires
        contract::is_allowed(context, config.query_callers),
        query::is_search(request),
        full_text.finds(index, request, finder(model::asked(request))),
    ensures
        ({
            let scope = model::searched_scope(request);
            let reply = model::query_outcome(
                config,
                context,
                true,
                request,
                index,
                finder,
                model::willing(),
            ).0;
            &&& reply matches Ok(Ok(response))
            &&& forall|i: int|
                0 <= i < response.references.len() ==> full_text.selects(
                    index,
                    request,
                    model::referred(scope, #[trigger] response.references[i]),
                )
            &&& forall|i: int, j: int|
                #![trigger response.references[i], response.references[j]]
                0 <= i < j < response.references.len() ==> full_text.ranks_before(
                    index,
                    request,
                    model::referred(scope, response.references[i]),
                    model::referred(scope, response.references[j]),
                )
            &&& forall|document: DocumentId| #[trigger]
                full_text.selects(index, request, document) ==> {
                    ||| response.references.contains(
                        Reference {
                            source_kind: document.source_kind,
                            source_id: document.source_id,
                        },
                    )
                    ||| response.references.len() == request.limit && forall|i: int|
                        0 <= i < response.references.len() ==> full_text.ranks_before(
                            index,
                            request,
                            model::referred(scope, #[trigger] response.references[i]),
                            document,
                        )
                }
        }),
{
    let found = finder(model::asked(request));
    let scope = model::searched_scope(request);
    search_returns_indexed_references(config, context, request, index, finder);
    let reply = model::query_outcome(
        config,
        context,
        true,
        request,
        index,
        finder,
        model::willing(),
    ).0;
    let references = reply->Ok_0->Ok_0.references;
    assert forall|i: int| 0 <= i < references.len() implies model::referred(
        scope,
        #[trigger] references[i],
    ) == model::document_at(scope, found[i]) by {}
    assert forall|document: DocumentId| #[trigger]
        full_text.selects(index, request, document) && found.contains(
            model::row_of(document),
        ) implies references.contains(
        Reference { source_kind: document.source_kind, source_id: document.source_id },
    ) by {
        let i = choose|i: int| 0 <= i < found.len() && found[i] == model::row_of(document);
        assert(references[i].source_id == document.source_id);
    }
}

/// Of two searches that differ in their limit only, the one with the smaller limit returns the
/// first references of the other, at the same revision.
pub proof fn smaller_limits_return_the_first_references(
    config: SearchConfigView,
    context: CallerContext,
    prepared: bool,
    request: SearchRequest,
    larger: SearchRequest,
    index: IndexModel,
    full_text: FullText,
    finder: spec_fn(Find) -> Seq<Row>,
    larger_finder: spec_fn(Find) -> Seq<Row>,
    refused: spec_fn(Command) -> bool,
    larger_refused: spec_fn(Command) -> bool,
)
    requires
        full_text.ordered(),
        same_but_for_the_limit(request, larger),
        request.limit <= larger.limit,
        full_text.finds(index, request, finder(model::asked(request))),
        full_text.finds(index, larger, larger_finder(model::asked(larger))),
    ensures
        ({
            let reply = model::query_outcome(
                config,
                context,
                prepared,
                request,
                index,
                finder,
                refused,
            ).0;
            let larger_reply = model::query_outcome(
                config,
                context,
                prepared,
                larger,
                index,
                larger_finder,
                larger_refused,
            ).0;
            reply matches Ok(Ok(response)) ==> larger_reply matches Ok(Ok(larger_response)) ==> {
                &&& response.references == larger_response.references.take(
                    least(request.limit as int, larger_response.references.len() as int),
                )
                &&& response.references.len() <= request.limit
                &&& response.index_revision == larger_response.index_revision
            }
        }),
{
    let found = finder(model::asked(request));
    let more_found = larger_finder(model::asked(larger));
    let reply = model::query_outcome(
        config,
        context,
        prepared,
        request,
        index,
        finder,
        refused,
    ).0;
    let larger_reply = model::query_outcome(
        config,
        context,
        prepared,
        larger,
        index,
        larger_finder,
        larger_refused,
    ).0;
    search_is_answered_whole_or_fails(config, context, prepared, request, index, finder, refused);
    search_is_answered_whole_or_fails(
        config,
        context,
        prepared,
        larger,
        index,
        larger_finder,
        larger_refused,
    );
    if reply matches Ok(Ok(_)) && larger_reply matches Ok(Ok(_)) {
        assert(query::search_started(config, context, prepared, request) is Continue);
        assert(query::search_started(config, context, prepared, larger) is Continue);
        search_returns_indexed_references(config, context, request, index, finder);
        search_returns_indexed_references(config, context, larger, index, larger_finder);
        first_rows_are_found(full_text, request, index, found, larger, index, more_found);
        let references = reply->Ok_0->Ok_0.references;
        let more = larger_reply->Ok_0->Ok_0.references;
        assert forall|i: int| 0 <= i < references.len() implies #[trigger] references[i]
            == more[i] by {
            assert(found[i] == more_found[i]);
        }
        assert(references =~= more.take(least(request.limit as int, more.len() as int)));
    }
}

/// What other scopes hold does not show: a search gives the same reply on two indexes that hold
/// the same in its scope.
pub proof fn other_scopes_do_not_show(
    config: SearchConfigView,
    context: CallerContext,
    prepared: bool,
    request: SearchRequest,
    index: IndexModel,
    other: IndexModel,
    full_text: FullText,
    finder: spec_fn(Find) -> Seq<Row>,
    other_finder: spec_fn(Find) -> Seq<Row>,
    refused: spec_fn(Command) -> bool,
)
    requires
        full_text.ordered(),
        model::alike_in(model::searched_scope(request), index, other),
        full_text.finds(index, request, finder(model::asked(request))),
        full_text.finds(other, request, other_finder(model::asked(request))),
    ensures
        model::query_outcome(config, context, prepared, request, index, finder, refused).0
            == model::query_outcome(
            config,
            context,
            prepared,
            request,
            other,
            other_finder,
            refused,
        ).0,
{
    let found = finder(model::asked(request));
    let other_found = other_finder(model::asked(request));
    first_rows_are_found(full_text, request, index, found, request, other, other_found);
    assert(found =~= other_found);
    reveal_with_fuel(model::query_run, 6);
}

/// Whether two requests ask for the same, but for how many references they want.
pub open spec fn same_but_for_the_limit(request: SearchRequest, other: SearchRequest) -> bool {
    &&& request.scope_kind@ == other.scope_kind@
    &&& request.scope_id@ == other.scope_id@
    &&& request.query@ == other.query@
    &&& text::texts(request.source_kinds@) == text::texts(other.source_kinds@)
}

/// The smaller of two numbers.
pub open spec fn least(a: int, b: int) -> int {
    if a <= b {
        a
    } else {
        b
    }
}

/// The rows found for a smaller limit are the first of those found for a larger one, wherever the
/// scope holds the same.
proof fn first_rows_are_found(
    full_text: FullText,
    request: SearchRequest,
    index: IndexModel,
    found: Seq<Row>,
    larger: SearchRequest,
    other: IndexModel,
    more_found: Seq<Row>,
)
    requires
        full_text.ordered(),
        same_but_for_the_limit(request, larger),
        request.limit <= larger.limit,
        model::alike_in(model::searched_scope(request), index, other),
        full_text.finds(index, request, found),
        full_text.finds(other, larger, more_found),
    ensures
        found == more_found.take(least(request.limit as int, more_found.len() as int)),
{
    let scope = model::searched_scope(request);
    let count = found.len() as int;
    equal_rows_are_found(full_text, request, index, found, larger, other, more_found, count);
    if count < more_found.len() && count < request.limit {
        let next = model::document_at(scope, more_found[count]);
        assert(model::row_of(next) == more_found[count]);
        selecting_alike(full_text, request, index, larger, other, next);
        assert(found.contains(more_found[count]));
        let i = choose|i: int| 0 <= i < count && found[i] == more_found[count];
        assert(more_found[i] == more_found[count]);
        assert(false);
    }
    assert(found =~= more_found.take(least(request.limit as int, more_found.len() as int)));
}

proof fn equal_rows_are_found(
    full_text: FullText,
    request: SearchRequest,
    index: IndexModel,
    found: Seq<Row>,
    larger: SearchRequest,
    other: IndexModel,
    more_found: Seq<Row>,
    count: int,
)
    requires
        full_text.ordered(),
        same_but_for_the_limit(request, larger),
        request.limit <= larger.limit,
        model::alike_in(model::searched_scope(request), index, other),
        full_text.finds(index, request, found),
        full_text.finds(other, larger, more_found),
        0 <= count <= found.len(),
    ensures
        count <= more_found.len(),
        forall|i: int| 0 <= i < count ==> #[trigger] found[i] == more_found[i],
    decreases count,
{
    if count > 0 {
        let last = count - 1;
        equal_rows_are_found(full_text, request, index, found, larger, other, more_found, last);
        let scope = model::searched_scope(request);
        let row = found[last];
        let document = model::document_at(scope, row);
        assert(model::row_of(document) == row);
        selecting_alike(full_text, request, index, larger, other, document);
        assert(full_text.selects(other, larger, document));
        if more_found.contains(row) {
            let i = choose|i: int| 0 <= i < more_found.len() && more_found[i] == row;
            if i < last {
                assert(found[i] == found[last]);
            }
            assert(last < more_found.len());
        } else {
            assert(more_found.len() == larger.limit);
        }
        let more_row = more_found[last];
        if more_row != row {
            let more_document = model::document_at(scope, more_row);
            assert(model::row_of(more_document) == more_row);
            selecting_alike(full_text, request, index, larger, other, more_document);
            assert(full_text.ranks_before(other, larger, more_document, document));
            assert(full_text.ranks_before(index, request, document, more_document)) by {
                if found.contains(more_row) {
                    let i = choose|i: int| 0 <= i < found.len() && found[i] == more_row;
                    if i < last {
                        assert(more_found[i] == more_found[last]);
                    }
                    assert(last < i);
                }
            }
            assert(index.documents[document] == other.documents[document]);
            assert(index.documents[more_document] == other.documents[more_document]);
            assert(false);
        }
    }
}

/// Searches that ask for the same are for the same documents wherever the scope holds the same.
proof fn selecting_alike(
    full_text: FullText,
    request: SearchRequest,
    index: IndexModel,
    larger: SearchRequest,
    other: IndexModel,
    document: DocumentId,
)
    requires
        same_but_for_the_limit(request, larger),
        model::alike_in(model::searched_scope(request), index, other),
    ensures
        full_text.selects(index, request, document) == full_text.selects(other, larger, document),
        full_text.selects(index, request, document) ==> index.documents[document]
            == other.documents[document],
{
    if document.scope == model::searched_scope(request) {
        assert(model::lookup(index.documents, document) == model::lookup(
            other.documents,
            document,
        ));
    }
}

/// Once an upsert was answered, a search of its scope and kind whose query matches the indexed
/// text returns the document, unless it returns as many others as were asked for and all of them
/// rank before it.
pub proof fn indexed_documents_are_found(
    config: SearchConfigView,
    indexer: CallerContext,
    searcher: CallerContext,
    upsert: UpsertDocumentRequest,
    search: SearchRequest,
    index: IndexModel,
    full_text: FullText,
    finder: spec_fn(Find) -> Seq<Row>,
    refused: spec_fn(Command) -> bool,
)
    requires
        contract::is_allowed(searcher, config.query_callers),
        query::is_search(search),
        search.scope_kind@ == upsert.scope_kind@,
        search.scope_id@ == upsert.scope_id@,
        text::texts(search.source_kinds@).contains(upsert.source_kind@),
        (full_text.matches)(text::trimmed(upsert.search_text@), text::trimmed(search.query@)),
        ({
            let (reply, after) = model::upsert_outcome(
                config,
                indexer,
                true,
                upsert,
                index,
                refused,
            );
            &&& reply matches Ok(Ok(_))
            &&& full_text.finds(after, search, finder(model::asked(search)))
        }),
    ensures
        ({
            let document = upsert::document_of(upsert);
            let (reply, after) = model::upsert_outcome(
                config,
                indexer,
                true,
                upsert,
                index,
                refused,
            );
            let answer = model::query_outcome(
                config,
                searcher,
                true,
                search,
                after,
                finder,
                model::willing(),
            ).0;
            let reference = Reference {
                source_kind: upsert.source_kind@,
                source_id: upsert.source_id@,
            };
            &&& reply matches Ok(Ok(indexed))
            &&& answer matches Ok(Ok(response))
            &&& response.index_revision == indexed.index_revision
            &&& {
                ||| response.references.contains(reference)
                ||| response.references.len() == search.limit && forall|i: int|
                    0 <= i < response.references.len() ==> full_text.ranks_before(
                        after,
                        search,
                        model::referred(document.scope, #[trigger] response.references[i]),
                        document,
                    )
            }
        }),
{
    let after = model::upsert_outcome(config, indexer, true, upsert, index, refused).1;
    let document = upsert::document_of(upsert);
    let search_text = text::trimmed(upsert.search_text@);
    assert(model::lookup(after.documents, document) == Some(search_text)) by {
        reveal_with_fuel(model::upsert_run, 8);
    }
    upsert_replies_truly(config, indexer, true, upsert, index, refused);
    search_returns_indexed_references(config, searcher, search, after, finder);
    search_returns_references_by_rank(config, searcher, search, after, full_text, finder);
    assert(full_text.selects(after, search, document));
}

/// Once a delete was answered, no search of its scope returns the document, whatever it looks
/// for.
pub proof fn deleted_documents_are_not_found(
    config: SearchConfigView,
    indexer: CallerContext,
    searcher: CallerContext,
    delete: DeleteDocumentRequest,
    search: SearchRequest,
    index: IndexModel,
    finder: spec_fn(Find) -> Seq<Row>,
    delete_refused: spec_fn(Command) -> bool,
    search_refused: spec_fn(Command) -> bool,
)
    requires
        index.sound(),
        search.scope_kind@ == delete.scope_kind@,
        search.scope_id@ == delete.scope_id@,
        ({
            let (reply, after) = model::delete_outcome(
                config,
                indexer,
                true,
                delete,
                index,
                delete_refused,
            );
            &&& reply matches Ok(Ok(_))
            &&& model::findable(after, search, finder(model::asked(search)))
        }),
    ensures
        ({
            let after = model::delete_outcome(
                config,
                indexer,
                true,
                delete,
                index,
                delete_refused,
            ).1;
            let answer = model::query_outcome(
                config,
                searcher,
                true,
                search,
                after,
                finder,
                search_refused,
            ).0;
            answer matches Ok(Ok(response)) ==> !response.references.contains(
                Reference { source_kind: delete.source_kind@, source_id: delete.source_id@ },
            )
        }),
{
    let after = model::delete_outcome(config, indexer, true, delete, index, delete_refused).1;
    let document = delete::document_of(delete);
    delete_is_atomic(config, indexer, true, delete, index, delete_refused);
    assert(deleted_revision(index, document) <= i64::MAX) by {
        reveal_with_fuel(model::delete_run, 6);
    }
    delete_removes_the_document(config, indexer, delete, index);
    search_is_answered_whole_or_fails(config, searcher, true, search, after, finder, search_refused);
    if query::search_started(config, searcher, true, search) is Continue {
        search_returns_indexed_references(config, searcher, search, after, finder);
    }
}

/// The index after `requests` were sent to it one by one, by a caller that may, to a database
/// that refuses nothing.
pub open spec fn filled(
    config: SearchConfigView,
    context: CallerContext,
    requests: Seq<UpsertDocumentRequest>,
    index: IndexModel,
) -> IndexModel
    decreases requests.len(),
{
    if requests.len() == 0 {
        index
    } else {
        model::upsert_outcome(
            config,
            context,
            true,
            requests.last(),
            filled(config, context, requests.drop_last(), index),
            model::willing(),
        ).1
    }
}

/// A lost index can be rebuilt from its sources: an empty index that is sent every document
/// again, in any order and any number of times, holds exactly these documents with their texts.
pub proof fn an_index_is_rebuilt_from_its_sources(
    config: SearchConfigView,
    context: CallerContext,
    requests: Seq<UpsertDocumentRequest>,
    document: DocumentId,
)
    requires
        contract::is_allowed(context, config.indexer_callers),
        requests.len() < i64::MAX,
        forall|i: int| 0 <= i < requests.len() ==> upsert::is_document(#[trigger] requests[i]),
        forall|i: int, j: int|
            #![trigger requests[i], requests[j]]
            0 <= i < requests.len() && 0 <= j < requests.len() && upsert::document_of(requests[i])
                == upsert::document_of(requests[j]) ==> text::trimmed(requests[i].search_text@)
                == text::trimmed(requests[j].search_text@),
    ensures
        ({
            let index = filled(config, context, requests, IndexModel::empty());
            &&& index.documents.contains_key(document) <==> exists|i: int|
                0 <= i < requests.len() && upsert::document_of(#[trigger] requests[i]) == document
            &&& forall|i: int|
                0 <= i < requests.len() && upsert::document_of(#[trigger] requests[i]) == document
                    ==> index.documents[document] == text::trimmed(requests[i].search_text@)
        }),
{
    filling(config, context, requests, document);
}

proof fn filling(
    config: SearchConfigView,
    context: CallerContext,
    requests: Seq<UpsertDocumentRequest>,
    document: DocumentId,
)
    requires
        contract::is_allowed(context, config.indexer_callers),
        requests.len() < i64::MAX,
        forall|i: int| 0 <= i < requests.len() ==> upsert::is_document(#[trigger] requests[i]),
        forall|i: int, j: int|
            #![trigger requests[i], requests[j]]
            0 <= i < requests.len() && 0 <= j < requests.len() && upsert::document_of(requests[i])
                == upsert::document_of(requests[j]) ==> text::trimmed(requests[i].search_text@)
                == text::trimmed(requests[j].search_text@),
    ensures
        ({
            let index = filled(config, context, requests, IndexModel::empty());
            &&& index.documents.contains_key(document) <==> exists|i: int|
                0 <= i < requests.len() && upsert::document_of(#[trigger] requests[i]) == document
            &&& forall|i: int|
                0 <= i < requests.len() && upsert::document_of(#[trigger] requests[i]) == document
                    ==> index.documents[document] == text::trimmed(requests[i].search_text@)
            &&& forall|scope: Scope| #[trigger] index.revision(scope) <= requests.len()
        }),
    decreases requests.len(),
{
    if requests.len() > 0 {
        let before = requests.drop_last();
        let last = requests.last();
        let index = filled(config, context, before, IndexModel::empty());
        let own = upsert::document_of(last);
        let search_text = text::trimmed(last.search_text@);
        assert forall|i: int| 0 <= i < before.len() implies #[trigger] before[i] == requests[i] by {}
        filling(config, context, before, document);
        assert(index.revision(own.scope) <= before.len());
        upsert_indexes_the_document(config, context, last, index);
        let after = upserted(index, own, search_text);
        assert forall|scope: Scope| #[trigger] after.revision(scope) <= requests.len() by {
            assert(index.revision(scope) <= before.len());
        }
        assert(requests[requests.len() - 1] == last);
        if after.documents.contains_key(document) {
            if document != own {
                let i = choose|i: int|
                    0 <= i < before.len() && upsert::document_of(#[trigger] before[i]) == document;
                assert(upsert::document_of(requests[i]) == document);
            }
        }
        assert forall|i: int|
            0 <= i < requests.len() && upsert::document_of(#[trigger] requests[i])
                == document implies after.documents.contains_key(document)
            && after.documents[document] == text::trimmed(requests[i].search_text@) by {
            if document != own {
                assert(before[i] == requests[i]);
            }
        }
    }
}

/// What a command does to the index is what its statement does, run with its values; a command
/// without a statement does nothing to it.
pub proof fn commands_do_what_their_statements_do(
    index: IndexModel,
    command: Command,
    finder: spec_fn(Find) -> Seq<Row>,
)
    ensures
        match command.sql() {
            Some(statement) => index.performed(command, finder).1 == index.ran(
                statement,
                command.bindings(),
            ),
            None => index.performed(command, finder).1 == index,
        },
{
    store::statements_by_length();
    if let Command::DeleteDocument { document } = command {
        assert(index.documents.remove(document) =~= index.performed(command, finder).1.documents);
    }
}

/// A search wants to be found what its request says: its scope, every one of its kinds, its query
/// without the white space around it, and its limit.
pub proof fn searches_want_what_they_ask_for(request: SearchRequest)
    ensures
        ({
            let find = model::asked(request);
            &&& find.scope.scope_kind == request.scope_kind@
            &&& find.scope.scope_id == request.scope_id@
            &&& find.source_kinds.len() == request.source_kinds@.len()
            &&& forall|i: int|
                0 <= i < find.source_kinds.len() ==> #[trigger] find.source_kinds[i]
                    == request.source_kinds@[i]@
            &&& find.query == text::trimmed(request.query@)
            &&& find.limit == request.limit
        }),
{
}

} // verus!
