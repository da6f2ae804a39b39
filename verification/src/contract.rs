//! The requests, responses and errors of the search and search-index capabilities.
use vstd::prelude::*;
use crate::text;

verus! {

/// A search for references within one scope.
#[derive(Clone, Debug, PartialEq, Eq)]
pub struct SearchRequest {
    pub scope_kind: String,
    pub scope_id: String,
    pub query: String,
    pub source_kinds: Vec<String>,
    pub limit: i64,
}

/// One source that matched: a reference, never what was indexed.
#[derive(Clone, Debug, PartialEq, Eq)]
pub struct SearchResponseReferencesItem {
    pub source_kind: String,
    pub source_id: String,
}

/// The references found, best first, and the revision of the index they were found at.
#[derive(Clone, Debug, PartialEq, Eq)]
pub struct SearchResponse {
    pub references: Vec<SearchResponseReferencesItem>,
    pub index_revision: i64,
}

/// Why a search is refused.
#[derive(Clone, Copy, Debug, PartialEq, Eq, Structural)]
pub enum SearchError {
    InvalidQuery,
    Forbidden,
}

/// A document to index, or to index anew.
#[derive(Clone, Debug, PartialEq, Eq)]
pub struct UpsertDocumentRequest {
    pub scope_kind: String,
    pub scope_id: String,
    pub source_kind: String,
    pub source_id: String,
    pub search_text: String,
}

/// Whether the index changed, and its revision since.
#[derive(Clone, Copy, Debug, PartialEq, Eq, Structural)]
pub struct UpsertDocumentResponse {
    pub changed: bool,
    pub index_revision: i64,
}

/// Why an upsert is refused.
#[derive(Clone, Copy, Debug, PartialEq, Eq, Structural)]
pub enum UpsertDocumentError {
    InvalidDocument,
    Forbidden,
}

/// A document to take out of the index.
#[derive(Clone, Debug, PartialEq, Eq)]
pub struct DeleteDocumentRequest {
    pub scope_kind: String,
    pub scope_id: String,
    pub source_kind: String,
    pub source_id: String,
}

/// Whether the index changed, and its revision since.
#[derive(Clone, Copy, Debug, PartialEq, Eq, Structural)]
pub struct DeleteDocumentResponse {
    pub changed: bool,
    pub index_revision: i64,
}

/// Why a delete is refused.
#[derive(Clone, Copy, Debug, PartialEq, Eq, Structural)]
pub enum DeleteDocumentError {
    InvalidDocument,
    Forbidden,
}

/// Who makes a request: the plugin instance that the app attached to it, if it attached one.
#[derive(Clone, Debug, PartialEq, Eq)]
pub struct CallerContext {
    pub caller_instance: Option<String>,
}

/// What a reference spells.
pub struct Reference {
    pub source_kind: Seq<char>,
    pub source_id: Seq<char>,
}

/// What a [`SearchResponse`] says.
pub struct SearchResponseView {
    pub references: Seq<Reference>,
    pub index_revision: i64,
}

impl View for SearchResponseReferencesItem {
    type V = Reference;

    open spec fn view(&self) -> Reference {
        Reference { source_kind: self.source_kind@, source_id: self.source_id@ }
    }
}

impl View for SearchResponse {
    type V = SearchResponseView;

    open spec fn view(&self) -> SearchResponseView {
        SearchResponseView {
            references: self.references@.map_values(|item: SearchResponseReferencesItem| item@),
            index_revision: self.index_revision,
        }
    }
}

/// Whether the app attached a caller and it is one of `allowed`, letter for letter.
pub open spec fn is_allowed(context: CallerContext, allowed: Seq<Seq<char>>) -> bool {
    context.caller_instance matches Some(caller) && allowed.contains(caller@)
}

/// Whether the caller is one of `allowed`.
pub fn caller_allowed(context: &CallerContext, allowed: &Vec<String>) -> (result: bool)
    ensures
        result == is_allowed(*context, text::texts(allowed@)),
{
    match &context.caller_instance {
        None => false,
        Some(caller) => {
            let mut i: usize = 0;
            while i < allowed.len()
                invariant
                    context.caller_instance == Some(*caller),
                    i <= allowed.len(),
                    forall|j: int| 0 <= j < i ==> #[trigger] text::texts(allowed@)[j] != caller@,
                decreases allowed.len() - i,
            {
                assert(text::texts(allowed@)[i as int] == allowed@[i as int]@);
                if allowed[i] == *caller {
                    return true;
                }
                i += 1;
            }
            false
        },
    }
}

/// A caller is let in where the app attached it and it is spelled as one of those allowed, and
/// nowhere else.
pub proof fn callers_are_matched_exactly(context: CallerContext, allowed: Seq<Seq<char>>)
    ensures
        is_allowed(context, allowed) <==> context.caller_instance is Some && exists|i: int|
            0 <= i < allowed.len() && #[trigger] allowed[i] == context.caller_instance->0@,
{
}

/// A response says every reference it holds, each in its place, and its revision.
pub proof fn responses_are_seen_whole(response: SearchResponse)
    ensures
        response@.index_revision == response.index_revision,
        response@.references.len() == response.references@.len(),
        forall|i: int|
            0 <= i < response.references@.len() ==> {
                let reference = #[trigger] response@.references[i];
                &&& reference.source_kind == response.references@[i].source_kind@
                &&& reference.source_id == response.references@[i].source_id@
            },
{
}

} // verus!
