//! Activation and deactivation of the search plugin.
use vstd::prelude::*;
use vstd::string::*;
use crate::config::SearchConfig;
use crate::failure::Failure;
use crate::failure::FailureView;
use crate::failure::RelayedFailure;
use crate::failure;
use crate::schema;

verus! {

/// How long the plugin waits for the secret that holds its database URL, in seconds.
pub const DEPENDENCY_TIMEOUT_SECONDS: u64 = 10;

/// The prepared storage of the plugin, between activation and deactivation.
pub struct SearchState<P> {
    storage: Option<P>,
}

/// What came of the request for the secret that holds the database URL.
pub enum SecretOutcome<V> {
    /// The secret was handed over.
    Resolved(V),
    /// The secrets plugin refused the reference.
    Rejected,
    /// The request could not be made, or did not come through.
    Failed(lenso_kernel::RuntimeFailure),
}

/// What the storage must be prepared with: the secret that was resolved, and the schema.
#[derive(PartialEq, Eq)]
pub struct StorageToPrepare<V> {
    pub database_url: V,
    pub schema: String,
}

impl<P> View for SearchState<P> {
    type V = Option<P>;

    closed spec fn view(&self) -> Option<P> {
        self.storage
    }
}

impl<P> SearchState<P> {
    /// A plugin that was not activated yet.
    pub fn new() -> (state: SearchState<P>)
        ensures
            state@ is None,
    {
        SearchState { storage: None }
    }

    /// The storage of an activated plugin.
    pub fn prepared(&self) -> (result: Result<&P, Failure>)
        ensures
            match result {
                Ok(storage) => self@ == Some(*storage),
                Err(failed) => self@ is None && failed@ == failure::unprepared(),
            },
    {
        match &self.storage {
            Some(storage) => Ok(storage),
            None => Err(failure::not_prepared()),
        }
    }

    /// Ends the activation: takes over the storage that was prepared, or reports why none was.
    /// What was prepared before stays where nothing replaces it.
    pub fn activate(&mut self, prepared: Result<P, String>) -> (result: Result<(), Failure>)
        ensures
            match prepared {
                Ok(storage) => final(self)@ == Some(storage) && result == Ok::<(), Failure>(()),
                Err(detail) => {
                    &&& final(self)@ == old(self)@
                    &&& result matches Err(failed) && failed@ == (FailureView::PluginFailure {
                        detail: detail@,
                    })
                },
            },
    {
        match prepared {
            Ok(storage) => {
                self.storage = Some(storage);
                Ok(())
            },
            Err(detail) => Err(Failure::PluginFailure { detail }),
        }
    }

    /// Gives the storage up, for the caller to close.
    pub fn deactivate(&mut self) -> (storage: Option<P>)
        ensures
            storage == old(self)@,
            final(self)@ is None,
    {
        self.storage.take()
    }
}

/// The failure of an activation whose secret was refused.
pub open spec fn secret_rejected(reference: Seq<char>) -> FailureView {
    FailureView::PluginFailure { detail: "secret `"@ + reference + "` was rejected"@ }
}

/// What the request for the secret called `reference` means for the activation: a secret that was
/// handed over is handed on as it is.
pub fn resolve_secret<V>(reference: &str, outcome: SecretOutcome<V>) -> (result: Result<
    V,
    RelayedFailure,
>)
    ensures
        match outcome {
            SecretOutcome::Resolved(value) => result == Ok::<V, RelayedFailure>(value),
            SecretOutcome::Rejected => result matches Err(RelayedFailure::Plugin(failed))
                && failed@ == secret_rejected(reference@),
            SecretOutcome::Failed(failed) => result == Err::<V, RelayedFailure>(
                RelayedFailure::Kernel(failed),
            ),
        },
{
    match outcome {
        SecretOutcome::Resolved(value) => Ok(value),
        SecretOutcome::Rejected => {
            let detail = "secret `".to_owned().concat(reference).concat("` was rejected");
            Err(RelayedFailure::Plugin(Failure::PluginFailure { detail }))
        },
        SecretOutcome::Failed(failed) => Err(RelayedFailure::Kernel(failed)),
    }
}

/// Goes on with the activation once the request for the secret was answered: gives what the
/// storage must be prepared with.
pub fn storage_to_prepare<V>(config: &SearchConfig, outcome: SecretOutcome<V>) -> (result: Result<
    StorageToPrepare<V>,
    RelayedFailure,
>)
    ensures
        match outcome {
            SecretOutcome::Resolved(value) => match result {
                Ok(storage) => {
                    &&& schema::is_schema_name(config@.schema)
                    &&& storage.database_url == value
                    &&& storage.schema@ == config@.schema
                },
                Err(RelayedFailure::Plugin(failed)) => {
                    &&& !schema::is_schema_name(config@.schema)
                    &&& failed@ == (FailureView::InvalidResolvedPlan {
                        detail: schema::schema_refused(config@.schema),
                    })
                },
                Err(RelayedFailure::Kernel(_)) => false,
            },
            SecretOutcome::Rejected => result matches Err(RelayedFailure::Plugin(failed))
                && failed@ == secret_rejected(config@.database_url_secret),
            SecretOutcome::Failed(failed) => result == Err::<StorageToPrepare<V>, RelayedFailure>(
                RelayedFailure::Kernel(failed),
            ),
        },
{
    match resolve_secret(config.database_url_secret().as_str(), outcome) {
        Err(failed) => Err(failed),
        Ok(database_url) => match schema::schema_plan(config.schema().as_str()) {
            Err(detail) => Err(RelayedFailure::Plugin(Failure::InvalidResolvedPlan { detail })),
            Ok(()) => Ok(StorageToPrepare { database_url, schema: config.schema().clone() }),
        },
    }
}

/// A refused secret is reported by its reference.
pub proof fn refused_secrets_are_named(reference: Seq<char>)
    ensures
        secret_rejected(reference) == (FailureView::PluginFailure {
            detail: "secret `"@ + reference + "` was rejected"@,
        }),
{
}

} // verus!
