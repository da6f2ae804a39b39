//! The configuration of the search plugin.
use vstd::prelude::*;
use vstd::string::*;
use crate::failure::Failure;
use crate::failure::FailureView;
use crate::rules;
use crate::schema;
use crate::text;

verus! {

/// Where the index lives, and which plugin instances may ask it and fill it.
#[derive(Clone, Debug, PartialEq, Eq)]
pub struct SearchConfig {
    schema: String,
    database_url_secret: String,
    query_callers: Vec<String>,
    indexer_callers: Vec<String>,
}

/// What a [`SearchConfig`] says.
pub struct SearchConfigView {
    pub schema: Seq<char>,
    pub database_url_secret: Seq<char>,
    pub query_callers: Seq<Seq<char>>,
    pub indexer_callers: Seq<Seq<char>>,
}

/// What is wrong with a configuration.
#[derive(Clone, Copy, Debug, PartialEq, Eq, Structural)]
pub enum SearchConfigError {
    InvalidSchema,
    InvalidSecretReference,
    InvalidQueryCallers,
    InvalidIndexerCallers,
}

impl View for SearchConfig {
    type V = SearchConfigView;

    closed spec fn view(&self) -> SearchConfigView {
        SearchConfigView {
            schema: self.schema@,
            database_url_secret: self.database_url_secret@,
            query_callers: text::texts(self.query_callers@),
            indexer_callers: text::texts(self.indexer_callers@),
        }
    }
}

/// At least one caller, and each of them a name.
pub open spec fn trusted_callers(callers: Seq<Seq<char>>) -> bool {
    &&& callers.len() > 0
    &&& forall|i: int| 0 <= i < callers.len() ==> rules::is_name(#[trigger] callers[i])
}

impl SearchConfigView {
    /// A configuration that the plugin can run with.
    pub open spec fn usable(self) -> bool {
        &&& schema::is_schema_name(self.schema)
        &&& rules::is_secret_reference(self.database_url_secret)
        &&& trusted_callers(self.query_callers)
        &&& trusted_callers(self.indexer_callers)
    }

    /// The first thing that is wrong, in the order of the fields.
    pub open spec fn first_error(self) -> SearchConfigError
        recommends
            !self.usable(),
    {
        if !schema::is_schema_name(self.schema) {
            SearchConfigError::InvalidSchema
        } else if !rules::is_secret_reference(self.database_url_secret) {
            SearchConfigError::InvalidSecretReference
        } else if !trusted_callers(self.query_callers) {
            SearchConfigError::InvalidQueryCallers
        } else {
            SearchConfigError::InvalidIndexerCallers
        }
    }
}

impl SearchConfigError {
    /// How the error reads.
    pub open spec fn reads(self) -> Seq<char> {
        match self {
            SearchConfigError::InvalidSchema => "invalid owned PostgreSQL schema"@,
            SearchConfigError::InvalidSecretReference => "invalid database URL secret reference"@,
            SearchConfigError::InvalidQueryCallers => "at least one valid query caller is required"@,
            SearchConfigError::InvalidIndexerCallers => "at least one valid indexer caller is required"@,
        }
    }

    /// The error as a sentence.
    pub fn message(&self) -> (message: String)
        ensures
            message@ == self.reads(),
    {
        match self {
            SearchConfigError::InvalidSchema => "invalid owned PostgreSQL schema".to_owned(),
            SearchConfigError::InvalidSecretReference => {
                "invalid database URL secret reference".to_owned()
            },
            SearchConfigError::InvalidQueryCallers => {
                "at least one valid query caller is required".to_owned()
            },
            SearchConfigError::InvalidIndexerCallers => {
                "at least one valid indexer caller is required".to_owned()
            },
        }
    }
}

impl SearchConfig {
    /// A configuration, if it is usable.
    pub fn new(
        schema: &str,
        database_url_secret: &str,
        query_callers: Vec<String>,
        indexer_callers: Vec<String>,
    ) -> (result: Result<SearchConfig, SearchConfigError>)
        ensures
            ({
                let said = SearchConfigView {
                    schema: schema@,
                    database_url_secret: database_url_secret@,
                    query_callers: text::texts(query_callers@),
                    indexer_callers: text::texts(indexer_callers@),
                };
                match result {
                    Ok(config) => said.usable() && config@ == said,
                    Err(error) => !said.usable() && error == said.first_error(),
                }
            }),
    {
        let value = SearchConfig::resolved(
            schema.to_owned(),
            database_url_secret.to_owned(),
            query_callers,
            indexer_callers,
        );
        match value.validate() {
            Ok(()) => Ok(value),
            Err(error) => Err(error),
        }
    }

    /// A configuration as the app resolved it, whether or not it is usable.
    pub fn resolved(
        schema: String,
        database_url_secret: String,
        query_callers: Vec<String>,
        indexer_callers: Vec<String>,
    ) -> (config: SearchConfig)
        ensures
            config@ == (SearchConfigView {
                schema: schema@,
                database_url_secret: database_url_secret@,
                query_callers: text::texts(query_callers@),
                indexer_callers: text::texts(indexer_callers@),
            }),
    {
        SearchConfig { schema, database_url_secret, query_callers, indexer_callers }
    }

    /// Checks that the configuration is usable.
    pub fn validate(&self) -> (result: Result<(), SearchConfigError>)
        ensures
            match result {
                Ok(()) => self@.usable(),
                Err(error) => !self@.usable() && error == self@.first_error(),
            },
    {
        if schema::schema_plan(self.schema.as_str()).is_err() {
            return Err(SearchConfigError::InvalidSchema);
        }
        if !rules::valid_secret_reference(self.database_url_secret.as_str()) {
            return Err(SearchConfigError::InvalidSecretReference);
        }
        if !valid_callers(&self.query_callers) {
            return Err(SearchConfigError::InvalidQueryCallers);
        }
        if !valid_callers(&self.indexer_callers) {
            return Err(SearchConfigError::InvalidIndexerCallers);
        }
        Ok(())
    }

    /// The schema that the index owns.
    pub fn schema(&self) -> (schema: &String)
        ensures
            schema@ == self@.schema,
    {
        &self.schema
    }

    /// The secret that holds the database URL.
    pub fn database_url_secret(&self) -> (reference: &String)
        ensures
            reference@ == self@.database_url_secret,
    {
        &self.database_url_secret
    }

    /// The plugin instances that may search.
    pub fn query_callers(&self) -> (callers: &Vec<String>)
        ensures
            text::texts(callers@) == self@.query_callers,
    {
        &self.query_callers
    }

    /// The plugin instances that may fill the index.
    pub fn indexer_callers(&self) -> (callers: &Vec<String>)
        ensures
            text::texts(callers@) == self@.indexer_callers,
    {
        &self.indexer_callers
    }
}

/// Whether there is a caller and every caller is a name.
fn valid_callers(callers: &Vec<String>) -> (result: bool)
    ensures
        result == trusted_callers(text::texts(callers@)),
{
    let ghost said = text::texts(callers@);
    let mut i: usize = 0;
    while i < callers.len()
        invariant
            said == text::texts(callers@),
            i <= callers.len(),
            forall|j: int| 0 <= j < i ==> rules::is_name(#[trigger] said[j]),
        decreases callers.len() - i,
    {
        assert(said[i as int] == callers@[i as int]@);
        if !rules::valid_name(callers[i].as_str()) {
            return false;
        }
        i += 1;
    }
    callers.len() != 0
}

/// Checks a configuration that the app resolved; the failure says what is wrong with it.
pub fn validate_config(config: &SearchConfig) -> (result: Result<(), Failure>)
    ensures
        match result {
            Ok(()) => config@.usable(),
            Err(failure) => {
                &&& !config@.usable()
                &&& failure@ == (FailureView::InvalidResolvedPlan {
                    detail: config@.first_error().reads(),
                })
            },
        },
{
    match config.validate() {
        Ok(()) => Ok(()),
        Err(error) => Err(Failure::InvalidResolvedPlan { detail: error.message() }),
    }
}

/// A configuration is usable where its schema name and its secret reference are good, and each of
/// its two lists of callers holds at least one caller and names only. Otherwise the error tells the
/// first of the four that is not so, whatever follows it.
pub proof fn configurations_fail_on_their_first_fault(config: SearchConfigView)
    ensures
        ({
            let schema = schema::is_schema_name(config.schema);
            let secret = rules::is_secret_reference(config.database_url_secret);
            let query = config.query_callers.len() >= 1 && forall|i: int|
                0 <= i < config.query_callers.len() ==> rules::is_name(
                    #[trigger] config.query_callers[i],
                );
            let indexer = config.indexer_callers.len() >= 1 && forall|i: int|
                0 <= i < config.indexer_callers.len() ==> rules::is_name(
                    #[trigger] config.indexer_callers[i],
                );
            &&& config.usable() <==> schema && secret && query && indexer
            &&& !schema ==> config.first_error() == SearchConfigError::InvalidSchema
            &&& schema && !secret ==> config.first_error()
                == SearchConfigError::InvalidSecretReference
            &&& schema && secret && !query ==> config.first_error()
                == SearchConfigError::InvalidQueryCallers
            &&& schema && secret && query && !indexer ==> config.first_error()
                == SearchConfigError::InvalidIndexerCallers
        }),
        SearchConfigError::InvalidSchema.reads() == "invalid owned PostgreSQL schema"@,
        SearchConfigError::InvalidSecretReference.reads()
            == "invalid database URL secret reference"@,
        SearchConfigError::InvalidQueryCallers.reads()
            == "at least one valid query caller is required"@,
        SearchConfigError::InvalidIndexerCallers.reads()
            == "at least one valid indexer caller is required"@,
{
}

} // verus!
