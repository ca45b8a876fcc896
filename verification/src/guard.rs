//! The guard of the live configuration: a write is accepted only from a
//! writer that has seen the configuration it replaces.

use vstd::prelude::*;
use vstd::string::*;
use crate::config::{Configuration, RecordApiConfig, references, same_content, unreferencing};
use crate::digest::content_hash;
use crate::metadata::{TableMetadataCache, lemma_without_name, lookup, without_name};

verus! {

/// Why a configuration was not accepted.
#[derive(Clone, Debug)]
pub enum ConfigError {
    /// The live configuration is no longer the one the writer had read.
    Stale,
    /// The configuration breaks a rule; the text says which.
    Invalid(String),
}

/// Whether `api` exposes a table or view that `schema` does not know.
pub open spec fn dangling(api: RecordApiConfig, schema: TableMetadataCache) -> bool {
    match api.table_name {
        Some(table) => !schema.knows(table@),
        None => false,
    }
}

/// Whether every record API of `config` that exposes a table or view exposes
/// one that `schema` knows.
pub open spec fn valid(config: Configuration, schema: TableMetadataCache) -> bool {
    forall|i: int|
        0 <= i < config.record_apis@.len() ==> !dangling(#[trigger] config.record_apis@[i], schema)
}

/// Whether `i` is the first record API of `config` that dangles.
pub open spec fn is_first_dangling(
    config: Configuration,
    schema: TableMetadataCache,
    i: int,
) -> bool {
    &&& 0 <= i < config.record_apis@.len()
    &&& dangling(config.record_apis@[i], schema)
    &&& forall|j: int| 0 <= j < i ==> !dangling(#[trigger] config.record_apis@[j], schema)
}

/// What is said of a record API that dangles.
pub open spec fn dangling_reason(api: RecordApiConfig) -> Seq<char> {
    "Missing table or view for API: "@ + api.name@
}

/// Checks `config` against `schema`: fine when `config` is valid, and else
/// the reason that names the first record API that dangles.
pub fn validate(config: &Configuration, schema: &TableMetadataCache) -> (r: Result<
    (),
    ConfigError,
>)
    ensures
        r is Ok <==> valid(*config, *schema),
        r is Err ==> exists|i: int|
            {
                &&& is_first_dangling(*config, *schema, i)
                &&& r matches Err(ConfigError::Invalid(reason))
                &&& reason@ == dangling_reason(config.record_apis@[i])
            },
{
    let mut i: usize = 0;
    while i < config.record_apis.len()
        invariant
            0 <= i <= config.record_apis@.len(),
            forall|j: int| 0 <= j < i ==> !dangling(#[trigger] config.record_apis@[j], *schema),
        decreases config.record_apis@.len() - i,
    {
        let api = &config.record_apis[i];
        let known = match &api.table_name {
            Some(table) => schema.get(table.as_str()).is_some() || schema.get_view(
                table.as_str(),
            ).is_some(),
            None => true,
        };
        if !known {
            let mut reason = String::from_str("Missing table or view for API: ");
            reason.append(api.name.as_str());
            assert(is_first_dangling(*config, *schema, i as int));
            return Err(ConfigError::Invalid(reason));
        }
        i += 1;
    }
    Ok(())
}

/// The live configuration with its content hash.
pub struct ConfigVersionGuard {
    config: Configuration,
    hash: u64,
    written: bool,
}

impl ConfigVersionGuard {
    #[verifier::type_invariant]
    spec fn hash_is_current(&self) -> bool {
        self.hash == content_hash(self.config)
    }

    /// The live configuration.
    pub closed spec fn config(&self) -> Configuration {
        self.config
    }

    /// Whether a configuration was ever accepted.
    pub closed spec fn written(&self) -> bool {
        self.written
    }

    /// The content hash of the live configuration.
    pub open spec fn hash(&self) -> u64 {
        content_hash(self.config())
    }

    /// Whether a write that presents `expected` is up to date: the hash
    /// it presents is the live one, or it presents none and nothing was
    /// written yet.
    pub open spec fn accepts(&self, expected: Option<u64>) -> bool {
        match expected {
            Some(h) => h == self.hash(),
            None => !self.written(),
        }
    }

    /// How a call of `compare_and_update` on `before`, with `config` and
    /// `expected` under `schema`, leaves the guard as `after` and answers
    /// `r`.
    pub open spec fn updates(
        before: Self,
        config: Configuration,
        expected: Option<u64>,
        schema: TableMetadataCache,
        after: Self,
        r: Result<(), ConfigError>,
    ) -> bool {
        if !before.accepts(expected) {
            &&& r matches Err(ConfigError::Stale)
            &&& after.config() == before.config()
            &&& after.written() == before.written()
        } else if !valid(config, schema) {
            &&& after.config() == before.config()
            &&& after.written() == before.written()
            &&& exists|i: int|
                {
                    &&& is_first_dangling(config, schema, i)
                    &&& r matches Err(ConfigError::Invalid(reason))
                    &&& reason@ == dangling_reason(config.record_apis@[i])
                }
        } else {
            &&& r is Ok
            &&& after.config() == config
            &&& after.written()
        }
    }

    /// A guard over the configuration of a fresh installation, to which
    /// nothing was written yet.
    pub fn new() -> (r: Self)
        ensures
            !r.written(),
            r.config().server.application_name is None,
            r.config().server.site_url is None,
            r.config().email.names_nothing(),
            r.config().record_apis@ == Seq::<RecordApiConfig>::empty(),
    {
        let config = Configuration::empty();
        let hash = config.hash();
        ConfigVersionGuard { config, hash, written: false }
    }

    /// A copy of the live configuration, and its content hash.
    pub fn read(&self) -> (r: (Configuration, u64))
        ensures
            same_content(r.0, self.config()),
            r.1 == self.hash(),
    {
        proof {
            use_type_invariant(self);
        }
        (self.config.duplicate(), self.hash)
    }

    /// Replaces the live configuration by `config` if the write is up to
    /// date and `config` is valid under `schema`. A write that is not up to
    /// date is refused as stale, whatever it holds; one that is up to date
    /// but invalid is refused with the reason. A refused write changes
    /// nothing.
    pub fn compare_and_update(
        &mut self,
        config: Configuration,
        expected: Option<u64>,
        schema: &TableMetadataCache,
    ) -> (r: Result<(), ConfigError>)
        ensures
            Self::updates(*old(self), config, expected, *schema, *final(self), r),
    {
        proof {
            use_type_invariant(&*self);
        }
        let up_to_date = match expected {
            Some(h) => h == self.hash,
            None => !self.written,
        };
        if !up_to_date {
            return Err(ConfigError::Stale);
        }
        match validate(&config, schema) {
            Err(e) => Err(e),
            Ok(()) => {
                let hash = config.hash();
                *self = ConfigVersionGuard { config, hash, written: true };
                Ok(())
            },
        }
    }
}

/// A configuration that is accepted is valid under the schema it was
/// checked against, it is the live one from then on, and the hash of the
/// guard is its content hash.
pub proof fn lemma_accepted_configuration_is_valid(
    before: ConfigVersionGuard,
    config: Configuration,
    expected: Option<u64>,
    schema: TableMetadataCache,
    after: ConfigVersionGuard,
)
    requires
        ConfigVersionGuard::updates(before, config, expected, schema, after, Ok(())),
    ensures
        before.accepts(expected),
        valid(config, schema),
        valid(after.config(), schema),
        after.hash() == content_hash(config),
        after.accepts(Some(content_hash(config))),
{
}

/// A write that presents the hash of a configuration which a successful
/// write has since replaced by one with another hash is refused as stale,
/// and leaves the configuration as that write made it.
pub proof fn lemma_stale_write_rejected(
    read: ConfigVersionGuard,
    first: Configuration,
    first_schema: TableMetadataCache,
    moved: ConfigVersionGuard,
    first_answer: Result<(), ConfigError>,
    second: Configuration,
    second_schema: TableMetadataCache,
    last: ConfigVersionGuard,
    second_answer: Result<(), ConfigError>,
)
    requires
        ConfigVersionGuard::updates(
            read,
            first,
            Some(read.hash()),
            first_schema,
            moved,
            first_answer,
        ),
        first_answer is Ok,
        moved.hash() != read.hash(),
        ConfigVersionGuard::updates(
            moved,
            second,
            Some(read.hash()),
            second_schema,
            last,
            second_answer,
        ),
    ensures
        second_answer matches Err(ConfigError::Stale),
        last.config() == moved.config(),
        last.hash() == moved.hash(),
        last.written() == moved.written(),
{
}

/// Stripping the references to `name` removes exactly the record APIs that
/// expose `name`: none that is left exposes it, every one that did not expose
/// it is left, and nothing is left that was not there.
pub proof fn lemma_strip_removes_exactly(apis: Seq<RecordApiConfig>, name: Seq<char>)
    ensures
        forall|k: int|
            0 <= k < unreferencing(apis, name).len() ==> {
                &&& !references(#[trigger] unreferencing(apis, name)[k], name)
                &&& apis.contains(unreferencing(apis, name)[k])
            },
        forall|i: int|
            0 <= i < apis.len() && !references(#[trigger] apis[i], name) ==> unreferencing(
                apis,
                name,
            ).contains(apis[i]),
    decreases apis.len(),
{
    if apis.len() > 0 {
        let front = apis.drop_last();
        let kept = unreferencing(apis, name);
        lemma_strip_removes_exactly(front, name);
        assert forall|k: int| 0 <= k < kept.len() implies {
            &&& !references(#[trigger] kept[k], name)
            &&& apis.contains(kept[k])
        } by {
            if k < unreferencing(front, name).len() {
                let item = unreferencing(front, name)[k];
                assert(front.contains(item));
                let at = choose|at: int| 0 <= at < front.len() && front[at] == item;
                assert(apis[at] == item);
            } else {
                assert(kept[k] == apis.last());
                assert(apis[apis.len() - 1] == kept[k]);
            }
        }
        assert forall|i: int| 0 <= i < apis.len() && !references(#[trigger] apis[i], name) implies kept.contains(
            apis[i],
        ) by {
            if i < front.len() {
                assert(front[i] == apis[i]);
                assert(unreferencing(front, name).contains(apis[i]));
                let at = choose|at: int|
                    0 <= at < unreferencing(front, name).len() && unreferencing(front, name)[at]
                        == apis[i];
                assert(kept[at] == apis[i]);
            } else {
                assert(kept[kept.len() - 1] == apis[i]);
            }
        }
    }
}

/// A configuration that was valid stays valid when the references to `name`
/// are stripped from it and `name` leaves the schema: `later` may know any
/// name that `schema` knew but `name`.
pub proof fn lemma_stripped_is_valid_after_drop(
    config: Configuration,
    stripped: Configuration,
    name: Seq<char>,
    schema: TableMetadataCache,
    later: TableMetadataCache,
)
    requires
        valid(config, schema),
        stripped.record_apis@ == unreferencing(config.record_apis@, name),
        forall|other: Seq<char>| other != name && schema.knows(other) ==> later.knows(other),
    ensures
        valid(stripped, schema),
        valid(stripped, later),
{
    lemma_strip_removes_exactly(config.record_apis@, name);
    assert forall|k: int| 0 <= k < stripped.record_apis@.len() implies !dangling(
        #[trigger] stripped.record_apis@[k],
        schema,
    ) && !dangling(stripped.record_apis@[k], later) by {
        let api = stripped.record_apis@[k];
        assert(config.record_apis@.contains(api));
        let at = choose|at: int| 0 <= at < config.record_apis@.len() && config.record_apis@[at] == api;
        assert(!dangling(config.record_apis@[at], schema));
        assert(!references(api, name));
    }
}

/// A configuration that was valid under a cache stays valid, once the
/// references to `name` are stripped from it, under the cache that has
/// forgotten `name`.
pub proof fn lemma_stripped_is_valid_after_invalidate(
    config: Configuration,
    stripped: Configuration,
    name: Seq<char>,
    cache: TableMetadataCache,
    later: TableMetadataCache,
)
    requires
        valid(config, cache),
        stripped.record_apis@ == unreferencing(config.record_apis@, name),
        later.tables() == without_name(cache.tables(), name),
        later.views() == without_name(cache.views(), name),
    ensures
        valid(stripped, later),
{
    lemma_without_name(cache.tables(), name);
    lemma_without_name(cache.views(), name);
    assert forall|other: Seq<char>| other != name && cache.knows(other) implies later.knows(
        other,
    ) by {
        assert(lookup(later.tables(), other) == lookup(cache.tables(), other));
        assert(lookup(later.views(), other) == lookup(cache.views(), other));
    }
    lemma_stripped_is_valid_after_drop(config, stripped, name, cache, later);
}

} // verus!
