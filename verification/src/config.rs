//! Effective configuration: four named settings, each falling back to a fixed
//! default when the environment leaves it unset. Reading the environment is
//! the caller's business; this module only decides the effective values.

use vstd::prelude::*;

verus! {

/// The settings the service starts with.
pub struct Config {
    pub mongo_uri: String,
    pub db_name: String,
    pub collection_name: String,
    pub port: String,
}

pub open spec fn default_mongo_uri() -> Seq<char> {
    "mongodb://localhost:27017"@
}

pub open spec fn default_db_name() -> Seq<char> {
    "keploydb"@
}

pub open spec fn default_collection_name() -> Seq<char> {
    "notes"@
}

pub open spec fn default_port() -> Seq<char> {
    "8000"@
}

/// What a setting resolves to: the given value when one was set, the default
/// otherwise.
pub open spec fn resolved(given: Option<String>, default: Seq<char>) -> Seq<char> {
    match given {
        Some(v) => v@,
        None => default,
    }
}

/// Resolves the four settings, taking each given value as it is and filling
/// the absent ones with the fixed defaults.
pub fn effective_config(
    mongo_uri: Option<String>,
    db_name: Option<String>,
    collection_name: Option<String>,
    port: Option<String>,
) -> (c: Config)
    ensures
        c.mongo_uri@ == resolved(mongo_uri, default_mongo_uri()),
        c.db_name@ == resolved(db_name, default_db_name()),
        c.collection_name@ == resolved(collection_name, default_collection_name()),
        c.port@ == resolved(port, default_port()),
{
    let mongo_uri = match mongo_uri {
        Some(v) => v,
        None => String::from_str("mongodb://localhost:27017"),
    };
    let db_name = match db_name {
        Some(v) => v,
        None => String::from_str("keploydb"),
    };
    let collection_name = match collection_name {
        Some(v) => v,
        None => String::from_str("notes"),
    };
    let port = match port {
        Some(v) => v,
        None => String::from_str("8000"),
    };
    Config { mongo_uri, db_name, collection_name, port }
}

} // verus!
