//! The migration that makes the table of bearer codes.

use vstd::prelude::*;
use crate::error::Error;

verus! {

/// The migration that makes the table of bearer codes in a database.
#[derive(Debug, Clone, PartialEq)]
pub struct Migrationauth0000 {
    /// The name of the database.
    pub database: String,
}

/// The name of the table of bearer codes.
pub open spec fn auth_table() -> Seq<char> {
    "AUTHCode"@
}

/// The query that makes the table.
pub open spec fn create_table_query() -> Seq<char> {
    "CREATE TABLE IF NOT EXISTS AUTHCode (auth_code String, tenant_id String, username String, created_at DateTime64(3), is_active UInt8 DEFAULT 1, usage_count UInt64 DEFAULT 0, created_by String, expires_at Nullable(DateTime64(3))) ENGINE = MergeTree() ORDER BY (tenant_id, auth_code);"@
}

/// The query that adds the index on the codes.
pub open spec fn add_index_query() -> Seq<char> {
    "ALTER TABLE AUTHCode ADD INDEX IdxAuthCode auth_code TYPE bloom_filter(0.01) GRANULARITY 1;"@
}

/// The instructions to undo the migration in the database `database`.
pub open spec fn rollback_text(database: Seq<char>) -> Seq<char> {
    "/* **CAREFUL: THIS WILL DELETE ALL DATA** */ /* Drop the database */ DROP DATABASE IF EXISTS "@
        + database + "; /* **CAREFUL: THIS WILL DELETE ALL DATA** */"@
}

impl Migrationauth0000 {
    /// The name of the table that the migration makes.
    pub fn table(&self) -> (r: &'static str)
        ensures
            r@ == auth_table(),
    {
        "AUTHCode"
    }

    /// The migration can always be applied.
    pub fn can_apply(&self) -> (r: Result<(), Error>)
        ensures
            r is Ok,
    {
        Ok(())
    }

    /// Whether the migration is to be applied, from the check whether the
    /// table exists: it is unless the table is there. A check that failed
    /// most likely means that the database is not there yet, so that the
    /// migration is to be applied too.
    pub fn should_apply(&self, table_exists: Result<bool, Error>) -> (r: bool)
        ensures
            r == !(table_exists matches Ok(true)),
    {
        match table_exists {
            Ok(exists) => !exists,
            Err(_) => true,
        }
    }

    /// The queries of the migration, in the order in which they are run.
    pub fn apply(&self) -> (r: Vec<String>)
        ensures
            r@.len() == 2,
            r@[0]@ == create_table_query(),
            r@[1]@ == add_index_query(),
    {
        let mut queries: Vec<String> = Vec::new();
        queries.push(
            String::from_str(
                "CREATE TABLE IF NOT EXISTS AUTHCode (auth_code String, tenant_id String, username String, created_at DateTime64(3), is_active UInt8 DEFAULT 1, usage_count UInt64 DEFAULT 0, created_by String, expires_at Nullable(DateTime64(3))) ENGINE = MergeTree() ORDER BY (tenant_id, auth_code);",
            ),
        );
        queries.push(
            String::from_str(
                "ALTER TABLE AUTHCode ADD INDEX IdxAuthCode auth_code TYPE bloom_filter(0.01) GRANULARITY 1;",
            ),
        );
        queries
    }

    /// The instructions to undo the migration.
    pub fn rollback_instructions(&self) -> (r: String)
        ensures
            r@ == rollback_text(self.database@),
    {
        let mut s = String::from_str(
            "/* **CAREFUL: THIS WILL DELETE ALL DATA** */ /* Drop the database */ DROP DATABASE IF EXISTS ",
        );
        s.append(self.database.as_str());
        s.append("; /* **CAREFUL: THIS WILL DELETE ALL DATA** */");
        s
    }

    /// Whether the migration has succeeded, so that it is not to be applied
    /// again: the opposite of `should_apply`.
    pub fn has_succeeded(&self, table_exists: Result<bool, Error>) -> (r: bool)
        ensures
            r == (table_exists matches Ok(true)),
    {
        !self.should_apply(table_exists)
    }
}

} // verus!
