//! Reading data types and property types together with whether each read row
//! is the latest version of its type.
use vstd::prelude::*;
use vstd::string::StringExecFns;
use crate::ontology_types::{AccountId, VersionedUrl};

verus! {

/// A stored record together with the account that created it and whether it
/// is the latest version of its type.
#[derive(Debug)]
pub struct Record<T> {
    pub record: T,
    pub account_id: AccountId,
    pub is_latest: bool,
}

impl<T> Record<T> {
    /// Keeps the account and the latest flag of this record and swaps its
    /// payload for `record`.
    pub fn replace_record<U>(self, record: U) -> (r: Record<U>)
        ensures
            r.record == record,
            r.account_id == self.account_id,
            r.is_latest == self.is_latest,
    {
        Record { record, account_id: self.account_id, is_latest: self.is_latest }
    }
}

/// The statement reading every type of `table`, each row flagged with whether
/// its version is the highest of its base URL, newest first per base URL.
pub open spec fn all_types_with_latest_statement(table: Seq<char>) -> Seq<char> {
    "\n                SELECT schema, created_by, MAX(version) OVER (PARTITION by base_uri) = version as latest\n                FROM "@
        + table
        + " type_table\n                INNER JOIN ids\n                ON type_table.version_id = ids.version_id\n                ORDER BY base_uri, version DESC;\n                "@
}

/// The statement reading one version of a type of `table`, with `$1` the base
/// URL and `$2` the version, together with the highest version of that base URL.
pub open spec fn versioned_type_statement(table: Seq<char>) -> Seq<char> {
    "\n                SELECT schema, created_by, (\n                    SELECT MAX(version) as latest \n                    FROM ids \n                    WHERE base_uri = $1\n                )\n                FROM "@
        + table
        + " type_table\n                INNER JOIN ids\n                ON type_table.version_id = ids.version_id\n                WHERE base_uri = $1 AND version = $2;\n                "@
}

/// Builds the statement reading every type of `table`.
pub fn read_all_types_query(table: &str) -> (s: String)
    ensures
        s@ == all_types_with_latest_statement(table@),
{
    let mut s = String::from_str(
        "\n                SELECT schema, created_by, MAX(version) OVER (PARTITION by base_uri) = version as latest\n                FROM ",
    );
    s.append(table);
    s.append(
        " type_table\n                INNER JOIN ids\n                ON type_table.version_id = ids.version_id\n                ORDER BY base_uri, version DESC;\n                ",
    );
    s
}

/// Builds the statement reading one version of a type of `table`.
pub fn read_versioned_type_query(table: &str) -> (s: String)
    ensures
        s@ == versioned_type_statement(table@),
{
    let mut s = String::from_str(
        "\n                SELECT schema, created_by, (\n                    SELECT MAX(version) as latest \n                    FROM ids \n                    WHERE base_uri = $1\n                )\n                FROM ",
    );
    s.append(table);
    s.append(
        " type_table\n                INNER JOIN ids\n                ON type_table.version_id = ids.version_id\n                WHERE base_uri = $1 AND version = $2;\n                ",
    );
    s
}

/// The two parameters of the versioned-type statement for `uri`: its base URL
/// text and its version widened to the database's 64-bit integer.
pub fn versioned_type_parameters(uri: &VersionedUrl) -> (p: (&str, i64))
    ensures
        p.0@ == uri@.base_url,
        p.1 == uri@.version as i64,
{
    (uri.base_url().as_str(), uri.version() as i64)
}

/// Whether the highest stored version `latest` (as read from the database)
/// names `version`; the stored value is cut to 32 bits before the comparison.
pub open spec fn is_latest_spec(latest: i64, version: u32) -> bool {
    latest as u32 == version
}

/// Builds the record of a versioned read: the row, its creator, and whether
/// the highest stored version `latest` is the version that `uri` names.
pub fn versioned_record<R>(row: R, account_id: AccountId, latest: i64, uri: &VersionedUrl) -> (r:
    Record<R>)
    ensures
        r.record == row,
        r.account_id == account_id,
        r.is_latest == is_latest_spec(latest, uri@.version),
{
    Record { record: row, account_id, is_latest: latest as u32 == uri.version() }
}

/// For every highest version that fits in 32 bits, a read row is the latest
/// exactly when its version equals that highest version.
pub proof fn law_is_latest_exact(latest: i64, version: u32)
    requires
        0 <= latest <= u32::MAX,
    ensures
        is_latest_spec(latest, version) <==> latest == version,
{
    assert(0 <= latest <= 0xffff_ffff ==> (latest as u32) as i64 == latest) by (bit_vector);
}

} // verus!
