//! Reading persisted ontology types: the query filter that decides which
//! stored types a query selects, the statements that read them, and the
//! wrapping of each selected type with its identifier.
use vstd::prelude::*;
use vstd::string::StringExecFns;
use crate::ontology_types::{AccountId, BaseUrl, VersionedUrl, VersionedUrlView};

verus! {

/// Which version of a type a query asks for.
#[derive(Clone, Copy, Debug, PartialEq, Eq, Structural)]
pub enum OntologyVersion {
    Exact(u32),
    Latest,
}

/// A query over persisted ontology types: an optional base URL and an
/// optional version constraint.
#[derive(Debug)]
pub struct OntologyQuery {
    pub uri: Option<BaseUrl>,
    pub version: Option<OntologyVersion>,
}

impl OntologyQuery {
    /// Builds a query from its two optional constraints.
    pub fn new(uri: Option<BaseUrl>, version: Option<OntologyVersion>) -> (q: Self)
        ensures
            q.uri == uri,
            q.version == version,
    {
        OntologyQuery { uri, version }
    }

    /// The base URL the query is restricted to, if any.
    pub fn uri(&self) -> (u: Option<&BaseUrl>)
        ensures
            u == match self.uri {
                Some(b) => Some(&b),
                None => None::<&BaseUrl>,
            },
    {
        match &self.uri {
            Some(b) => Some(b),
            None => None,
        }
    }

    /// The version constraint of the query, if any.
    pub fn version(&self) -> (v: Option<OntologyVersion>)
        ensures
            v == self.version,
    {
        self.version
    }
}

/// A type with URL `uri` is selected by `query` exactly when its base URL
/// equals the query's base URL (if the query names one) and its version equals
/// the query's exact version (if the query asks for one).
pub open spec fn query_selects(uri: VersionedUrlView, query: OntologyQuery) -> bool {
    &&& match query.uri {
        Some(base) => uri.base_url == base@,
        None => true,
    }
    &&& match query.version {
        Some(OntologyVersion::Exact(v)) => uri.version == v,
        _ => true,
    }
}

/// Keeps `element`, whose versioned URL is `uri`, when `query` selects it.
pub fn apply_filter<T>(element: T, uri: &VersionedUrl, query: &OntologyQuery) -> (r: Option<T>)
    ensures
        r == if query_selects(uri@, *query) {
            Some(element)
        } else {
            None
        },
{
    if let Some(base_uri) = query.uri() {
        if !(uri.base_url() == base_uri) {
            return None;
        }
    }
    if let Some(OntologyVersion::Exact(version)) = query.version() {
        if uri.version() != version {
            return None;
        }
    }
    Some(element)
}


/// The statement that reads every stored type of `table`.
pub open spec fn all_types_statement(table: Seq<char>) -> Seq<char> {
    "\n                SELECT schema, created_by\n                FROM "@ + table
        + ";\n                "@
}

/// The statement that reads, for each base URL of `table`, only the row of
/// its highest version.
pub open spec fn latest_types_statement(table: Seq<char>) -> Seq<char> {
    "\n                SELECT DISTINCT ON(base_uri) schema, created_by\n                FROM "@
        + table + "\n                INNER JOIN ids ON ids.version_id = "@ + table
        + ".version_id\n                ORDER BY base_uri, version DESC;\n                "@
}

/// The statement that serves `query` on `table`: the latest-version statement
/// when the query asks for the latest version, the statement reading all
/// versions otherwise.
pub open spec fn read_statement_spec(query: OntologyQuery, table: Seq<char>) -> Seq<char> {
    if query.version == Some(OntologyVersion::Latest) {
        latest_types_statement(table)
    } else {
        all_types_statement(table)
    }
}

/// Builds the statement reading every stored type of `table`.
pub fn all_types_query(table: &str) -> (s: String)
    ensures
        s@ == all_types_statement(table@),
{
    let mut s = String::from_str("\n                SELECT schema, created_by\n                FROM ");
    s.append(table);
    s.append(";\n                ");
    s
}

/// Builds the statement reading only the latest version of each type of `table`.
pub fn latest_types_query(table: &str) -> (s: String)
    ensures
        s@ == latest_types_statement(table@),
{
    let mut s = String::from_str(
        "\n                SELECT DISTINCT ON(base_uri) schema, created_by\n                FROM ",
    );
    s.append(table);
    s.append("\n                INNER JOIN ids ON ids.version_id = ");
    s.append(table);
    s.append(".version_id\n                ORDER BY base_uri, version DESC;\n                ");
    s
}

/// Builds the statement with which `query` is served on `table`.
pub fn read_query(query: &OntologyQuery, table: &str) -> (s: String)
    ensures
        s@ == read_statement_spec(*query, table@),
{
    if let Some(OntologyVersion::Latest) = query.version() {
        latest_types_query(table)
    } else {
        all_types_query(table)
    }
}

/// The identifier under which a type is persisted: its versioned URL and the
/// account that created it.
#[derive(Debug)]
pub struct PersistedOntologyIdentifier {
    pub uri: VersionedUrl,
    pub created_by: AccountId,
}

impl PersistedOntologyIdentifier {
    /// Pairs `uri` with `created_by`.
    pub fn new(uri: VersionedUrl, created_by: AccountId) -> (i: Self)
        ensures
            i.uri@ == uri@,
            i.created_by == created_by,
    {
        PersistedOntologyIdentifier { uri, created_by }
    }
}

/// A persisted ontology type: a schema of type `Inner` together with the
/// identifier under which it is stored.
pub trait PersistedOntologyType: Sized {
    type Inner;

    /// The schema this value holds.
    spec fn inner_schema(&self) -> Self::Inner;

    /// The versioned URL of the identifier this value holds.
    spec fn identifier_uri(&self) -> VersionedUrlView;

    /// The creating account of the identifier this value holds.
    spec fn identifier_created_by(&self) -> AccountId;

    /// Wraps `inner` with `identifier`.
    fn new(inner: Self::Inner, identifier: PersistedOntologyIdentifier) -> (p: Self)
        ensures
            p.inner_schema() == inner,
            p.identifier_uri() == identifier.uri@,
            p.identifier_created_by() == identifier.created_by,
    ;
}

/// A persisted link type with a schema of type `S`.
#[derive(Debug)]
pub struct PersistedLinkType<S> {
    pub inner: S,
    pub identifier: PersistedOntologyIdentifier,
}

impl<S> PersistedOntologyType for PersistedLinkType<S> {
    type Inner = S;

    open spec fn inner_schema(&self) -> S {
        self.inner
    }

    open spec fn identifier_uri(&self) -> VersionedUrlView {
        self.identifier.uri@
    }

    open spec fn identifier_created_by(&self) -> AccountId {
        self.identifier.created_by
    }

    fn new(inner: S, identifier: PersistedOntologyIdentifier) -> (p: Self) {
        Self { inner, identifier }
    }
}

/// A persisted entity type with a schema of type `S`.
#[derive(Debug)]
pub struct PersistedEntityType<S> {
    pub inner: S,
    pub identifier: PersistedOntologyIdentifier,
}

impl<S> PersistedOntologyType for PersistedEntityType<S> {
    type Inner = S;

    open spec fn inner_schema(&self) -> S {
        self.inner
    }

    open spec fn identifier_uri(&self) -> VersionedUrlView {
        self.identifier.uri@
    }

    open spec fn identifier_created_by(&self) -> AccountId {
        self.identifier.created_by
    }

    fn new(inner: S, identifier: PersistedOntologyIdentifier) -> (p: Self) {
        Self { inner, identifier }
    }
}

/// Turns one stored row, a schema `element` with URL `uri` created by
/// `account_id`, into a persisted type when `query` selects it.
pub fn persisted_if_selected<T: PersistedOntologyType>(
    element: T::Inner,
    uri: &VersionedUrl,
    account_id: AccountId,
    query: &OntologyQuery,
) -> (r: Option<T>)
    ensures
        query_selects(uri@, *query) <==> r is Some,
        r matches Some(p) ==> {
            &&& p.inner_schema() == element
            &&& p.identifier_uri() == uri@
            &&& p.identifier_created_by() == account_id
        },
{
    match apply_filter(element, uri, query) {
        Some(element) => {
            let identifier = PersistedOntologyIdentifier::new(uri.clone(), account_id);
            Some(T::new(element, identifier))
        },
        None => None,
    }
}

/// A query without constraints selects every type.
pub proof fn law_unconstrained_query_selects_all(uri: VersionedUrlView)
    ensures
        query_selects(uri, OntologyQuery { uri: None, version: None }),
{
}

/// A query for the latest version filters only by base URL: which version is
/// the latest is decided by the statement, not by the filter.
pub proof fn law_latest_query_filters_by_base_only(uri: VersionedUrlView, query: OntologyQuery)
    requires
        query.version == Some(OntologyVersion::Latest),
    ensures
        query_selects(uri, query) <==> match query.uri {
            Some(base) => uri.base_url == base@,
            None => true,
        },
{
}

/// An exact-version query without a base URL selects exactly the types of
/// that version.
pub proof fn law_exact_query_selects_version(uri: VersionedUrlView, version: u32)
    ensures
        query_selects(uri, OntologyQuery { uri: None, version: Some(OntologyVersion::Exact(version)) })
            <==> uri.version == version,
{
}

} // verus!
