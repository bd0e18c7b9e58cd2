use hash_graph::ontology_read::{
    all_types_query, apply_filter, latest_types_query, persisted_if_selected, read_query,
    OntologyQuery, OntologyVersion, PersistedEntityType, PersistedLinkType,
    PersistedOntologyIdentifier, PersistedOntologyType,
};
use hash_graph::ontology_types::{AccountId, BaseUrl, VersionedUrl};
use hash_graph::record_read::{
    read_all_types_query, read_versioned_type_query, versioned_record, versioned_type_parameters,
    Record,
};

fn url(base: &str, version: u32) -> VersionedUrl {
    VersionedUrl::new(BaseUrl::from_str(base), version)
}

const PERSON: &str = "https://example.com/types/entity-type/person/";
const ORG: &str = "https://example.com/types/entity-type/org/";

#[test]
fn filter_without_constraints_keeps_element() {
    let query = OntologyQuery::new(None, None);
    assert_eq!(apply_filter(42, &url(PERSON, 3), &query), Some(42));
}

#[test]
fn filter_by_base_url() {
    let query = OntologyQuery::new(Some(BaseUrl::from_str(PERSON)), None);
    assert_eq!(apply_filter("a", &url(PERSON, 1), &query), Some("a"));
    assert_eq!(apply_filter("a", &url(PERSON, 9), &query), Some("a"));
    assert_eq!(apply_filter("a", &url(ORG, 1), &query), None);
}

#[test]
fn filter_by_exact_version() {
    let query = OntologyQuery::new(None, Some(OntologyVersion::Exact(2)));
    assert_eq!(apply_filter(1, &url(ORG, 2), &query), Some(1));
    assert_eq!(apply_filter(1, &url(ORG, 3), &query), None);
}

#[test]
fn filter_by_base_url_and_version() {
    let query = OntologyQuery::new(Some(BaseUrl::from_str(ORG)), Some(OntologyVersion::Exact(4)));
    assert_eq!(apply_filter((), &url(ORG, 4), &query), Some(()));
    assert_eq!(apply_filter((), &url(ORG, 5), &query), None);
    assert_eq!(apply_filter((), &url(PERSON, 4), &query), None);
}

#[test]
fn latest_query_filters_only_by_base_url() {
    let query = OntologyQuery::new(Some(BaseUrl::from_str(ORG)), Some(OntologyVersion::Latest));
    assert_eq!(apply_filter(0, &url(ORG, 1), &query), Some(0));
    assert_eq!(apply_filter(0, &url(ORG, 17), &query), Some(0));
    assert_eq!(apply_filter(0, &url(PERSON, 1), &query), None);
}

#[test]
fn query_getters() {
    let query = OntologyQuery::new(Some(BaseUrl::from_str(ORG)), Some(OntologyVersion::Exact(1)));
    assert_eq!(query.uri().map(|b| b.as_str()), Some(ORG));
    assert_eq!(query.version(), Some(OntologyVersion::Exact(1)));
    let empty = OntologyQuery::new(None, None);
    assert!(empty.uri().is_none());
    assert_eq!(empty.version(), None);
}

#[test]
fn all_types_statement_text() {
    let expected = format!(
        r#"
                SELECT schema, created_by
                FROM {};
                "#,
        "entity_types"
    );
    assert_eq!(all_types_query("entity_types"), expected);
}

#[test]
fn latest_types_statement_text() {
    let expected = format!(
        r#"
                SELECT DISTINCT ON(base_uri) schema, created_by
                FROM {table}
                INNER JOIN ids ON ids.version_id = {table}.version_id
                ORDER BY base_uri, version DESC;
                "#,
        table = "link_types"
    );
    assert_eq!(latest_types_query("link_types"), expected);
}

#[test]
fn read_query_picks_statement_by_version() {
    let latest = OntologyQuery::new(None, Some(OntologyVersion::Latest));
    let exact = OntologyQuery::new(None, Some(OntologyVersion::Exact(1)));
    let any = OntologyQuery::new(None, None);
    assert_eq!(read_query(&latest, "t"), latest_types_query("t"));
    assert_eq!(read_query(&exact, "t"), all_types_query("t"));
    assert_eq!(read_query(&any, "t"), all_types_query("t"));
}

#[test]
fn persisted_types_carry_their_identifier() {
    let query = OntologyQuery::new(None, Some(OntologyVersion::Exact(2)));
    let account = AccountId { uuid: 77 };
    let kept: Option<PersistedEntityType<&str>> =
        persisted_if_selected("schema", &url(PERSON, 2), account, &query);
    let kept = kept.expect("selected");
    assert_eq!(kept.inner, "schema");
    assert_eq!(kept.identifier.uri, url(PERSON, 2));
    assert_eq!(kept.identifier.created_by, account);

    let dropped: Option<PersistedLinkType<&str>> =
        persisted_if_selected("schema", &url(PERSON, 3), account, &query);
    assert!(dropped.is_none());
}

#[test]
fn persisted_link_type_new() {
    let identifier = PersistedOntologyIdentifier::new(url(ORG, 1), AccountId { uuid: 1 });
    let link: PersistedLinkType<u8> = PersistedOntologyType::new(9, identifier);
    assert_eq!(link.inner, 9);
    assert_eq!(link.identifier.uri.version(), 1);
    assert_eq!(link.identifier.uri.base_url().as_str(), ORG);
}

#[test]
fn read_all_types_statement_text() {
    let table = "data_types";
    let expected = format!(
        r#"
                SELECT schema, created_by, MAX(version) OVER (PARTITION by base_uri) = version as latest
                FROM {table} type_table
                INNER JOIN ids
                ON type_table.version_id = ids.version_id
                ORDER BY base_uri, version DESC;
                "#,
    );
    assert_eq!(read_all_types_query(table), expected);
}

#[test]
fn read_versioned_type_statement_text() {
    let table = "property_types";
    let expected = format!(
        r#"
                SELECT schema, created_by, (
                    SELECT MAX(version) as latest 
                    FROM ids 
                    WHERE base_uri = $1
                )
                FROM {table} type_table
                INNER JOIN ids
                ON type_table.version_id = ids.version_id
                WHERE base_uri = $1 AND version = $2;
                "#
    );
    assert_eq!(read_versioned_type_query(table), expected);
}

#[test]
fn versioned_type_parameters_of_url() {
    let u = url(PERSON, 12);
    let (base, version) = versioned_type_parameters(&u);
    assert_eq!(base, PERSON);
    assert_eq!(version, 12i64);
}

#[test]
fn versioned_record_is_latest_when_versions_match() {
    let u = url(PERSON, 3);
    let r = versioned_record("row", AccountId { uuid: 5 }, 3, &u);
    assert!(r.is_latest);
    assert_eq!(r.record, "row");
    assert_eq!(r.account_id, AccountId { uuid: 5 });
    assert!(!versioned_record("row", AccountId { uuid: 5 }, 4, &u).is_latest);
}

#[test]
fn versioned_record_compares_truncated_latest() {
    // The stored maximum is cut to 32 bits before it is compared.
    let u = url(PERSON, 3);
    assert!(versioned_record((), AccountId { uuid: 0 }, (1i64 << 32) + 3, &u).is_latest);
}

#[test]
fn record_replace_keeps_metadata() {
    let r = Record { record: 1u8, account_id: AccountId { uuid: 2 }, is_latest: true };
    let s = r.replace_record("x");
    assert_eq!(s.record, "x");
    assert_eq!(s.account_id, AccountId { uuid: 2 });
    assert!(s.is_latest);
}
