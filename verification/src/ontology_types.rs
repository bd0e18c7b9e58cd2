//! Identifiers shared by the ontology and knowledge stores: base and versioned
//! URLs of ontology types and account ids.
use vstd::prelude::*;
use vstd::string::StringExecFns;
use vstd::std_specs::cmp::PartialEqSpecImpl;

verus! {

/// The unversioned part of an ontology type's URL.
#[derive(Debug)]
pub struct BaseUrl {
    url: String,
}

impl View for BaseUrl {
    type V = Seq<char>;

    closed spec fn view(&self) -> Seq<char> {
        self.url@
    }
}

impl BaseUrl {
    /// Wraps `url`; the text is kept as given.
    pub fn new(url: String) -> (b: Self)
        ensures
            b@ == url@,
    {
        BaseUrl { url }
    }

    /// Builds a base URL from a string slice.
    pub fn from_str(url: &str) -> (b: Self)
        ensures
            b@ == url@,
    {
        BaseUrl { url: String::from_str(url) }
    }

    /// The URL text.
    pub fn as_str(&self) -> (s: &str)
        ensures
            s@ == self@,
    {
        self.url.as_str()
    }
}

impl Clone for BaseUrl {
    fn clone(&self) -> (b: Self)
        ensures
            b@ == self@,
    {
        BaseUrl { url: self.url.clone() }
    }
}

impl PartialEq for BaseUrl {
    fn eq(&self, other: &Self) -> (r: bool) {
        self.url == other.url
    }
}

impl PartialEqSpecImpl for BaseUrl {
    open spec fn obeys_eq_spec() -> bool {
        true
    }

    open spec fn eq_spec(&self, other: &Self) -> bool {
        self@ == other@
    }
}

/// A base URL together with a version number.
#[derive(Debug)]
pub struct VersionedUrl {
    pub base_url: BaseUrl,
    pub version: u32,
}

/// Mathematical view of a versioned URL: the base URL text and the version.
pub struct VersionedUrlView {
    pub base_url: Seq<char>,
    pub version: u32,
}

impl View for VersionedUrl {
    type V = VersionedUrlView;

    open spec fn view(&self) -> VersionedUrlView {
        VersionedUrlView { base_url: self.base_url@, version: self.version }
    }
}

impl VersionedUrl {
    /// Pairs `base_url` with `version`.
    pub fn new(base_url: BaseUrl, version: u32) -> (u: Self)
        ensures
            u@ == (VersionedUrlView { base_url: base_url@, version }),
    {
        VersionedUrl { base_url, version }
    }

    /// The base URL part.
    pub fn base_url(&self) -> (b: &BaseUrl)
        ensures
            b@ == self@.base_url,
    {
        &self.base_url
    }

    /// The version part.
    pub fn version(&self) -> (v: u32)
        ensures
            v == self@.version,
    {
        self.version
    }
}

impl Clone for VersionedUrl {
    fn clone(&self) -> (u: Self)
        ensures
            u@ == self@,
    {
        VersionedUrl { base_url: self.base_url.clone(), version: self.version }
    }
}

impl PartialEq for VersionedUrl {
    fn eq(&self, other: &Self) -> (r: bool) {
        self.version == other.version && self.base_url == other.base_url
    }
}

impl PartialEqSpecImpl for VersionedUrl {
    open spec fn obeys_eq_spec() -> bool {
        true
    }

    open spec fn eq_spec(&self, other: &Self) -> bool {
        self@ == other@
    }
}

/// The id of an account, a UUID held as its 128-bit value.
#[derive(Clone, Copy, Debug, PartialEq, Eq, Structural)]
pub struct AccountId {
    pub uuid: u128,
}

} // verus!
