//! Package configuration and statistics records, timestamps in microseconds
//! since the Unix epoch.
use vstd::prelude::*;
use crate::text::{any_numeric, has_numeric};

verus! {

/// Operator's intent to track a package at a version spec.
#[derive(Debug, Clone)]
pub struct CrateConfig {
    pub id: i32,
    pub name: String,
    pub version_spec: String,
    pub current_version: Option<String>,
    pub features: Vec<String>,
    pub expected_docs: i32,
    pub enabled: bool,
    pub last_checked: Option<i64>,
    pub last_populated: Option<i64>,
    pub created_at: i64,
    pub updated_at: i64,
}

/// Aggregates of one ingested package.
#[derive(Debug, Clone)]
pub struct CrateStats {
    pub name: String,
    pub version: Option<String>,
    pub last_updated: i64,
    pub total_docs: i32,
    pub total_tokens: i32,
}

/// Expected document count when none is given.
pub const DEFAULT_EXPECTED_DOCS: i32 = 1000;

/// The version spec that tracks the newest release.
pub fn default_version_spec() -> (r: String)
    ensures
        r@ == "latest"@,
{
    String::from_str("latest")
}

/// A version spec is `latest` or holds a numeral.
pub open spec fn valid_version_spec(v: Seq<char>) -> bool {
    v == "latest"@ || has_numeric(v)
}

/// Checks a requested package and version spec, with the message for the
/// first problem found.
pub fn validate_crate_spec(name: &str, version_spec: &str) -> (r: Result<(), String>)
    ensures
        r.is_ok() == (name@.len() > 0 && valid_version_spec(version_spec@)),
        name@.len() == 0 ==> (r matches Err(m) && m@ == "Crate name cannot be empty"@),
        name@.len() > 0 && !valid_version_spec(version_spec@) ==> (r matches Err(m) && m@
            == "Version spec must be 'latest' or a valid version number"@),
{
    if name.unicode_len() == 0 {
        return Err(String::from_str("Crate name cannot be empty"));
    }
    let latest = String::from_str("latest");
    if version_spec.to_owned() != latest && !any_numeric(version_spec) {
        return Err(String::from_str("Version spec must be 'latest' or a valid version number"));
    }
    Ok(())
}

/// The configuration that an add request stores: not yet resolved nor
/// populated, with the defaults for what the request leaves out.
pub fn new_crate_config(
    name: &str,
    version_spec: &str,
    features: Option<Vec<String>>,
    enabled: Option<bool>,
    expected_docs: Option<i32>,
    now: i64,
) -> (r: CrateConfig)
    ensures
        r.id == 0,
        r.name@ == name@,
        r.version_spec@ == version_spec@,
        r.current_version is None,
        r.features@ == match features {
            Some(f) => f@,
            None => Seq::<String>::empty(),
        },
        r.enabled == match enabled {
            Some(e) => e,
            None => true,
        },
        r.expected_docs == match expected_docs {
            Some(d) => d,
            None => DEFAULT_EXPECTED_DOCS,
        },
        r.last_checked is None,
        r.last_populated is None,
        r.created_at == now,
        r.updated_at == now,
{
    CrateConfig {
        id: 0,
        name: name.to_owned(),
        version_spec: version_spec.to_owned(),
        current_version: None,
        features: match features {
            Some(f) => f,
            None => Vec::new(),
        },
        expected_docs: match expected_docs {
            Some(d) => d,
            None => DEFAULT_EXPECTED_DOCS,
        },
        enabled: match enabled {
            Some(e) => e,
            None => true,
        },
        last_checked: None,
        last_populated: None,
        created_at: now,
        updated_at: now,
    }
}

/// The configuration after a successful ingestion: resolved version recorded,
/// populated and checked now.
pub fn populated_config(c: &CrateConfig, version: Option<String>, now: i64) -> (r: CrateConfig)
    ensures
        r.id == c.id,
        r.name@ == c.name@,
        r.version_spec@ == c.version_spec@,
        r.current_version == version,
        r.features@ == c.features@,
        r.expected_docs == c.expected_docs,
        r.enabled == c.enabled,
        r.last_checked == Some(now),
        r.last_populated == Some(now),
        r.created_at == c.created_at,
        r.updated_at == c.updated_at,
{
    let mut features: Vec<String> = Vec::new();
    let mut i: usize = 0;
    while i < c.features.len()
        invariant
            i <= c.features.len(),
            features@ == c.features@.take(i as int),
        decreases c.features.len() - i,
    {
        features.push(c.features[i].clone());
        proof {
            assert(features@ =~= c.features@.take(i as int + 1));
        }
        i = i + 1;
    }
    proof {
        assert(features@ =~= c.features@);
    }
    CrateConfig {
        id: c.id,
        name: c.name.as_str().to_owned(),
        version_spec: c.version_spec.as_str().to_owned(),
        current_version: version,
        features,
        expected_docs: c.expected_docs,
        enabled: c.enabled,
        last_checked: Some(now),
        last_populated: Some(now),
        created_at: c.created_at,
        updated_at: c.updated_at,
    }
}

} // verus!
