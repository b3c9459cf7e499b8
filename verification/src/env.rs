//! Attributes of the distinguished name taken from the environment, each with
//! the value that stands in where the variable is not set.
//!
//! Nothing is read here: the caller looks the variable up and passes what it
//! found.

use vstd::prelude::*;

verus! {

pub const COMMON_NAME_VAR: &'static str = "COMMON_NAME";

pub const LOCALITY_VAR: &'static str = "LOCALITY";

pub const COUNTRY_VAR: &'static str = "COUNTRY";

pub const ORG_UNIT_VAR: &'static str = "ORG_UNIT";

pub const ORG_NAME_VAR: &'static str = "ORG_NAME";

pub const COMMON_NAME_FALLBACK: &'static str = "Mkcert Development Certificate";

pub const LOCALITY_FALLBACK: &'static str = "San Francisco";

pub const COUNTRY_FALLBACK: &'static str = "US";

pub const ORG_UNIT_FALLBACK: &'static str = "Development";

pub const ORG_NAME_FALLBACK: &'static str = "Mkcert";

/// What was found, or `fallback` where nothing was.
pub open spec fn value_or(found: Option<String>, fallback: Seq<char>) -> Seq<char> {
    match found {
        Some(value) => value@,
        None => fallback,
    }
}

fn found_or(found: Option<String>, fallback: &str) -> (value: String)
    ensures
        value@ == value_or(found, fallback@),
{
    match found {
        Some(value) => value,
        None => fallback.to_owned(),
    }
}

/// The common name, given what `COMMON_NAME` holds.
pub fn common_name(found: Option<String>) -> (value: String)
    ensures
        value@ == value_or(found, COMMON_NAME_FALLBACK@),
{
    found_or(found, COMMON_NAME_FALLBACK)
}

/// The locality, given what `LOCALITY` holds.
pub fn locality(found: Option<String>) -> (value: String)
    ensures
        value@ == value_or(found, LOCALITY_FALLBACK@),
{
    found_or(found, LOCALITY_FALLBACK)
}

/// The country, given what `COUNTRY` holds.
pub fn country(found: Option<String>) -> (value: String)
    ensures
        value@ == value_or(found, COUNTRY_FALLBACK@),
{
    found_or(found, COUNTRY_FALLBACK)
}

/// The organizational unit, given what `ORG_UNIT` holds.
pub fn org_unit(found: Option<String>) -> (value: String)
    ensures
        value@ == value_or(found, ORG_UNIT_FALLBACK@),
{
    found_or(found, ORG_UNIT_FALLBACK)
}

/// The organization, given what `ORG_NAME` holds.
pub fn org_name(found: Option<String>) -> (value: String)
    ensures
        value@ == value_or(found, ORG_NAME_FALLBACK@),
{
    found_or(found, ORG_NAME_FALLBACK)
}

} // verus!
