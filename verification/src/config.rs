//! The identity that certificates are issued under, and the record of whether
//! a root is installed.

use vstd::prelude::*;

verus! {

/// The attributes of a distinguished name that the identity supplies, in the
/// order in which they are written into a subject.
#[derive(Debug, Clone, Copy, PartialEq, Eq, Structural)]
pub enum DnAttribute {
    CommonName,
    Locality,
    Country,
    Organization,
    OrganizationalUnit,
}

/// The identity as it is persisted: the attributes of the distinguished name,
/// and the thumbprint of the root that is installed, if one is.
///
/// `thumbprint` is present exactly while the last install that succeeded has
/// not been followed by an uninstall that succeeded.
#[derive(Debug, Clone)]
pub struct Config {
    pub common_name: Option<String>,
    pub locality: Option<String>,
    pub country: Option<String>,
    pub org_unit: Option<String>,
    pub org_name: Option<String>,
    pub thumbprint: Option<String>,
}

/// A [`Config`] with its strings as sequences of characters.
pub struct ConfigView {
    pub common_name: Option<Seq<char>>,
    pub locality: Option<Seq<char>>,
    pub country: Option<Seq<char>>,
    pub org_unit: Option<Seq<char>>,
    pub org_name: Option<Seq<char>>,
    pub thumbprint: Option<Seq<char>>,
}

pub const DEFAULT_COMMON_NAME: &'static str = "Mkcert Development CA";

pub const DEFAULT_LOCALITY: &'static str = "San Francisco";

pub const DEFAULT_COUNTRY: &'static str = "US";

pub const DEFAULT_ORG_UNIT: &'static str = "Development";

pub const DEFAULT_ORG_NAME: &'static str = "mkcert-rs";

/// The characters of an optional string.
pub open spec fn text_view(text: Option<String>) -> Option<Seq<char>> {
    match text {
        Some(s) => Some(s@),
        None => None,
    }
}

/// The value that stands in for an attribute that the identity leaves out.
pub open spec fn fallback(attribute: DnAttribute) -> Seq<char> {
    match attribute {
        DnAttribute::CommonName => DEFAULT_COMMON_NAME@,
        DnAttribute::Locality => DEFAULT_LOCALITY@,
        DnAttribute::Country => DEFAULT_COUNTRY@,
        DnAttribute::Organization => DEFAULT_ORG_NAME@,
        DnAttribute::OrganizationalUnit => DEFAULT_ORG_UNIT@,
    }
}

impl View for Config {
    type V = ConfigView;

    open spec fn view(&self) -> ConfigView {
        ConfigView {
            common_name: text_view(self.common_name),
            locality: text_view(self.locality),
            country: text_view(self.country),
            org_unit: text_view(self.org_unit),
            org_name: text_view(self.org_name),
            thumbprint: text_view(self.thumbprint),
        }
    }
}

impl ConfigView {
    /// The identity that is created on first use: every attribute at its
    /// fallback, and no root installed.
    pub open spec fn initial() -> ConfigView {
        ConfigView {
            common_name: Some(DEFAULT_COMMON_NAME@),
            locality: Some(DEFAULT_LOCALITY@),
            country: Some(DEFAULT_COUNTRY@),
            org_unit: Some(DEFAULT_ORG_UNIT@),
            org_name: Some(DEFAULT_ORG_NAME@),
            thumbprint: None,
        }
    }

    /// What the identity holds for `attribute`, if anything.
    pub open spec fn stored(self, attribute: DnAttribute) -> Option<Seq<char>> {
        match attribute {
            DnAttribute::CommonName => self.common_name,
            DnAttribute::Locality => self.locality,
            DnAttribute::Country => self.country,
            DnAttribute::Organization => self.org_name,
            DnAttribute::OrganizationalUnit => self.org_unit,
        }
    }

    /// The value of `attribute` in a subject: what the identity holds, or the
    /// fallback where it holds nothing.
    pub open spec fn attribute(self, attribute: DnAttribute) -> Seq<char> {
        match self.stored(attribute) {
            Some(value) => value,
            None => fallback(attribute),
        }
    }

    /// The subject of every certificate issued under this identity.
    pub open spec fn subject(self) -> Seq<(DnAttribute, Seq<char>)> {
        seq![
            (DnAttribute::CommonName, self.attribute(DnAttribute::CommonName)),
            (DnAttribute::Locality, self.attribute(DnAttribute::Locality)),
            (DnAttribute::Country, self.attribute(DnAttribute::Country)),
            (DnAttribute::Organization, self.attribute(DnAttribute::Organization)),
            (DnAttribute::OrganizationalUnit, self.attribute(DnAttribute::OrganizationalUnit)),
        ]
    }

    /// This identity with `thumbprint` recorded.
    pub open spec fn with_thumbprint(self, thumbprint: Seq<char>) -> ConfigView {
        ConfigView { thumbprint: Some(thumbprint), ..self }
    }

    /// This identity with no thumbprint recorded.
    pub open spec fn without_thumbprint(self) -> ConfigView {
        ConfigView { thumbprint: None, ..self }
    }
}

fn text_or(value: &Option<String>, fallback: &str) -> (text: String)
    ensures
        text@ == (match *value {
            Some(s) => s@,
            None => fallback@,
        }),
{
    match value {
        Some(s) => s.clone(),
        None => fallback.to_owned(),
    }
}

impl Default for Config {
    fn default() -> (config: Config)
        ensures
            config@ == ConfigView::initial(),
    {
        Config {
            common_name: Some(DEFAULT_COMMON_NAME.to_owned()),
            locality: Some(DEFAULT_LOCALITY.to_owned()),
            country: Some(DEFAULT_COUNTRY.to_owned()),
            org_unit: Some(DEFAULT_ORG_UNIT.to_owned()),
            org_name: Some(DEFAULT_ORG_NAME.to_owned()),
            thumbprint: None,
        }
    }
}

impl Config {
    /// The identity to work with, given what storage held: the stored one as
    /// it is, or the initial one where nothing was stored. The flag says
    /// whether the identity is new and has to be written back.
    pub fn read_config(stored: Option<Config>) -> (loaded: (Config, bool))
        ensures
            stored matches Some(found) ==> loaded.0 == found && !loaded.1,
            stored is None ==> loaded.0@ == ConfigView::initial() && loaded.1,
    {
        match stored {
            Some(found) => (found, false),
            None => (Config::default(), true),
        }
    }

    /// The value of `attribute` in a subject.
    pub fn attribute(&self, attribute: DnAttribute) -> (value: String)
        ensures
            value@ == self@.attribute(attribute),
    {
        match attribute {
            DnAttribute::CommonName => text_or(&self.common_name, DEFAULT_COMMON_NAME),
            DnAttribute::Locality => text_or(&self.locality, DEFAULT_LOCALITY),
            DnAttribute::Country => text_or(&self.country, DEFAULT_COUNTRY),
            DnAttribute::Organization => text_or(&self.org_name, DEFAULT_ORG_NAME),
            DnAttribute::OrganizationalUnit => text_or(&self.org_unit, DEFAULT_ORG_UNIT),
        }
    }

    /// Whether a root is believed to be installed.
    pub fn is_installed(&self) -> (installed: bool)
        ensures
            installed == self@.thumbprint.is_some(),
    {
        self.thumbprint.is_some()
    }

    /// This identity with `thumbprint` recorded; the attributes stay.
    pub fn with_thumbprint(self, thumbprint: String) -> (updated: Config)
        ensures
            updated@ == self@.with_thumbprint(thumbprint@),
    {
        Config { thumbprint: Some(thumbprint), ..self }
    }

    /// This identity with no thumbprint recorded; the attributes stay.
    pub fn without_thumbprint(self) -> (updated: Config)
        ensures
            updated@ == self@.without_thumbprint(),
    {
        Config { thumbprint: None, ..self }
    }
}

} // verus!
