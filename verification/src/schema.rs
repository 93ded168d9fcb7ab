//! Schema identities and the capability of a payload to report its own.

use crate::text::{decimal, decimal_text};
use vstd::prelude::*;
use vstd::string::*;

verus! {

/// The three-part version of a schema.
#[derive(Clone, Copy, Debug, PartialEq, Eq, Hash)]
pub struct SchemaVersion {
    pub major: u64,
    pub minor: u64,
    pub patch: u64,
}

impl SchemaVersion {
    /// The version `major`-`minor`-`patch`.
    pub fn new(major: u64, minor: u64, patch: u64) -> (v: SchemaVersion)
        ensures
            v.major == major,
            v.minor == minor,
            v.patch == patch,
    {
        SchemaVersion { major, minor, patch }
    }
}

/// What a schema identity is: a vendor, a name and a version.
pub ghost struct SchemaId {
    pub vendor: Seq<char>,
    pub name: Seq<char>,
    pub major: nat,
    pub minor: nat,
    pub patch: nat,
}

impl SchemaId {
    /// The canonical URI of the identity:
    /// `iglu:<vendor>/<name>/jsonschema/<major>-<minor>-<patch>`.
    pub open spec fn uri(self) -> Seq<char> {
        "iglu:"@ + self.vendor + "/"@ + self.name + "/jsonschema/"@ + decimal_text(self.major)
            + "-"@ + decimal_text(self.minor) + "-"@ + decimal_text(self.patch)
    }
}

/// The identity of every schema that the platform itself defines under the
/// given name and version.
pub open spec fn snowplow_id(name: Seq<char>, major: nat, minor: nat, patch: nat) -> SchemaId {
    SchemaId { vendor: "com.snowplowanalytics.snowplow"@, name, major, minor, patch }
}

/// The identity of a payload's shape. Vendor and name are taken as they
/// are given; nothing is checked or changed. An identity does not change
/// once it is made.
#[derive(Debug)]
pub struct Schema {
    vendor: String,
    name: String,
    version: SchemaVersion,
}

impl View for Schema {
    type V = SchemaId;

    closed spec fn view(&self) -> SchemaId {
        SchemaId {
            vendor: self.vendor@,
            name: self.name@,
            major: self.version.major as nat,
            minor: self.version.minor as nat,
            patch: self.version.patch as nat,
        }
    }
}

impl Schema {
    /// The identity with the given vendor, name and version.
    pub fn new(vendor: &str, name: &str, version: SchemaVersion) -> (s: Schema)
        ensures
            s@ == (SchemaId {
                vendor: vendor@,
                name: name@,
                major: version.major as nat,
                minor: version.minor as nat,
                patch: version.patch as nat,
            }),
    {
        Schema { vendor: String::from_str(vendor), name: String::from_str(name), version }
    }

    /// The vendor of the identity.
    pub fn vendor(&self) -> (r: &str)
        ensures
            r@ == self@.vendor,
    {
        self.vendor.as_str()
    }

    /// The name of the identity.
    pub fn name(&self) -> (r: &str)
        ensures
            r@ == self@.name,
    {
        self.name.as_str()
    }

    /// The version of the identity.
    pub fn version(&self) -> (v: SchemaVersion)
        ensures
            v.major == self@.major,
            v.minor == self@.minor,
            v.patch == self@.patch,
    {
        self.version
    }

    /// The identity with the platform's own vendor and the given name and
    /// version.
    pub fn new_snowplow(name: &str, version: SchemaVersion) -> (s: Schema)
        ensures
            s@ == snowplow_id(
                name@,
                version.major as nat,
                version.minor as nat,
                version.patch as nat,
            ),
    {
        Schema::new("com.snowplowanalytics.snowplow", name, version)
    }

    /// Renders the identity as its canonical URI.
    pub fn uri(&self) -> (r: String)
        ensures
            r@ == self@.uri(),
    {
        let mut out = String::from_str("iglu:");
        out.append(self.vendor.as_str());
        out.append("/");
        out.append(self.name.as_str());
        out.append("/jsonschema/");
        let major = decimal(self.version.major);
        out.append(major.as_str());
        out.append("-");
        let minor = decimal(self.version.minor);
        out.append(minor.as_str());
        out.append("-");
        let patch = decimal(self.version.patch);
        out.append(patch.as_str());
        out
    }

    /// Whether two identities are the same: vendor, name and all three parts
    /// of the version agree exactly.
    pub fn same_as(&self, other: &Schema) -> (b: bool)
        ensures
            b == (self@ == other@),
    {
        self.vendor == other.vendor && self.name == other.name && self.version.major
            == other.version.major && self.version.minor == other.version.minor
            && self.version.patch == other.version.patch
    }
}

impl PartialEq for Schema {
    fn eq(&self, other: &Schema) -> (b: bool) {
        self.same_as(other)
    }
}

impl vstd::std_specs::cmp::PartialEqSpecImpl for Schema {
    open spec fn obeys_eq_spec() -> bool {
        true
    }

    /// Two identities are equal where vendor, name and all three parts of
    /// the version agree exactly.
    open spec fn eq_spec(&self, other: &Schema) -> bool {
        self@ == other@
    }
}

/// A payload that can report the identity of its own schema.
pub trait HasSchema {
    /// The identity that the payload reports.
    spec fn schema_id(&self) -> SchemaId;

    /// Reports the identity of the payload's schema.
    fn schema(&self) -> (s: Schema)
        ensures
            s@ == self.schema_id(),
    ;
}

} // verus!
