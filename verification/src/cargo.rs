//! The package manifest facts the build-time generators read.
//!
//! The manifest itself is read and parsed by the unverified shell; the
//! generators work on the plain fields it hands over.

use vstd::prelude::*;

use crate::Error;
use crate::other_error;

verus! {

/// What the package-metadata reader reported of the manifest: the
/// package name and version, either possibly absent from the report.
#[derive(Debug)]
pub struct CargoManifest {
    name: Option<String>,
    version: Option<String>,
}

impl CargoManifest {
    pub closed spec fn spec_name(self) -> Option<Seq<char>> {
        self.name.deep_view()
    }

    pub closed spec fn spec_version(self) -> Option<Seq<char>> {
        self.version.deep_view()
    }

    /// Wraps the fields the shell extracted from the manifest report.
    pub fn new(name: Option<String>, version: Option<String>) -> (r: CargoManifest)
        ensures
            r.spec_name() == name.deep_view(),
            r.spec_version() == version.deep_view(),
    {
        CargoManifest { name, version }
    }

    /// The package name; fails exactly when the report carried none.
    pub fn package_name(&self) -> (r: Result<&str, Error>)
        ensures
            self.spec_name() matches Some(n) ==> (r matches Ok(s) && s@ == n),
            self.spec_name() is None ==> (r matches Err(e) && e matches Error::Other(m)
                && m@ == "could not find package name in manifest"@),
    {
        match &self.name {
            Some(n) => Ok(n.as_str()),
            None => other_error("could not find package name in manifest"),
        }
    }

    /// The package description.  The metadata report never carries one,
    /// so this is always the absent answer.
    pub fn description(&self) -> (r: Result<Option<&str>, Error>)
        ensures
            r matches Ok(d) && d is None,
    {
        Ok(None)
    }

    /// The package version; fails exactly when the report carried none.
    pub fn version(&self) -> (r: Result<&str, Error>)
        ensures
            self.spec_version() matches Some(v) ==> (r matches Ok(s) && s@ == v),
            self.spec_version() is None ==> (r matches Err(e) && e matches Error::Other(m)
                && m@ == "could not find package version in manifest"@),
    {
        match &self.version {
            Some(v) => Ok(v.as_str()),
            None => other_error("could not find package version in manifest"),
        }
    }
}

} // verus!
