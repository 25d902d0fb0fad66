use vstd::prelude::*;
use vstd::string::StringExecFns;

verus! {

/// An artifact identifier: an origin and a name, optionally narrowed by a
/// version and further by a release. A release may only be given together
/// with a version.
#[derive(Debug, PartialEq, Eq)]
pub struct PackageIdent {
    pub origin: String,
    pub name: String,
    pub version: Option<String>,
    pub release: Option<String>,
}

impl PackageIdent {
    /// The identifier invariant: a release is only present when a version is.
    pub open spec fn wf(self) -> bool {
        self.release is Some ==> self.version is Some
    }

    /// Both version and release are present.
    pub open spec fn spec_fully_qualified(self) -> bool {
        self.version is Some && self.release is Some
    }

    /// The canonical string form: `origin/name`, then `/version` and
    /// `/release` for whichever of the two are present.
    pub open spec fn text(self) -> Seq<char> {
        self.origin@ + "/"@ + self.name@ + (if self.version is Some {
            "/"@ + self.version->Some_0@
        } else {
            Seq::<char>::empty()
        }) + (if self.release is Some {
            "/"@ + self.release->Some_0@
        } else {
            Seq::<char>::empty()
        })
    }

    pub fn new(origin: String, name: String, version: Option<String>, release: Option<String>) -> (r: Self)
        requires
            release is Some ==> version is Some,
        ensures
            r == (PackageIdent { origin, name, version, release }),
            r.wf(),
    {
        PackageIdent { origin, name, version, release }
    }

    /// Whether this identifier pins an exact artifact.
    pub fn fully_qualified(&self) -> (r: bool)
        ensures
            r == self.spec_fully_qualified(),
    {
        self.version.is_some() && self.release.is_some()
    }

    /// Render the canonical string form.
    pub fn to_text(&self) -> (r: String)
        ensures
            r@ == self.text(),
    {
        let mut s = self.origin.clone();
        s.append("/");
        s.append(self.name.as_str());
        match &self.version {
            Some(v) => {
                s.append("/");
                s.append(v.as_str());
            },
            None => {},
        }
        match &self.release {
            Some(rel) => {
                s.append("/");
                s.append(rel.as_str());
            },
            None => {},
        }
        proof {
            assert(s@ =~= self.text());
        }
        s
    }
}

impl Clone for PackageIdent {
    fn clone(&self) -> (r: Self)
        ensures
            r == *self,
    {
        PackageIdent {
            origin: self.origin.clone(),
            name: self.name.clone(),
            version: match &self.version {
                Some(v) => Some(v.clone()),
                None => None,
            },
            release: match &self.release {
                Some(rel) => Some(rel.clone()),
                None => None,
            },
        }
    }
}

/// A fully-resolved artifact held in the local cache, ready to publish.
#[derive(Debug, PartialEq, Eq)]
pub struct Package {
    pub origin: String,
    pub name: String,
    pub version: String,
    pub release: String,
}

/// A handle to a downloaded artifact archive: an opaque byte blob at a known
/// path, consumed by a separate archive-handling component.
#[derive(Debug, PartialEq, Eq)]
pub struct PackageArchive {
    pub path: String,
}

impl PackageArchive {
    pub fn new(path: String) -> (r: Self)
        ensures
            r.path == path,
    {
        PackageArchive { path }
    }
}

} // verus!
