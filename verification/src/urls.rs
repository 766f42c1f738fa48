//! Deriving a package archive's download URL from a descriptor and a base
//! URL string.

use vstd::prelude::*;
use vstd::string::StringExecFns;
use crate::package::Package;
use crate::package::PackageError;
use crate::package::PackageView;
use crate::package::delim;

verus! {

/// The serialized absolute URL that resolving the relative reference `rel`
/// against the base URL string `base` yields, or `None` where `base` does not
/// parse as an absolute URL or resolution fails. Resolution follows the
/// WHATWG URL standard, so the outcome is a function of the two strings
/// alone.
pub uninterp spec fn url_resolution(base: Seq<char>, rel: Seq<char>) -> Option<Seq<char>>;

/// Relies on url::Url::parse and url::Url::join, which parse `base` as an
/// absolute URL and resolve `rel` against it per the WHATWG URL standard;
/// both are deterministic in the two strings alone.
#[verifier::external_body]
fn resolve_url(base: &str, rel: &str) -> (r: Option<String>)
    ensures
        r is Some <==> url_resolution(base@, rel@) is Some,
        r matches Some(u) ==> url_resolution(base@, rel@) matches Some(v) && u@ == v,
{
    match url::Url::parse(base) {
        Ok(b) => match b.join(rel) {
            Ok(j) => Some(String::from(j)),
            Err(_) => None,
        },
        Err(_) => None,
    }
}

/// The relative archive path of a descriptor:
/// `./{types}/{name}_{version}_{author}.7z`. `types` is a directory; the file
/// name carries the other three fields and the fixed archive extension.
pub open spec fn spec_rel_path(p: PackageView) -> Seq<char> {
    "./"@ + p.types + "/"@ + p.name + seq![delim()] + p.version + seq![delim()] + p.author
        + ".7z"@
}

/// The download URL of a descriptor against a base URL string: the resolution
/// of the descriptor's relative archive path against that base, or `None`
/// where the base is malformed or resolution fails.
pub open spec fn spec_download_url(p: PackageView, base: Seq<char>) -> Option<Seq<char>> {
    url_resolution(base, spec_rel_path(p))
}

impl Package {
    /// Derives the absolute download URL of this package's archive: the
    /// relative path `./{types}/{name}_{version}_{author}.7z` resolved
    /// against `base_url`. Fails exactly where the base URL is malformed or
    /// resolution fails, and with no other error kind.
    pub fn get_download_url(&self, base_url: String) -> (r: Result<String, PackageError>)
        ensures
            r is Ok <==> spec_download_url(self@, base_url@) is Some,
            r matches Ok(u) ==> spec_download_url(self@, base_url@) matches Some(v) && u@ == v,
            r matches Err(e) ==> e is UrlError,
    {
        let mut rel = String::from_str("./");
        rel.append(self.types.as_str());
        rel.append("/");
        rel.append(self.name.as_str());
        rel.append("_");
        rel.append(self.version.as_str());
        rel.append("_");
        rel.append(self.author.as_str());
        rel.append(".7z");
        proof {
            reveal_strlit("_");
            assert(rel@ =~= spec_rel_path(self@));
        }
        match resolve_url(base_url.as_str(), rel.as_str()) {
            Some(u) => Ok(u),
            None => Err(PackageError::UrlError),
        }
    }
}

/// Determinism law: the derived download URL is a function of the descriptor
/// and the base URL alone, so equal inputs always yield equal URLs.
pub proof fn lemma_download_url_deterministic(
    p1: PackageView,
    base1: Seq<char>,
    p2: PackageView,
    base2: Seq<char>,
)
    requires
        p1 == p2,
        base1 == base2,
    ensures
        spec_download_url(p1, base1) == spec_download_url(p2, base2),
{
}

} // verus!
