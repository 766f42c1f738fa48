//! The package descriptor, its canonical underscore-delimited encoding, and
//! the library's error taxonomy.

use vstd::prelude::*;
use vstd::string::StringExecFns;
use crate::split::lemma_split_on_join;
use crate::split::lemma_split_on_no_delim;
use crate::split::split_on;
use crate::split::split_str;

verus! {

/// The delimiter of the canonical descriptor encoding.
pub open spec fn delim() -> char {
    '_'
}

/// A package descriptor: four text fields identifying a package. `types` is a
/// category used as a URL directory; the other three make up the archive's
/// file name.
#[derive(Debug, Clone)]
pub struct Package {
    pub name: String,
    pub author: String,
    pub version: String,
    pub types: String,
}

/// The mathematical view of a descriptor: its four fields as character
/// sequences.
#[verifier::ext_equal]
pub ghost struct PackageView {
    pub name: Seq<char>,
    pub author: Seq<char>,
    pub version: Seq<char>,
    pub types: Seq<char>,
}

impl View for Package {
    type V = PackageView;

    open spec fn view(&self) -> PackageView {
        PackageView {
            name: self.name@,
            author: self.author@,
            version: self.version@,
            types: self.types@,
        }
    }
}

/// The failures of this library: a descriptor string with too few segments,
/// a base URL that does not resolve, or a response outside the success range.
#[derive(Debug)]
pub enum PackageError {
    /// The descriptor string had fewer than four delimiter-separated
    /// segments; carries the raw input and the observed segment count.
    UnderlineFormatParseError { len: usize, raw: String },
    /// The base URL failed to parse as an absolute URL, or resolving the
    /// relative archive path against it failed.
    UrlError,
    /// The response status was not a success; carries that status.
    NetworkError { status: u16 },
}

impl PackageError {
    /// A short description of the error kind.
    pub fn message(&self) -> (r: String)
        ensures
            self is UnderlineFormatParseError ==> r@ == "Underline Format ParseError!"@,
            self is UrlError ==> r@ == "Url ParseError!"@,
            self is NetworkError ==> r@ == "Network Request Error!"@,
    {
        match self {
            PackageError::UnderlineFormatParseError { .. } => String::from_str(
                "Underline Format ParseError!",
            ),
            PackageError::UrlError => String::from_str("Url ParseError!"),
            PackageError::NetworkError { .. } => String::from_str("Network Request Error!"),
        }
    }
}

/// A catch-all error kind kept beside the package errors.
#[derive(Debug)]
pub enum BaseError {
    OtherError(),
    Unknown,
}

impl BaseError {
    /// A short description of the error kind.
    pub fn message(&self) -> (r: String)
        ensures
            self is OtherError ==> r@ == "Other Error!"@,
            self is Unknown ==> r@ == "Unknown Error!"@,
    {
        match self {
            BaseError::OtherError() => String::from_str("Other Error!"),
            BaseError::Unknown => String::from_str("Unknown Error!"),
        }
    }
}

/// The canonical encoding of a descriptor: the four fields joined by the
/// delimiter in the order name, version, author, types.
pub open spec fn spec_format(p: PackageView) -> Seq<char> {
    p.name + seq![delim()] + p.version + seq![delim()] + p.author + seq![delim()] + p.types
}

/// What parsing a descriptor string yields: with at least four segments, the
/// first four in the order name, version, author, types (any further segments
/// are ignored); with fewer, the segment count.
pub open spec fn spec_parse(s: Seq<char>) -> Result<PackageView, nat> {
    let segs = split_on(s, delim());
    if segs.len() >= 4 {
        Ok(
            PackageView {
                name: segs[0],
                version: segs[1],
                author: segs[2],
                types: segs[3],
            },
        )
    } else {
        Err(segs.len())
    }
}

impl Package {
    /// Parses the canonical underscore-delimited encoding: at least four
    /// segments, mapped in order to name, version, author and types; extra
    /// trailing segments are tolerated and ignored. With fewer than four
    /// segments the input is rejected, and the error reports the raw input
    /// and the exact segment count.
    pub fn from_underline_format(input: String) -> (r: Result<Package, PackageError>)
        ensures
            r is Ok <==> spec_parse(input@) is Ok,
            r matches Ok(p) ==> p@ == spec_parse(input@)->Ok_0,
            r matches Err(e) ==> e matches PackageError::UnderlineFormatParseError { len, raw }
                && len == spec_parse(input@)->Err_0 && raw@ == input@,
    {
        let segs = split_str(input.as_str(), '_');
        if segs.len() < 4 {
            let n: usize = segs.len();
            return Err(PackageError::UnderlineFormatParseError { len: n, raw: input });
        }
        let p = Package {
            name: segs[0].clone(),
            author: segs[2].clone(),
            version: segs[1].clone(),
            types: segs[3].clone(),
        };
        proof {
            assert(p@ =~= spec_parse(input@)->Ok_0);
        }
        Ok(p)
    }

    /// Encodes the descriptor in its canonical form,
    /// `name_version_author_types`. Always succeeds; field contents are not
    /// validated, so a field holding the delimiter corrupts round-tripping.
    pub fn to_underline_format(&self) -> (r: Result<String, PackageError>)
        ensures
            r matches Ok(s) && s@ == spec_format(self@),
    {
        let mut s = self.name.clone();
        s.append("_");
        s.append(self.version.as_str());
        s.append("_");
        s.append(self.author.as_str());
        s.append("_");
        s.append(self.types.as_str());
        proof {
            reveal_strlit("_");
            assert(s@ =~= spec_format(self@));
        }
        Ok(s)
    }
}

/// Round-trip law: a descriptor whose four fields are free of the delimiter
/// character is recovered exactly by parsing its canonical encoding.
pub proof fn lemma_round_trip(p: PackageView)
    requires
        forall|k: int| 0 <= k < p.name.len() ==> p.name[k] != delim(),
        forall|k: int| 0 <= k < p.version.len() ==> p.version[k] != delim(),
        forall|k: int| 0 <= k < p.author.len() ==> p.author[k] != delim(),
        forall|k: int| 0 <= k < p.types.len() ==> p.types[k] != delim(),
    ensures
        spec_parse(spec_format(p)) == Ok::<PackageView, nat>(p),
{
    let d = delim();
    let rest2 = p.author + seq![d] + p.types;
    let rest1 = p.version + seq![d] + rest2;
    assert(spec_format(p) =~= p.name + seq![d] + rest1);
    lemma_split_on_join(p.name, rest1, d);
    lemma_split_on_join(p.version, rest2, d);
    lemma_split_on_join(p.author, p.types, d);
    lemma_split_on_no_delim(p.types, d);
    let segs = split_on(spec_format(p), d);
    assert(segs =~~= seq![p.name, p.version, p.author, p.types]);
    assert(spec_parse(spec_format(p))->Ok_0 =~= p);
}

/// Minimum-segment law: a string with fewer than four delimiter-separated
/// segments parses to an error that reports exactly that segment count.
pub proof fn lemma_too_few_segments(s: Seq<char>)
    requires
        split_on(s, delim()).len() < 4,
    ensures
        spec_parse(s) == Err::<PackageView, nat>(split_on(s, delim()).len()),
{
}

} // verus!
