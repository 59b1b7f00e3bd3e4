use vstd::prelude::*;

use crate::error::ValidateError;

verus! {

/// A semantic version held as plain values: the three numeric components and
/// the pre-release and build texts (empty where absent).
#[derive(Debug, Clone)]
pub struct SemVer {
    pub major: u64,
    pub minor: u64,
    pub patch: u64,
    pub pre: String,
    pub build: String,
}

/// What `semver` reads out of a version string, or `None` where it refuses it.
pub uninterp spec fn semver_parts(s: Seq<char>) -> Option<(u64, u64, u64, Seq<char>, Seq<char>)>;

/// Relies on `semver::Version::parse`: the components and texts it reads.
#[verifier::external_body]
fn parse_semver(s: &str) -> (r: Option<SemVer>)
    ensures
        match r {
            Some(v) => semver_parts(s@) == Some(v.parts()),
            None => semver_parts(s@) is None,
        },
{
    match semver::Version::parse(s) {
        Ok(v) => Some(SemVer {
            major: v.major,
            minor: v.minor,
            patch: v.patch,
            pre: v.pre.as_str().to_string(),
            build: v.build.as_str().to_string(),
        }),
        Err(_) => None,
    }
}

pub open spec fn digit_char(d: nat) -> char {
    seq!['0', '1', '2', '3', '4', '5', '6', '7', '8', '9'][d as int]
}

/// The decimal digits of `n`, most significant first, without leading zeros.
pub open spec fn decimal(n: nat) -> Seq<char>
    decreases n,
{
    if n < 10 {
        seq![digit_char(n)]
    } else {
        decimal(n / 10) + seq![digit_char(n % 10)]
    }
}

/// Relies on `u64::to_string` (std's `Display` for integers): plain decimal.
#[verifier::external_body]
fn decimal_text(n: u64) -> (r: String)
    ensures
        r@ == decimal(n as nat),
{
    n.to_string()
}

/// The text of a version: `major.minor.patch`, then `-pre` and `+build`
/// where those are not empty.
pub open spec fn version_text_of(
    major: u64,
    minor: u64,
    patch: u64,
    pre: Seq<char>,
    build: Seq<char>,
) -> Seq<char> {
    decimal(major as nat) + seq!['.'] + decimal(minor as nat) + seq!['.'] + decimal(patch as nat)
        + (if pre.len() > 0 { seq!['-'] + pre } else { Seq::empty() })
        + (if build.len() > 0 { seq!['+'] + build } else { Seq::empty() })
}

impl SemVer {
    pub open spec fn parts(&self) -> (u64, u64, u64, Seq<char>, Seq<char>) {
        (self.major, self.minor, self.patch, self.pre@, self.build@)
    }

    pub open spec fn text(&self) -> Seq<char> {
        version_text_of(self.major, self.minor, self.patch, self.pre@, self.build@)
    }

    /// Renders the version as `semver` displays it.
    pub fn to_text(&self) -> (r: String)
        ensures
            r@ == self.text(),
    {
        let mut r = decimal_text(self.major);
        r.append(".");
        let minor = decimal_text(self.minor);
        r.append(minor.as_str());
        r.append(".");
        let patch = decimal_text(self.patch);
        r.append(patch.as_str());
        if self.pre.as_str().unicode_len() > 0 {
            r.append("-");
            r.append(self.pre.as_str());
        }
        if self.build.as_str().unicode_len() > 0 {
            r.append("+");
            r.append(self.build.as_str());
        }
        proof {
            reveal_strlit(".");
            reveal_strlit("-");
            reveal_strlit("+");
        }
        assert(r@ =~= self.text());
        r
    }

    /// The same version with its patch component one higher, everything else
    /// kept; an error where the patch component cannot grow.
    pub fn bump_patch(&self) -> (r: Result<SemVer, ValidateError>)
        ensures
            self.patch == u64::MAX ==> r == Err::<SemVer, ValidateError>(
                ValidateError::VersionOverflow,
            ),
            self.patch < u64::MAX ==> (r matches Ok(v) && v.parts() == (
                self.major,
                self.minor,
                (self.patch + 1) as u64,
                self.pre@,
                self.build@,
            )),
    {
        if self.patch == u64::MAX {
            return Err(ValidateError::VersionOverflow);
        }
        Ok(SemVer {
            major: self.major,
            minor: self.minor,
            patch: self.patch + 1,
            pre: self.pre.clone(),
            build: self.build.clone(),
        })
    }
}

/// The text of `version` with its patch component bumped, as `semver` would
/// print it.
pub open spec fn bumped_text(version: Seq<char>) -> Result<Seq<char>, ValidateError> {
    match semver_parts(version) {
        None => Err(ValidateError::MalformedVersion),
        Some((major, minor, patch, pre, build)) => if patch == u64::MAX {
            Err(ValidateError::VersionOverflow)
        } else {
            Ok(version_text_of(major, minor, (patch + 1) as u64, pre, build))
        },
    }
}

/// Parses a version string, raises its patch component by one and renders
/// the result.
pub fn bump_version(version: &str) -> (r: Result<String, ValidateError>)
    ensures
        match bumped_text(version@) {
            Ok(t) => r matches Ok(s) && s@ == t,
            Err(e) => r == Err::<String, ValidateError>(e),
        },
{
    let parsed = match parse_semver(version) {
        Some(v) => v,
        None => return Err(ValidateError::MalformedVersion),
    };
    match parsed.bump_patch() {
        Ok(next) => Ok(next.to_text()),
        Err(e) => Err(e),
    }
}

} // verus!
