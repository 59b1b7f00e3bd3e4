use vstd::prelude::*;

use crate::error::ValidateError;
use crate::manifest::opt_text;

verus! {

/// What the registry says of a package name and version.
#[derive(Debug, Clone)]
pub struct RegistryLookup {
    pub crate_exists: bool,
    pub version_exists: bool,
    pub owners: Vec<String>,
}

/// What to do after the registry answered the crate lookup.
#[derive(Debug, Clone, Copy, PartialEq, Eq, Structural)]
pub enum CrateStep {
    /// The crate is unknown: the lookup is over, with nothing found.
    NotFound,
    /// The crate exists: fetch its owners next.
    FetchOwners { version_exists: bool },
}

pub open spec fn texts(v: Seq<String>) -> Seq<Seq<char>> {
    v.map_values(|s: String| s@)
}

pub open spec fn members_view(v: Seq<Option<String>>) -> Seq<Option<Seq<char>>> {
    v.map_values(|o: Option<String>| opt_text(o))
}

/// Whether some member is the string `wanted`.
pub open spec fn holds_text(m: Seq<Option<Seq<char>>>, wanted: Seq<char>) -> bool {
    exists|i: int| 0 <= i < m.len() && m[i] == Some(wanted)
}

/// The members that are strings, in order.
pub open spec fn present_of(m: Seq<Option<Seq<char>>>) -> Seq<Seq<char>>
    decreases m.len(),
{
    if m.len() == 0 {
        Seq::empty()
    } else {
        let rest = present_of(m.drop_last());
        match m.last() {
            Some(s) => rest.push(s),
            None => rest,
        }
    }
}

/// What `serde_json` finds in a JSON text under the top-level `field`:
/// `None` where the text is not JSON or `field` is not an array, else for
/// each element of the array its `key` member where that is a string.
pub uninterp spec fn json_array_members(body: Seq<char>, field: Seq<char>, key: Seq<char>) -> Option<
    Seq<Option<Seq<char>>>,
>;

/// Relies on `serde_json::from_str`, `Value::get`, `Value::as_array` and
/// `Value::as_str`: reads one string member out of each element of an array.
#[verifier::external_body]
fn array_members(body: &str, field: &str, key: &str) -> (r: Option<Vec<Option<String>>>)
    ensures
        match r {
            Some(v) => json_array_members(body@, field@, key@) == Some(members_view(v@)),
            None => json_array_members(body@, field@, key@) is None,
        },
{
    let doc: serde_json::Value = serde_json::from_str(body).ok()?;
    let items = doc.get(field)?.as_array()?;
    Some(items.iter().map(|e| e.get(key).and_then(serde_json::Value::as_str).map(String::from)).collect())
}

/// Whether one of the members is `wanted`.
pub fn contains_text(items: &Vec<Option<String>>, wanted: &str) -> (r: bool)
    ensures
        r == holds_text(members_view(items@), wanted@),
{
    let w = String::from_str(wanted);
    let mut i: usize = 0;
    while i < items.len()
        invariant
            i <= items@.len(),
            w@ == wanted@,
            forall|j: int| 0 <= j < i ==> members_view(items@)[j] != Some(wanted@),
        decreases items@.len() - i,
    {
        match &items[i] {
            Some(s) => {
                if *s == w {
                    assert(members_view(items@)[i as int] == Some(wanted@));
                    return true;
                }
            },
            None => {},
        }
        i = i + 1;
    }
    false
}

/// The members that are strings, in order.
pub fn present_texts(items: &Vec<Option<String>>) -> (r: Vec<String>)
    ensures
        texts(r@) == present_of(members_view(items@)),
{
    let mut r: Vec<String> = Vec::new();
    let mut i: usize = 0;
    while i < items.len()
        invariant
            i <= items@.len(),
            texts(r@) == present_of(members_view(items@).take(i as int)),
        decreases items@.len() - i,
    {
        proof {
            assert(members_view(items@).take(i + 1).drop_last() =~= members_view(items@).take(
                i as int,
            ));
        }
        match &items[i] {
            Some(s) => {
                r.push(s.clone());
                assert(texts(r@) =~= present_of(members_view(items@).take(i + 1)));
            },
            None => {},
        }
        i = i + 1;
    }
    assert(members_view(items@).take(i as int) =~= members_view(items@));
    r
}

pub open spec fn crates_api() -> Seq<char> {
    "https://crates.io/api/v1/crates/"@
}

/// Where the registry describes the crate and its versions.
pub fn crate_url(name: &str) -> (r: String)
    ensures
        r@ == crates_api() + name@,
{
    let mut r = String::from_str("https://crates.io/api/v1/crates/");
    r.append(name);
    r
}

/// Where the registry lists the crate's owners.
pub fn owners_url(name: &str) -> (r: String)
    ensures
        r@ == crates_api() + name@ + "/owner_user"@,
{
    let mut r = crate_url(name);
    r.append("/owner_user");
    r
}

/// The outcome of the crate lookup, by its status and, for 200, its body.
pub open spec fn crate_outcome(status: u16, body: Seq<char>, version: Seq<char>) -> Result<
    CrateStep,
    ValidateError,
> {
    if status == 200 {
        match json_array_members(body, "versions"@, "num"@) {
            Some(m) => Ok(CrateStep::FetchOwners { version_exists: holds_text(m, version) }),
            None => Err(ValidateError::MalformedResponse),
        }
    } else if status == 404 {
        Ok(CrateStep::NotFound)
    } else if status == 403 {
        Err(ValidateError::PermissionDenied)
    } else if status == 429 {
        Err(ValidateError::RateLimited)
    } else {
        Err(ValidateError::UnexpectedStatus(status))
    }
}

/// Classifies the registry's answer to the crate lookup for `version`.
pub fn on_crate_response(status: u16, body: &str, version: &str) -> (r: Result<
    CrateStep,
    ValidateError,
>)
    ensures
        r == crate_outcome(status, body@, version@),
        status == 404 ==> r == Ok::<CrateStep, ValidateError>(CrateStep::NotFound),
{
    if status == 200 {
        match array_members(body, "versions", "num") {
            Some(m) => Ok(CrateStep::FetchOwners { version_exists: contains_text(&m, version) }),
            None => Err(ValidateError::MalformedResponse),
        }
    } else if status == 404 {
        Ok(CrateStep::NotFound)
    } else if status == 403 {
        Err(ValidateError::PermissionDenied)
    } else if status == 429 {
        Err(ValidateError::RateLimited)
    } else {
        Err(ValidateError::UnexpectedStatus(status))
    }
}

impl RegistryLookup {
    /// The lookup of a crate the registry does not know.
    pub fn not_found() -> (r: RegistryLookup)
        ensures
            !r.crate_exists,
            !r.version_exists,
            r.owners@.len() == 0,
    {
        RegistryLookup { crate_exists: false, version_exists: false, owners: Vec::new() }
    }
}

/// Classifies the registry's answer to the owners lookup of an existing
/// crate.
pub fn on_owners_response(status: u16, body: &str, version_exists: bool) -> (r: Result<
    RegistryLookup,
    ValidateError,
>)
    ensures
        !(200 <= status < 300) ==> r == Err::<RegistryLookup, ValidateError>(
            ValidateError::OwnersStatus(status),
        ),
        200 <= status < 300 ==> match json_array_members(body@, "users"@, "login"@) {
            None => r == Err::<RegistryLookup, ValidateError>(ValidateError::MalformedResponse),
            Some(m) => r matches Ok(l) && l.crate_exists && l.version_exists == version_exists
                && texts(l.owners@) == present_of(m),
        },
{
    if status < 200 || status >= 300 {
        return Err(ValidateError::OwnersStatus(status));
    }
    match array_members(body, "users", "login") {
        Some(m) => Ok(
            RegistryLookup { crate_exists: true, version_exists, owners: present_texts(&m) },
        ),
        None => Err(ValidateError::MalformedResponse),
    }
}

/// A 404 ends the lookup with nothing found, whatever the body, so no owners
/// request follows; a 200 whose `versions` array holds the queried version
/// reports it as existing, and one whose array is empty or lacks it does not.
pub proof fn law_crate_lookup_outcomes(body: Seq<char>, version: Seq<char>)
    ensures
        crate_outcome(404, body, version) == Ok::<CrateStep, ValidateError>(CrateStep::NotFound),
        json_array_members(body, "versions"@, "num"@) matches Some(m) ==> crate_outcome(
            200,
            body,
            version,
        ) == Ok::<CrateStep, ValidateError>(
            CrateStep::FetchOwners {
                version_exists: exists|i: int| 0 <= i < m.len() && m[i] == Some(version),
            },
        ),
        json_array_members(body, "versions"@, "num"@) matches Some(m) && m.len() == 0
            ==> crate_outcome(200, body, version) == Ok::<CrateStep, ValidateError>(
            CrateStep::FetchOwners { version_exists: false },
        ),
{
}

} // verus!
