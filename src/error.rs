use vstd::prelude::*;

verus! {

/// Every way a validation run can stop short of publishing.
#[derive(Debug, Clone, Copy, PartialEq, Eq, Structural)]
pub enum ValidateError {
    /// The manifest is not TOML or has no `[package]` table.
    MissingPackage,
    /// The package table lacks `name`, `version` or `edition` as a string.
    MissingField,
    /// The version string is not a semantic version.
    MalformedVersion,
    /// The patch component is already the largest value it can hold.
    VersionOverflow,
    /// A registry answer lacks the expected array.
    MalformedResponse,
    /// The registry refused access (403).
    PermissionDenied,
    /// The registry is rate limiting (429).
    RateLimited,
    /// The crate lookup answered with another status.
    UnexpectedStatus(u16),
    /// The owners lookup answered with a status outside the success range.
    OwnersStatus(u16),
    /// A line of the working tree's status is not `XY path`.
    MalformedStatus,
    /// The operator declined a confirmation.
    Interrupted,
    /// The name belongs to somebody else.
    AlreadyExists,
}

} // verus!
