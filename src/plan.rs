//! The decision core. A run asks its questions in a fixed order, and the
//! first "no" stops it:
//! 1. a name owned by somebody else stops the run before any question;
//! 2. a version that is published already is met with an offer to bump the
//!    patch component; the bump is written to the manifest at once and is not
//!    undone if a later question is declined;
//! 3. the last question asks to publish, with a warning and the flag that
//!    allows it where the working tree has changes.
//! The edition and missing metadata only annotate the report.

use vstd::prelude::*;

use crate::error::ValidateError;
use crate::manifest::{edition_is_current, missing_fields, missing_of, current_edition, MetadataField, PackageInfo};
use crate::registry::{texts, RegistryLookup};
use crate::status::StatusEntry;

verus! {

/// Whether `username` is one of `owners`.
pub fn is_owner(owners: &Vec<String>, username: &str) -> (r: bool)
    ensures
        r == texts(owners@).contains(username@),
{
    let u = String::from_str(username);
    let mut i: usize = 0;
    while i < owners.len()
        invariant
            i <= owners@.len(),
            u@ == username@,
            forall|j: int| 0 <= j < i ==> owners@[j]@ != username@,
        decreases owners@.len() - i,
    {
        if owners[i] == u {
            assert(texts(owners@)[i as int] == username@);
            return true;
        }
        i = i + 1;
    }
    assert(!texts(owners@).contains(username@)) by {
        assert forall|j: int| 0 <= j < texts(owners@).len() implies texts(owners@)[j]
            != username@ by {
            assert(texts(owners@)[j] == owners@[j]@);
        }
    }
    false
}

/// A name conflict: the crate exists and `username` does not own it.
pub open spec fn conflict_of(crate_exists: bool, owners: Seq<Seq<char>>, username: Seq<char>) -> bool {
    crate_exists && !owners.contains(username)
}

/// Whether publishing under this name would take somebody else's crate.
pub fn name_conflict(crate_exists: bool, owners: &Vec<String>, username: &str) -> (r: bool)
    ensures
        r == conflict_of(crate_exists, texts(owners@), username@),
        r <==> crate_exists && !texts(owners@).contains(username@),
        !crate_exists ==> !r,
{
    crate_exists && !is_owner(owners, username)
}

/// The conditions that decide the confirmations.
#[derive(Debug, Clone, Copy, PartialEq, Eq, Structural)]
pub struct Assessment {
    pub name_conflict: bool,
    pub version_exists: bool,
    pub dirty: bool,
}

/// Combines the registry's answer, the operator and the working tree.
pub fn assess(lookup: &RegistryLookup, username: &str, status: &Vec<StatusEntry>) -> (r: Assessment)
    ensures
        r.name_conflict == conflict_of(lookup.crate_exists, texts(lookup.owners@), username@),
        r.version_exists == lookup.version_exists,
        r.dirty == (status@.len() > 0),
{
    Assessment {
        name_conflict: name_conflict(lookup.crate_exists, &lookup.owners, username),
        version_exists: lookup.version_exists,
        dirty: status.len() > 0,
    }
}

/// The plain results shown to the operator before any question.
#[derive(Debug, Clone)]
pub struct Report {
    pub name_ok: bool,
    pub version_ok: bool,
    pub edition_ok: bool,
    pub missing: Vec<MetadataField>,
}

/// The report of a package under an assessment.
pub fn report(pkg: &PackageInfo, a: &Assessment) -> (r: Report)
    ensures
        r.name_ok == !a.name_conflict,
        r.version_ok == !a.version_exists,
        r.edition_ok == (pkg.edition@ == current_edition()),
        r.missing@ == missing_of(*pkg),
{
    Report {
        name_ok: !a.name_conflict,
        version_ok: !a.version_exists,
        edition_ok: edition_is_current(pkg.edition.as_str()),
        missing: missing_fields(pkg),
    }
}

/// A yes/no question put to the operator.
#[derive(Debug, Clone, Copy, PartialEq, Eq, Structural)]
pub enum Prompt {
    /// The version is published already: bump the patch component?
    BumpVersion,
    /// Publish although the working tree has changes?
    PublishDirty,
    /// Publish?
    Publish,
}

/// What the run does next.
#[derive(Debug, Clone, Copy, PartialEq, Eq, Structural)]
pub enum Step {
    /// Ask the operator, then report the answer.
    Ask(Prompt),
    /// Bump the patch version and rewrite the manifest, then report that.
    Bump,
    /// Run the publish command.
    Publish,
    /// Stop with this error; nothing more is run.
    Abort(ValidateError),
}

/// The last question: it depends on the working tree alone.
pub open spec fn final_prompt(a: Assessment) -> Prompt {
    if a.dirty {
        Prompt::PublishDirty
    } else {
        Prompt::Publish
    }
}

pub open spec fn start_step(a: Assessment) -> Step {
    if a.name_conflict {
        Step::Abort(ValidateError::AlreadyExists)
    } else if a.version_exists {
        Step::Ask(Prompt::BumpVersion)
    } else {
        Step::Ask(final_prompt(a))
    }
}

pub open spec fn answer_step(prompt: Prompt, yes: bool) -> Step {
    if !yes {
        Step::Abort(ValidateError::Interrupted)
    } else if prompt == Prompt::BumpVersion {
        Step::Bump
    } else {
        Step::Publish
    }
}

fn prompt_for_tree(a: &Assessment) -> (r: Prompt)
    ensures
        r == final_prompt(*a),
{
    if a.dirty {
        Prompt::PublishDirty
    } else {
        Prompt::Publish
    }
}

/// The first step of a run: a name conflict stops it at once; a published
/// version asks for a bump; otherwise the final question.
pub fn first_step(a: &Assessment) -> (r: Step)
    ensures
        r == start_step(*a),
{
    if a.name_conflict {
        Step::Abort(ValidateError::AlreadyExists)
    } else if a.version_exists {
        Step::Ask(Prompt::BumpVersion)
    } else {
        Step::Ask(prompt_for_tree(a))
    }
}

/// The step after the operator answered `prompt`: a "no" stops the run; a
/// "yes" to the bump leads to the bump; a "yes" to the last question to the
/// publish command.
pub fn after_answer(prompt: Prompt, yes: bool) -> (r: Step)
    ensures
        r == answer_step(prompt, yes),
{
    if !yes {
        Step::Abort(ValidateError::Interrupted)
    } else if prompt == Prompt::BumpVersion {
        Step::Bump
    } else {
        Step::Publish
    }
}

/// The step after the version was bumped and written: the final question.
pub fn after_bump(a: &Assessment) -> (r: Step)
    ensures
        r == Step::Ask(final_prompt(*a)),
{
    Step::Ask(prompt_for_tree(a))
}

pub open spec fn allow_dirty() -> Seq<char> {
    "--allow-dirty"@
}

/// The publish command's arguments: `publish`, the passthrough arguments,
/// then the flag for a dirty tree where the tree is dirty.
pub open spec fn command_of(passthrough: Seq<Seq<char>>, dirty: bool) -> Seq<Seq<char>> {
    seq!["publish"@] + passthrough + (if dirty { seq![allow_dirty()] } else { Seq::empty() })
}

/// Builds the publish command's arguments.
pub fn publish_command(a: &Assessment, passthrough: &Vec<String>) -> (r: Vec<String>)
    ensures
        texts(r@) == command_of(texts(passthrough@), a.dirty),
        a.dirty ==> texts(r@).last() == allow_dirty(),
        !a.dirty ==> texts(r@) == seq!["publish"@] + texts(passthrough@),
{
    let mut r: Vec<String> = Vec::new();
    r.push(String::from_str("publish"));
    let mut i: usize = 0;
    while i < passthrough.len()
        invariant
            i <= passthrough@.len(),
            texts(r@) == seq!["publish"@] + texts(passthrough@).take(i as int),
        decreases passthrough@.len() - i,
    {
        let ghost before = r@;
        let item = passthrough[i].clone();
        r.push(item);
        assert(texts(r@) =~= texts(before).push(passthrough@[i as int]@));
        assert(texts(r@) =~= seq!["publish"@] + texts(passthrough@).take(i + 1));
        i = i + 1;
    }
    assert(texts(passthrough@).take(i as int) =~= texts(passthrough@));
    if a.dirty {
        r.push(String::from_str("--allow-dirty"));
    }
    assert(texts(r@) =~= command_of(texts(passthrough@), a.dirty));
    r
}

/// A "no" to any question stops the run with `Interrupted`, and the publish
/// command is reached only right after a "yes": neither the first step nor
/// the step after a bump runs it.
pub proof fn law_declining_stops_before_publish(a: Assessment, prompt: Prompt)
    ensures
        answer_step(prompt, false) == Step::Abort(ValidateError::Interrupted),
        start_step(a) != Step::Publish,
        Step::Ask(final_prompt(a)) != Step::Publish,
        answer_step(prompt, true) == Step::Publish ==> prompt != Prompt::BumpVersion,
{
}

/// When the tree is dirty the publish command ends with the flag that
/// allows it, one argument more than `publish` and the passthrough; when it
/// is clean the command is exactly `publish` and the passthrough.
pub proof fn law_dirty_flag_follows_tree(passthrough: Seq<Seq<char>>, dirty: bool)
    ensures
        dirty ==> command_of(passthrough, dirty).last() == allow_dirty()
            && command_of(passthrough, dirty).len() == passthrough.len() + 2
            && command_of(passthrough, dirty).drop_last() == seq!["publish"@] + passthrough,
        !dirty ==> command_of(passthrough, dirty) == seq!["publish"@] + passthrough,
{
    assert(command_of(passthrough, true).drop_last() =~= seq!["publish"@] + passthrough);
    assert(command_of(passthrough, false) =~= seq!["publish"@] + passthrough);
}

/// A crate that does not exist is never a name conflict, whoever the owners
/// are; one that exists is a conflict exactly when the operator is not among
/// its owners.
pub proof fn law_conflict_needs_foreign_crate(
    crate_exists: bool,
    owners: Seq<Seq<char>>,
    username: Seq<char>,
)
    ensures
        !crate_exists ==> !conflict_of(crate_exists, owners, username),
        crate_exists ==> (conflict_of(crate_exists, owners, username) <==> !owners.contains(
            username,
        )),
{
}

} // verus!
