use cargo_validate::error::ValidateError;
use cargo_validate::manifest::{read_manifest, MetadataField};
use cargo_validate::plan::{
    after_answer, after_bump, assess, first_step, is_owner, name_conflict, publish_command, report, Assessment,
    Prompt, Step,
};
use cargo_validate::registry::{on_crate_response, on_owners_response, CrateStep, RegistryLookup};
use cargo_validate::status::parse_status;

fn strings(v: &[&str]) -> Vec<String> {
    v.iter().map(|s| s.to_string()).collect()
}

#[test]
fn ownership_decides_conflict() {
    let owners = strings(&["alice", "bob"]);
    assert!(is_owner(&owners, "bob"));
    assert!(!is_owner(&owners, "carol"));
    assert!(!name_conflict(true, &owners, "alice"));
    assert!(name_conflict(true, &owners, "carol"));
    assert!(name_conflict(true, &Vec::new(), "carol"));
    assert!(!name_conflict(false, &owners, "carol"));
    assert!(!name_conflict(false, &Vec::new(), "carol"));
}

#[test]
fn assessment_from_lookup_and_tree() {
    let lookup = RegistryLookup { crate_exists: true, version_exists: true, owners: strings(&["alice"]) };
    let dirty = parse_status(" M a.rs\n").unwrap();
    let a = assess(&lookup, "alice", &dirty);
    assert_eq!(a, Assessment { name_conflict: false, version_exists: true, dirty: true });
    let a = assess(&lookup, "bob", &Vec::new());
    assert_eq!(a, Assessment { name_conflict: true, version_exists: true, dirty: false });
}

#[test]
fn dirty_tree_appends_flag() {
    let a = Assessment { name_conflict: false, version_exists: false, dirty: true };
    assert_eq!(first_step(&a), Step::Ask(Prompt::PublishDirty));
    assert_eq!(after_answer(Prompt::PublishDirty, true), Step::Publish);
    let cmd = publish_command(&a, &strings(&["--dry-run"]));
    assert_eq!(cmd, strings(&["publish", "--dry-run", "--allow-dirty"]));
}

#[test]
fn clean_tree_never_appends_flag() {
    let a = Assessment { name_conflict: false, version_exists: false, dirty: false };
    assert_eq!(first_step(&a), Step::Ask(Prompt::Publish));
    assert_eq!(publish_command(&a, &strings(&["--dry-run"])), strings(&["publish", "--dry-run"]));
    assert_eq!(publish_command(&a, &Vec::new()), strings(&["publish"]));
}

#[test]
fn any_no_aborts() {
    for prompt in [Prompt::BumpVersion, Prompt::PublishDirty, Prompt::Publish] {
        assert_eq!(after_answer(prompt, false), Step::Abort(ValidateError::Interrupted));
    }
    assert_eq!(after_answer(Prompt::BumpVersion, true), Step::Bump);
    assert_eq!(after_answer(Prompt::Publish, true), Step::Publish);
}

#[test]
fn existing_version_offers_bump_then_final_question() {
    let a = Assessment { name_conflict: false, version_exists: true, dirty: true };
    assert_eq!(first_step(&a), Step::Ask(Prompt::BumpVersion));
    assert_eq!(after_answer(Prompt::BumpVersion, true), Step::Bump);
    assert_eq!(after_bump(&a), Step::Ask(Prompt::PublishDirty));
    let clean = Assessment { name_conflict: false, version_exists: true, dirty: false };
    assert_eq!(after_bump(&clean), Step::Ask(Prompt::Publish));
}

#[test]
fn name_conflict_aborts_first() {
    let a = Assessment { name_conflict: true, version_exists: true, dirty: true };
    assert_eq!(first_step(&a), Step::Abort(ValidateError::AlreadyExists));
}

#[test]
fn report_fields() {
    let p = read_manifest("[package]\nname = \"foo\"\nversion = \"0.1.0\"\nedition = \"2018\"\nlicense = \"MIT\"\n").unwrap();
    let a = Assessment { name_conflict: true, version_exists: false, dirty: false };
    let r = report(&p, &a);
    assert!(!r.name_ok);
    assert!(r.version_ok);
    assert!(!r.edition_ok);
    assert_eq!(r.missing, vec![MetadataField::Repository, MetadataField::Description]);
}

#[test]
fn new_crate_clean_tree_publishes_plainly() {
    let p = read_manifest("[package]\nname = \"foo\"\nversion = \"0.1.0\"\nedition = \"2021\"\n").unwrap();
    assert_eq!(on_crate_response(404, "", &p.version).unwrap(), CrateStep::NotFound);
    let lookup = RegistryLookup::not_found();
    let a = assess(&lookup, "alice", &parse_status("").unwrap());
    let r = report(&p, &a);
    assert!(r.name_ok);
    assert!(r.version_ok);
    assert!(r.edition_ok);
    assert_eq!(first_step(&a), Step::Ask(Prompt::Publish));
    assert_eq!(after_answer(Prompt::Publish, true), Step::Publish);
    assert_eq!(publish_command(&a, &Vec::new()), strings(&["publish"]));
    assert_eq!(publish_command(&a, &strings(&["--token", "t"])), strings(&["publish", "--token", "t"]));
}

#[test]
fn foreign_crate_aborts_without_publishing() {
    let p = read_manifest("[package]\nname = \"foo\"\nversion = \"0.1.0\"\nedition = \"2021\"\n").unwrap();
    let step = on_crate_response(200, "{\"versions\":[{\"num\":\"0.0.9\"}]}", &p.version).unwrap();
    assert_eq!(step, CrateStep::FetchOwners { version_exists: false });
    let lookup = on_owners_response(200, "{\"users\":[{\"login\":\"mallory\"}]}", false).unwrap();
    let a = assess(&lookup, "alice", &Vec::new());
    assert!(a.name_conflict);
    assert_eq!(first_step(&a), Step::Abort(ValidateError::AlreadyExists));
}
