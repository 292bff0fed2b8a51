use aur_updater::config::default_pkgver_regex;
use aur_updater::pipeline::{
    aggregate_exit_code, count_failures, Action, ErrorKind, Event, Options, Outcome, Pipeline,
};
use aur_updater::should_update;

#[test]
fn update_is_due_exactly_when_versions_differ_or_force_is_set() {
    assert!(!should_update(&b"1.2.0".to_vec(), &b"1.2.0".to_vec(), false));
    assert!(should_update(&b"1.2.0".to_vec(), &b"1.2.0".to_vec(), true));
    assert!(should_update(&b"1.1.0".to_vec(), &b"1.2.0".to_vec(), false));
    assert!(should_update(&b"".to_vec(), &b"1.2.0".to_vec(), false));
}

fn metadata_doc(version: &str) -> Vec<u8> {
    format!("pkgbase = demo\npkgver = {version}\npkgrel = 1\n\npkgname = demo\n").into_bytes()
}

fn options() -> Options {
    Options { force: false, dryrun: false, noconfirm: false }
}

fn load_up_to_tags(m: &mut Pipeline, applied: &str, old_metadata: Option<Vec<u8>>) {
    let a = m.step(Event::StateLoaded { tag: applied.as_bytes().to_vec() });
    assert!(matches!(a, Action::LoadConfig));
    let a = m.step(Event::ConfigLoaded { pattern: default_pkgver_regex() });
    assert!(matches!(a, Action::LoadMetadata));
    let a = m.step(Event::MetadataLoaded { content: old_metadata });
    assert!(matches!(a, Action::FetchTags));
}

#[test]
fn skip_when_candidate_equals_applied() {
    let mut m = Pipeline::new(options());
    assert!(matches!(m.first_action(), Action::LoadState));
    load_up_to_tags(&mut m, "1.2.0", None);
    let a = m.step(Event::TagsFetched { tags: vec![b"1.2.0".to_vec(), b"1.1.0".to_vec()] });
    match a {
        Action::Stop { outcome } => assert_eq!(outcome, Outcome::UpToDate),
        _ => panic!("expected the run to stop without touching anything"),
    }
}

#[test]
fn force_overrides_the_skip() {
    let mut m = Pipeline::new(Options { force: true, dryrun: true, noconfirm: false });
    load_up_to_tags(&mut m, "1.2.0", Some(metadata_doc("1.2.0")));
    let a = m.step(Event::TagsFetched { tags: vec![b"1.2.0".to_vec()] });
    assert!(matches!(a, Action::ReadRecipe));
}

#[test]
fn empty_tag_list_fails_the_run() {
    let mut m = Pipeline::new(options());
    load_up_to_tags(&mut m, "1.2.0", None);
    let a = m.step(Event::TagsFetched { tags: vec![] });
    match a {
        Action::Stop { outcome } => {
            assert!(matches!(outcome, Outcome::Failed { kind: ErrorKind::ProtocolError, .. }));
        },
        _ => panic!("expected a failure on an empty tag list"),
    }
}

#[test]
fn invalid_pattern_fails_before_fetching() {
    let mut m = Pipeline::new(options());
    let a = m.step(Event::StateLoaded { tag: b"1.0.0".to_vec() });
    assert!(matches!(a, Action::LoadConfig));
    let a = m.step(Event::ConfigLoaded { pattern: "(".to_owned() });
    match a {
        Action::Stop { outcome } => {
            assert!(matches!(outcome, Outcome::Failed { kind: ErrorKind::InvalidPattern, .. }));
        },
        _ => panic!("expected the bad pattern to stop the run"),
    }
}

#[test]
fn version_gate_rejects_a_malformed_computed_version() {
    let mut m = Pipeline::new(options());
    load_up_to_tags(&mut m, "1.1.0", Some(metadata_doc("v2-beta")));
    let a = m.step(Event::TagsFetched { tags: vec![b"v2-beta".to_vec(), b"1.1.0".to_vec()] });
    assert!(matches!(a, Action::ReadRecipe));
    let a = m.step(Event::RecipeRead { content: b"_pkgtag=1.1.0\npkgrel=1".to_vec() });
    assert!(matches!(a, Action::WriteRecipe { .. }));
    let a = m.step(Event::RecipeWritten);
    assert!(matches!(a, Action::SyncChecksums));
    let a = m.step(Event::ChecksumsSynced);
    assert!(matches!(a, Action::RegenerateMetadata));
    // the recomputed version equals the recorded one, so no reset happens,
    // but it fails the format gate before anything is persisted
    let a = m.step(Event::MetadataRegenerated { output: metadata_doc("v2-beta") });
    match a {
        Action::Stop { outcome } => {
            assert!(matches!(outcome, Outcome::Failed { kind: ErrorKind::VersionFormatError, .. }));
        },
        _ => panic!("expected the version gate to stop the run"),
    }
}

#[test]
fn release_counter_is_untouched_when_the_build_version_is_unchanged() {
    let mut m = Pipeline::new(Options { force: true, dryrun: false, noconfirm: false });
    load_up_to_tags(&mut m, "1.2.0", Some(metadata_doc("1.2.0")));
    let a = m.step(Event::TagsFetched { tags: vec![b"1.2.0".to_vec()] });
    assert!(matches!(a, Action::ReadRecipe));
    let a = m.step(Event::RecipeRead { content: b"_pkgtag=1.2.0\npkgrel=4".to_vec() });
    assert!(matches!(a, Action::WriteRecipe { .. }));
    let a = m.step(Event::RecipeWritten);
    assert!(matches!(a, Action::SyncChecksums));
    let a = m.step(Event::ChecksumsSynced);
    assert!(matches!(a, Action::RegenerateMetadata));
    let regenerated = metadata_doc("1.2.0");
    let a = m.step(Event::MetadataRegenerated { output: regenerated.clone() });
    match a {
        Action::WriteMetadata { content } => assert_eq!(content, regenerated),
        _ => panic!("expected the metadata write, with no second recipe pass"),
    }
}

#[test]
fn end_to_end_update_with_release_reset() {
    let mut m = Pipeline::new(options());
    load_up_to_tags(&mut m, "1.1.0", Some(metadata_doc("1.1.0")));

    let a = m.step(Event::TagsFetched { tags: vec![b"1.2.0".to_vec(), b"1.1.0".to_vec()] });
    assert!(matches!(a, Action::ReadRecipe));

    let recipe = b"pkgname=demo\n_pkgtag=1.1.0\npkgrel=4\nsource=(x)".to_vec();
    let a = m.step(Event::RecipeRead { content: recipe });
    let mutated = match a {
        Action::WriteRecipe { content } => content,
        _ => panic!("expected the version line rewrite"),
    };
    assert_eq!(
        String::from_utf8(mutated.clone()).unwrap(),
        "pkgname=demo\n_pkgtag=1.2.0 #auto updated by CI\npkgrel=4\nsource=(x)"
    );

    let a = m.step(Event::RecipeWritten);
    assert!(matches!(a, Action::SyncChecksums));
    let a = m.step(Event::ChecksumsSynced);
    assert!(matches!(a, Action::RegenerateMetadata));

    // the build version moved from 1.1.0 to 1.2.0: the release counter resets
    let a = m.step(Event::MetadataRegenerated { output: metadata_doc("1.2.0") });
    assert!(matches!(a, Action::ReadRecipe));
    let a = m.step(Event::RecipeRead { content: mutated });
    let reset = match a {
        Action::WriteRecipe { content } => content,
        _ => panic!("expected the release-counter rewrite"),
    };
    assert_eq!(
        String::from_utf8(reset).unwrap(),
        "pkgname=demo\n_pkgtag=1.2.0 #auto updated by CI\npkgrel=1 #auto reset by CI\nsource=(x)"
    );
    let a = m.step(Event::RecipeWritten);
    assert!(matches!(a, Action::RegenerateMetadata));

    let final_metadata = metadata_doc("1.2.0");
    let a = m.step(Event::MetadataRegenerated { output: final_metadata.clone() });
    match a {
        Action::WriteMetadata { content } => assert_eq!(content, final_metadata),
        _ => panic!("expected the metadata to be written next"),
    }

    let a = m.step(Event::MetadataWritten);
    assert!(matches!(a, Action::RunBuild { noconfirm: false }));

    let a = m.step(Event::BuildVerified);
    let state = match a {
        Action::SaveState { content } => content,
        _ => panic!("expected the state write"),
    };
    assert_eq!(
        String::from_utf8(state).unwrap(),
        "{\n  \"appliedVersion\": \"1.2.0\"\n}"
    );

    let a = m.step(Event::StateSaved);
    match a {
        Action::Publish { message } => {
            assert_eq!(String::from_utf8(message).unwrap(), "auto update to 1.2.0");
        },
        _ => panic!("expected the commit and push"),
    }
    let a = m.step(Event::Published);
    match a {
        Action::Stop { outcome } => assert_eq!(outcome, Outcome::Updated),
        _ => panic!("expected the run to end updated"),
    }
}

#[test]
fn dry_run_persists_but_does_not_publish() {
    let mut m = Pipeline::new(Options { force: false, dryrun: true, noconfirm: true });
    load_up_to_tags(&mut m, "1.1.0", None);
    let a = m.step(Event::TagsFetched { tags: vec![b"1.2.0".to_vec()] });
    assert!(matches!(a, Action::ReadRecipe));
    let a = m.step(Event::RecipeRead { content: b"_pkgtag=1.1.0\npkgrel=2".to_vec() });
    assert!(matches!(a, Action::WriteRecipe { .. }));
    let a = m.step(Event::RecipeWritten);
    assert!(matches!(a, Action::SyncChecksums));
    let a = m.step(Event::ChecksumsSynced);
    assert!(matches!(a, Action::RegenerateMetadata));
    // no previous metadata was on disk, so the computed version counts as changed
    let a = m.step(Event::MetadataRegenerated { output: metadata_doc("1.2.0") });
    assert!(matches!(a, Action::ReadRecipe));
    let a = m.step(Event::RecipeRead { content: b"_pkgtag=1.2.0 #auto updated by CI\npkgrel=2".to_vec() });
    assert!(matches!(a, Action::WriteRecipe { .. }));
    let a = m.step(Event::RecipeWritten);
    assert!(matches!(a, Action::RegenerateMetadata));
    let a = m.step(Event::MetadataRegenerated { output: metadata_doc("1.2.0") });
    assert!(matches!(a, Action::WriteMetadata { .. }));
    let a = m.step(Event::MetadataWritten);
    assert!(matches!(a, Action::RunBuild { noconfirm: true }));
    let a = m.step(Event::BuildVerified);
    assert!(matches!(a, Action::SaveState { .. }));
    let a = m.step(Event::StateSaved);
    match a {
        Action::Stop { outcome } => assert_eq!(outcome, Outcome::Updated),
        _ => panic!("expected a dry run to stop right after persisting"),
    }
}

#[test]
fn second_run_after_an_update_touches_nothing() {
    // first run: a full update applying 1.2.0, as in the end-to-end scenario
    let mut first = Pipeline::new(options());
    load_up_to_tags(&mut first, "1.1.0", Some(metadata_doc("1.1.0")));
    let a = first.step(Event::TagsFetched { tags: vec![b"1.2.0".to_vec(), b"1.1.0".to_vec()] });
    assert!(matches!(a, Action::ReadRecipe));
    let a = first.step(Event::RecipeRead { content: b"_pkgtag=1.1.0\npkgrel=1".to_vec() });
    assert!(matches!(a, Action::WriteRecipe { .. }));
    let a = first.step(Event::RecipeWritten);
    assert!(matches!(a, Action::SyncChecksums));
    let a = first.step(Event::ChecksumsSynced);
    assert!(matches!(a, Action::RegenerateMetadata));
    let a = first.step(Event::MetadataRegenerated { output: metadata_doc("1.2.0") });
    assert!(matches!(a, Action::ReadRecipe));
    let a = first.step(Event::RecipeRead { content: b"_pkgtag=1.2.0 #auto updated by CI\npkgrel=1".to_vec() });
    assert!(matches!(a, Action::WriteRecipe { .. }));
    let a = first.step(Event::RecipeWritten);
    assert!(matches!(a, Action::RegenerateMetadata));
    let a = first.step(Event::MetadataRegenerated { output: metadata_doc("1.2.0") });
    assert!(matches!(a, Action::WriteMetadata { .. }));
    let a = first.step(Event::MetadataWritten);
    assert!(matches!(a, Action::RunBuild { .. }));
    let a = first.step(Event::BuildVerified);
    let persisted = match a {
        Action::SaveState { content } => content,
        _ => panic!("expected the state write"),
    };
    let a = first.step(Event::StateSaved);
    assert!(matches!(a, Action::Publish { .. }));
    let a = first.step(Event::Published);
    assert!(matches!(a, Action::Stop { outcome: Outcome::Updated }));

    // what the first run persisted names the candidate it applied
    let value: serde_json::Value =
        serde_json::from_str(&String::from_utf8(persisted).unwrap()).unwrap();
    let reloaded = value["appliedVersion"].as_str().unwrap().to_owned();
    assert_eq!(reloaded, "1.2.0");

    // second run: same provider answer, no force; nothing is asked for but
    // the loads, and the run ends successfully up to date
    let mut second = Pipeline::new(options());
    load_up_to_tags(&mut second, &reloaded, Some(metadata_doc("1.2.0")));
    let a = second.step(Event::TagsFetched { tags: vec![b"1.2.0".to_vec(), b"1.1.0".to_vec()] });
    match a {
        Action::Stop { outcome } => assert_eq!(outcome, Outcome::UpToDate),
        _ => panic!("expected the second run to short-circuit"),
    }
}

#[test]
fn outside_failures_are_absorbed_with_their_stage() {
    let mut m = Pipeline::new(options());
    let a = m.step(Event::StateLoaded { tag: b"1.0.0".to_vec() });
    assert!(matches!(a, Action::LoadConfig));
    let a = m.step(Event::Failed { kind: ErrorKind::ConfigMissing });
    match a {
        Action::Stop { outcome } => {
            assert!(matches!(outcome, Outcome::Failed { kind: ErrorKind::ConfigMissing, .. }));
        },
        _ => panic!("expected the failure to end the run"),
    }
}

#[test]
fn unusable_metadata_is_a_protocol_error() {
    let mut m = Pipeline::new(options());
    let a = m.step(Event::StateLoaded { tag: b"1.0.0".to_vec() });
    assert!(matches!(a, Action::LoadConfig));
    let a = m.step(Event::ConfigLoaded { pattern: default_pkgver_regex() });
    assert!(matches!(a, Action::LoadMetadata));
    let a = m.step(Event::MetadataLoaded { content: Some(b"not a metadata document".to_vec()) });
    match a {
        Action::Stop { outcome } => {
            assert!(matches!(outcome, Outcome::Failed { kind: ErrorKind::ProtocolError, .. }));
        },
        _ => panic!("expected undecodable metadata to stop the run"),
    }
}

#[test]
fn tool_and_publish_failures_carry_their_stage_and_kind() {
    let mut m = Pipeline::new(Options { force: true, dryrun: false, noconfirm: false });
    load_up_to_tags(&mut m, "1.0.0", Some(metadata_doc("1.0.0")));
    let a = m.step(Event::TagsFetched { tags: vec![b"1.0.0".to_vec()] });
    assert!(matches!(a, Action::ReadRecipe));
    let a = m.step(Event::RecipeRead { content: b"_pkgtag=1.0.0\npkgrel=1".to_vec() });
    assert!(matches!(a, Action::WriteRecipe { .. }));
    let a = m.step(Event::RecipeWritten);
    assert!(matches!(a, Action::SyncChecksums));
    // the checksum tool fails with a non-zero exit
    let a = m.step(Event::Failed { kind: ErrorKind::BuildToolError { exit_code: 8 } });
    match a {
        Action::Stop { outcome } => assert_eq!(
            outcome,
            Outcome::Failed {
                stage: aur_updater::pipeline::Stage::SyncChecksums,
                kind: ErrorKind::BuildToolError { exit_code: 8 },
            }
        ),
        _ => panic!("expected the tool failure to stop the run"),
    }

    let mut m = Pipeline::new(Options { force: true, dryrun: false, noconfirm: false });
    load_up_to_tags(&mut m, "1.0.0", Some(metadata_doc("1.0.0")));
    let a = m.step(Event::TagsFetched { tags: vec![b"1.0.0".to_vec()] });
    assert!(matches!(a, Action::ReadRecipe));
    let a = m.step(Event::RecipeRead { content: b"_pkgtag=1.0.0\npkgrel=1".to_vec() });
    assert!(matches!(a, Action::WriteRecipe { .. }));
    let a = m.step(Event::RecipeWritten);
    assert!(matches!(a, Action::SyncChecksums));
    let a = m.step(Event::ChecksumsSynced);
    assert!(matches!(a, Action::RegenerateMetadata));
    let a = m.step(Event::MetadataRegenerated { output: metadata_doc("1.0.0") });
    assert!(matches!(a, Action::WriteMetadata { .. }));
    let a = m.step(Event::MetadataWritten);
    assert!(matches!(a, Action::RunBuild { .. }));
    let a = m.step(Event::BuildVerified);
    assert!(matches!(a, Action::SaveState { .. }));
    let a = m.step(Event::StateSaved);
    assert!(matches!(a, Action::Publish { .. }));
    // the push is rejected
    let a = m.step(Event::Failed { kind: ErrorKind::PublishError });
    match a {
        Action::Stop { outcome } => assert_eq!(
            outcome,
            Outcome::Failed {
                stage: aur_updater::pipeline::Stage::Publish,
                kind: ErrorKind::PublishError,
            }
        ),
        _ => panic!("expected the publish failure to stop the run"),
    }
}

#[test]
fn one_failing_package_fails_the_whole_run_but_only_that_package() {
    let mut outcomes: Vec<Outcome> = Vec::new();
    for (i, applied) in ["1.0.0", "2.0.0", "3.0.0"].iter().enumerate() {
        let mut m = Pipeline::new(options());
        let a = m.step(Event::StateLoaded { tag: applied.as_bytes().to_vec() });
        assert!(matches!(a, Action::LoadConfig));
        let a = if i == 1 {
            // the second package's configuration is missing
            m.step(Event::Failed { kind: ErrorKind::ConfigMissing })
        } else {
            let a = m.step(Event::ConfigLoaded { pattern: default_pkgver_regex() });
            assert!(matches!(a, Action::LoadMetadata));
            let a = m.step(Event::MetadataLoaded { content: None });
            assert!(matches!(a, Action::FetchTags));
            m.step(Event::TagsFetched { tags: vec![applied.as_bytes().to_vec()] })
        };
        match a {
            Action::Stop { outcome } => outcomes.push(outcome),
            _ => panic!("every package's run should have ended"),
        }
    }
    assert_eq!(outcomes[0], Outcome::UpToDate);
    assert!(matches!(outcomes[1], Outcome::Failed { kind: ErrorKind::ConfigMissing, .. }));
    assert_eq!(outcomes[2], Outcome::UpToDate);
    assert_eq!(count_failures(&outcomes), 1);
    assert_eq!(aggregate_exit_code(&outcomes), 1);
    let all_good = vec![Outcome::Updated, Outcome::UpToDate];
    assert_eq!(count_failures(&all_good), 0);
    assert_eq!(aggregate_exit_code(&all_good), 0);
}
