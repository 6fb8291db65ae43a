use deploy::checksum::{
    mktemp_command, parse_mktemp_output, ChecksumDiffEngine, ChecksumMap,
};
use deploy::config::{parse_credentials, AuthMethod, Config, DeployPackage, DeployTarget, FatalError};
use deploy::actions::RemoteActionRunner;
use deploy::digest::local_digest;
use deploy::packaging::{normalize_path, PackageCreator};

fn strings(v: &[&str]) -> Vec<String> {
    v.iter().map(|s| s.to_string()).collect()
}

#[test]
fn batches_of_five_files_at_two() {
    // Splitting N paths at batch size B yields ceil(N/B) batches, each of
    // at most B entries, and their concatenation reproduces the list.
    let engine = ChecksumDiffEngine::with_batch_limit(2);
    let files = strings(&["a", "b", "c", "d", "e"]);
    let batches = engine.split_into_batches(&files);
    assert_eq!(batches.len(), 3);
    assert_eq!(batches[0], strings(&["a", "b"]));
    assert_eq!(batches[1], strings(&["c", "d"]));
    assert_eq!(batches[2], strings(&["e"]));
    let rejoined: Vec<String> = batches.into_iter().flatten().collect();
    assert_eq!(rejoined, files);
}

#[test]
fn batches_exact_multiple_and_empty() {
    let engine = ChecksumDiffEngine::with_batch_limit(2);
    assert_eq!(engine.split_into_batches(&strings(&["a", "b", "c", "d"])).len(), 2);
    assert_eq!(engine.split_into_batches(&strings(&[])).len(), 0);
    let default_engine = ChecksumDiffEngine::new();
    assert_eq!(default_engine.batch_limit, 512);
}

#[test]
fn checksum_command_quotes_each_remote_path() {
    let engine = ChecksumDiffEngine::new();
    let cmd = engine.build_checksum_command(
        true,
        &"/opt/app".to_string(),
        &strings(&["/a.txt", "/sub/b.txt"]),
    );
    assert_eq!(cmd, "sudo sha1sum \"/opt/app/a.txt\" \"/opt/app/sub/b.txt\"");
    let bare = engine.build_checksum_command(false, &"/d".to_string(), &strings(&["/x"]));
    assert_eq!(bare, "sha1sum \"/d/x\"");
}

#[test]
fn checksum_output_is_parsed_positionally() {
    let engine = ChecksumDiffEngine::new();
    let out = "0a1b /opt/app/a.txt\nffee /opt/app/b.txt\n".to_string();
    let digests = engine.parse_checksum_output(&out, 3);
    assert_eq!(digests.len(), 3);
    assert_eq!(digests[0].as_deref(), Some("0a1b"));
    assert_eq!(digests[1].as_deref(), Some("ffee"));
    // The third file has no output line: it is absent remotely.
    assert_eq!(digests[2], None);
}

#[test]
fn empty_output_line_counts_as_absent() {
    let engine = ChecksumDiffEngine::new();
    let out = "\nabcd p\n".to_string();
    let digests = engine.parse_checksum_output(&out, 2);
    assert_eq!(digests[0], None);
    assert_eq!(digests[1].as_deref(), Some("abcd"));
}

#[test]
fn mktemp_round_trip() {
    assert_eq!(mktemp_command(), "mktemp");
    assert_eq!(parse_mktemp_output(&"/tmp/tmp.X9\n".to_string()), "/tmp/tmp.X9");
    assert_eq!(parse_mktemp_output(&"bare".to_string()), "bare");
}

#[test]
fn changed_files_selected_on_mismatch_or_absence() {
    let map = ChecksumMap::new(
        strings(&["/a", "/b", "/c"]),
        vec![
            Some(local_digest(b"same")),
            None,
            Some("0000000000000000000000000000000000000000".to_string()),
        ],
    );
    let creator = PackageCreator::new(&map);
    let local = vec![local_digest(b"same"), local_digest(b"new"), local_digest(b"other")];
    let changed = creator.prepare_package_for_target(&local);
    // "/a" matches, "/b" is absent remotely, "/c" differs.
    assert_eq!(changed, strings(&["/b", "/c"]));
}

#[test]
fn unchanged_remote_yields_empty_selection() {
    // Diffing right after a completed deployment selects nothing: the
    // remote digests equal the local ones.
    let d1 = local_digest(b"one");
    let d2 = local_digest(b"two");
    let map = ChecksumMap::new(strings(&["/a", "/b"]), vec![Some(d1.clone()), Some(d2.clone())]);
    let creator = PackageCreator::new(&map);
    let changed = creator.prepare_package_for_target(&vec![d1, d2]);
    assert!(changed.is_empty());
}

#[test]
fn path_normalization() {
    assert_eq!(
        normalize_path(&"/home/u/pkg".to_string(), &"/home/u/pkg/sub/f.txt".to_string()),
        "/sub/f.txt"
    );
    assert_eq!(
        normalize_path(&"C:\\dir".to_string(), &"C:\\dir\\sub\\f".to_string()),
        "sub/f"
    );
    // An entry outside the directory is kept, separators still normalized.
    assert_eq!(normalize_path(&"/x".to_string(), &"other\\p".to_string()), "other/p");
}

#[test]
fn collect_files_ext_appends_normalized_names() {
    let mut files: Vec<String> = Vec::new();
    PackageCreator::collect_files_ext(
        "/srv/pkg".to_string(),
        &strings(&["/srv/pkg/one", "/srv/pkg/d/two"]),
        &mut files,
    );
    assert_eq!(files, strings(&["/one", "/d/two"]));
}

#[test]
fn credentials_password() {
    let parsed =
        parse_credentials(&"password".to_string(), &"alice:s3cret".to_string()).unwrap();
    match parsed {
        AuthMethod::Password { username, password } => {
            assert_eq!(username, "alice");
            assert_eq!(password, "s3cret");
        }
        _ => panic!("expected password auth"),
    }
}

#[test]
fn credentials_certificate_with_and_without_passphrase() {
    match parse_credentials(&"certificate".to_string(), &"bob:/k/id:pp".to_string()).unwrap() {
        AuthMethod::Certificate { username, key_path, key_passphrase } => {
            assert_eq!(username, "bob");
            assert_eq!(key_path, "/k/id");
            assert_eq!(key_passphrase.as_deref(), Some("pp"));
        }
        _ => panic!("expected certificate auth"),
    }
    match parse_credentials(&"certificate".to_string(), &"bob:/k/id".to_string()).unwrap() {
        AuthMethod::Certificate { key_passphrase, .. } => assert_eq!(key_passphrase, None),
        _ => panic!("expected certificate auth"),
    }
}

#[test]
fn credentials_errors() {
    assert!(matches!(
        parse_credentials(&"password".to_string(), &"alice".to_string()),
        Err(FatalError::MalformedCredentials)
    ));
    assert!(matches!(
        parse_credentials(&"certificate".to_string(), &"onlyuser".to_string()),
        Err(FatalError::MalformedCredentials)
    ));
    assert!(matches!(
        parse_credentials(&"token".to_string(), &"a:b".to_string()),
        Err(FatalError::UnknownAuthKind)
    ));
}

fn sample_package() -> DeployPackage {
    DeployPackage {
        local_directory: "/src/web".to_string(),
        target_directory: "/opt/web".to_string(),
        pre_deploy_actions: Some(strings(&["systemctl stop web"])),
        post_deploy_actions: Some(strings(&["systemctl start web"])),
    }
}

#[test]
fn package_lookup_and_auth_entry() {
    let config = Config {
        use_sudo: Some(true),
        targets: vec![DeployTarget {
            name: None,
            host: "h".to_string(),
            port: 22,
            authentication: vec![],
            packages: strings(&["web"]),
        }],
        packages: vec![("web".to_string(), sample_package())],
    };
    assert_eq!(config.find_package(&"web".to_string()), Some(0));
    // A package name the configuration does not define: the fatal
    // missing-package case.
    assert_eq!(config.find_package(&"db".to_string()), None);
    // A target with no authentication entry at all: fatal as well.
    assert!(config.targets[0].auth_entry().is_none());
    let _ = FatalError::MissingPackage;
    let _ = FatalError::MissingAuthentication;
}

#[test]
fn post_deploy_command_sequence_order() {
    let runner = RemoteActionRunner::new(true);
    let cmds = runner.command_sequence(&sample_package(), &"/tmp/t.1".to_string());
    assert_eq!(
        cmds,
        strings(&[
            "systemctl stop web",
            "sudo tar -xzf '/tmp/t.1' --directory '/opt/web'",
            "systemctl start web",
            "sudo rm -f \"/tmp/t.1\"",
        ])
    );
}

#[test]
fn extract_and_cleanup_commands() {
    let runner = RemoteActionRunner::new(false);
    assert_eq!(
        runner.extract_command(&"/tmp/x".to_string(), &"/opt/a".to_string()),
        "tar -xzf '/tmp/x' --directory '/opt/a'"
    );
    assert_eq!(runner.cleanup_command(&"/tmp/x".to_string()), "rm -f \"/tmp/x\"");
}
