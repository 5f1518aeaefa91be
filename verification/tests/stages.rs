use gpm::archive::{collect_members, MemberOutcome};
use gpm::error::InstallError;
use gpm::fetch::{format_u64, range_header, verify_size};
use gpm::install::{cache_paths, split_repo};
use gpm::link::{base_name, link_decision, resolve_link_outcome, HostKind, LinkDecision, LinkOutcome};

#[test]
fn empty_file_needs_no_range_request() {
    assert!(range_header(0).is_none());
}

#[test]
fn partial_file_resumes_at_its_offset() {
    let expected: u64 = 2048;
    let half = expected / 2;
    let header = range_header(half).expect("a partial file calls for a range request");
    assert_eq!(header, "bytes=1024-");
}

#[test]
fn decimal_rendering_is_exact() {
    assert_eq!(format_u64(0), "0");
    assert_eq!(format_u64(7), "7");
    assert_eq!(format_u64(907), "907");
    assert_eq!(format_u64(18446744073709551615), "18446744073709551615");
}

#[test]
fn completed_download_of_declared_size_is_trusted() {
    assert!(verify_size(2048, 2048).is_ok());
}

#[test]
fn size_mismatch_is_reported_with_both_sizes() {
    match verify_size(1500, 2048) {
        Err(InstallError::SizeMismatch { actual, expected }) => {
            assert_eq!(actual, 1500);
            assert_eq!(expected, 2048);
        }
        other => panic!("expected a size mismatch, got {other:?}"),
    }
}

#[test]
fn already_existing_member_does_not_abort_later_members() {
    let outcomes = vec![
        MemberOutcome::Extracted { path: "/x/extract/bin/tool".to_string() },
        MemberOutcome::AlreadyExists,
        MemberOutcome::Extracted { path: "/x/extract/share/doc".to_string() },
    ];
    let collected = collect_members(&outcomes).expect("already-exists is a no-op");
    assert_eq!(collected, vec!["/x/extract/bin/tool", "/x/extract/share/doc"]);
}

#[test]
fn first_fatal_member_outcome_aborts_extraction() {
    let outcomes = vec![
        MemberOutcome::Extracted { path: "/x/a".to_string() },
        MemberOutcome::Failed { message: "disk full".to_string() },
        MemberOutcome::Extracted { path: "/x/b".to_string() },
    ];
    match collect_members(&outcomes) {
        Err(InstallError::ExtractionFailed { message }) => assert_eq!(message, "disk full"),
        other => panic!("expected extraction failure, got {other:?}"),
    }
}

#[test]
fn base_name_takes_the_last_path_segment() {
    assert_eq!(base_name(&"/home/u/.cache/gpm/a/b/v1/extract/bin/tool".to_string()), "tool");
    assert_eq!(base_name(&"plain-file".to_string()), "plain-file");
}

#[test]
fn split_repo_splits_owner_and_name_at_the_first_slash() {
    let (owner, name) = split_repo(&"starship/starship".to_string()).unwrap();
    assert_eq!(owner, "starship");
    assert_eq!(name, "starship");
    let (owner, name) = split_repo(&"a/b/c".to_string()).unwrap();
    assert_eq!(owner, "a");
    assert_eq!(name, "b/c");
}

#[test]
fn repo_without_slash_is_rejected() {
    assert!(split_repo(&"noslash".to_string()).is_none());
}

#[test]
fn cache_layout_is_keyed_by_repo_and_tag() {
    let paths = cache_paths(
        &"/home/u".to_string(),
        &"acme/tool".to_string(),
        &"v1.0".to_string(),
        &"tool-x86_64-linux-gnu.tar.gz".to_string(),
    );
    assert_eq!(paths.release_dir, "/home/u/.cache/gpm/acme/tool/v1.0");
    assert_eq!(paths.download_dir, "/home/u/.cache/gpm/acme/tool/v1.0/download");
    assert_eq!(
        paths.asset_path,
        "/home/u/.cache/gpm/acme/tool/v1.0/download/tool-x86_64-linux-gnu.tar.gz"
    );
    assert_eq!(paths.extract_dir, "/home/u/.cache/gpm/acme/tool/v1.0/extract");
}

fn elf_bytes() -> Vec<u8> {
    let mut buf = vec![0u8; 64];
    buf[0] = 0x7f;
    buf[1] = b'E';
    buf[2] = b'L';
    buf[3] = b'F';
    buf
}

#[test]
fn elf_content_is_linkable_on_unix_hosts() {
    let buf = elf_bytes();
    let r = link_decision(&buf, HostKind::OtherUnix, &"/x/tool".to_string());
    assert!(matches!(r, Ok(LinkDecision::Link)));
}

#[test]
fn elf_content_is_skipped_on_windows_hosts() {
    let buf = elf_bytes();
    let r = link_decision(&buf, HostKind::Windows, &"/x/tool".to_string());
    assert!(matches!(r, Ok(LinkDecision::Skip)));
}

#[test]
fn unrecognized_content_fails_with_the_candidate_path() {
    let buf = vec![0u8; 16];
    match link_decision(&buf, HostKind::OtherUnix, &"/x/mystery".to_string()) {
        Err(InstallError::UnknownFileType { path }) => assert_eq!(path, "/x/mystery"),
        other => panic!("expected an unknown file type, got {other:?}"),
    }
}

#[test]
fn recognized_non_executable_content_is_skipped() {
    // A PNG header: recognized content, but no platform's executable flavor.
    let buf = vec![0x89, b'P', b'N', b'G', 0x0d, 0x0a, 0x1a, 0x0a, 0, 0, 0, 0];
    let r = link_decision(&buf, HostKind::OtherUnix, &"/x/logo.png".to_string());
    assert!(matches!(r, Ok(LinkDecision::Skip)));
}

#[test]
fn existing_link_counts_as_success() {
    assert!(resolve_link_outcome(&LinkOutcome::AlreadyExists).is_ok());
    assert!(resolve_link_outcome(&LinkOutcome::Created).is_ok());
}

#[test]
fn other_link_failures_are_fatal() {
    let outcome = LinkOutcome::Failed { message: "permission denied".to_string() };
    match resolve_link_outcome(&outcome) {
        Err(InstallError::LinkFailed { message }) => assert_eq!(message, "permission denied"),
        other => panic!("expected a link failure, got {other:?}"),
    }
}
