use gpm::archive::MemberOutcome;
use gpm::error::InstallError;
use gpm::install::GpmInstallOpts;
use gpm::link::{HostKind, LinkOutcome};
use gpm::pipeline::{
    on_candidate, on_download, on_link, on_member, on_members, on_prepared, on_release, start,
    Action, PipelineState, ReleaseInfo,
};
use gpm::platform::Libc;
use gpm::select::ReleaseAsset;

fn opts() -> GpmInstallOpts {
    GpmInstallOpts {
        repo: "acme/tool".to_string(),
        tag: "latest".to_string(),
        arch: "x86_64".to_string(),
        os: "Linux".to_string(),
        libc: Libc::Gnu,
        bin_dir: "/home/u/.local/bin".to_string(),
    }
}

fn release(assets: Vec<ReleaseAsset>) -> ReleaseInfo {
    ReleaseInfo { tag_name: "v1.0".to_string(), assets }
}

fn archive_asset() -> ReleaseAsset {
    ReleaseAsset {
        name: "tool-x86_64-linux-gnu.tar.gz".to_string(),
        url: "https://example.invalid/tool-x86_64-linux-gnu.tar.gz".to_string(),
        size: 2048,
    }
}

fn elf_bytes() -> Vec<u8> {
    let mut buf = vec![0u8; 64];
    buf[0] = 0x7f;
    buf[1] = b'E';
    buf[2] = b'L';
    buf[3] = b'F';
    buf
}

const ASSET_PATH: &str =
    "/home/u/.cache/gpm/acme/tool/v1.0/download/tool-x86_64-linux-gnu.tar.gz";
const EXTRACT_DIR: &str = "/home/u/.cache/gpm/acme/tool/v1.0/extract";

#[test]
fn latest_tag_asks_for_the_latest_release() {
    let (state, action) = start(opts());
    assert!(matches!(state, PipelineState::AwaitRelease { .. }));
    match action {
        Action::LookupRelease { owner, name, tag } => {
            assert_eq!(owner, "acme");
            assert_eq!(name, "tool");
            assert!(tag.is_none());
        }
        other => panic!("expected a lookup, got {other:?}"),
    }
}

#[test]
fn explicit_tag_asks_for_that_tag() {
    let mut o = opts();
    o.tag = "v2.3".to_string();
    let (_, action) = start(o);
    match action {
        Action::LookupRelease { tag, .. } => assert_eq!(tag.unwrap(), "v2.3"),
        other => panic!("expected a lookup, got {other:?}"),
    }
}

#[test]
fn repo_without_separator_fails_before_any_lookup() {
    let mut o = opts();
    o.repo = "toolonly".to_string();
    let (state, action) = start(o);
    assert!(matches!(action, Action::Stop));
    match state {
        PipelineState::Failed { error: InstallError::InvalidRepo { repo } } => {
            assert_eq!(repo, "toolonly")
        }
        other => panic!("expected an invalid repo, got {other:?}"),
    }
}

#[test]
fn lookup_failure_is_fatal() {
    let (state, _) = start(opts());
    let (state, action) = on_release(state, Err("404".to_string()), &"/home/u".to_string());
    assert!(matches!(action, Action::Stop));
    assert!(matches!(
        state,
        PipelineState::Failed { error: InstallError::LookupFailed { .. } }
    ));
}

#[test]
fn no_matching_asset_reports_the_requested_platform() {
    let (state, _) = start(opts());
    let info = release(vec![ReleaseAsset {
        name: "tool-arm64-darwin.tar.gz".to_string(),
        url: "https://example.invalid/a".to_string(),
        size: 10,
    }]);
    let (state, _) = on_release(state, Ok(info), &"/home/u".to_string());
    match state {
        PipelineState::Failed { error: InstallError::NoMatchingAsset { arch, os } } => {
            assert_eq!(arch, "x86_64");
            assert_eq!(os, "Linux");
        }
        other => panic!("expected no matching asset, got {other:?}"),
    }
}

#[test]
fn ambiguous_assets_report_every_surviving_name() {
    let (state, _) = start(opts());
    let info = release(vec![
        ReleaseAsset {
            name: "tool-x86_64-linux-one.tar.gz".to_string(),
            url: "https://example.invalid/1".to_string(),
            size: 10,
        },
        ReleaseAsset {
            name: "tool-x86_64-linux-two.tar.gz".to_string(),
            url: "https://example.invalid/2".to_string(),
            size: 10,
        },
    ]);
    let (state, _) = on_release(state, Ok(info), &"/home/u".to_string());
    match state {
        PipelineState::Failed { error: InstallError::AmbiguousAssets { names } } => {
            assert_eq!(names, vec!["tool-x86_64-linux-one.tar.gz", "tool-x86_64-linux-two.tar.gz"]);
        }
        other => panic!("expected ambiguity, got {other:?}"),
    }
}

#[test]
fn selection_prepares_the_cache_for_the_chosen_asset() {
    let (state, _) = start(opts());
    let (state, action) =
        on_release(state, Ok(release(vec![archive_asset()])), &"/home/u".to_string());
    assert!(matches!(state, PipelineState::AwaitFileLen { .. }));
    match action {
        Action::PrepareDownload { download_dir, asset_path, bin_dir } => {
            assert_eq!(download_dir, "/home/u/.cache/gpm/acme/tool/v1.0/download");
            assert_eq!(asset_path, ASSET_PATH);
            assert_eq!(bin_dir, "/home/u/.local/bin");
        }
        other => panic!("expected download preparation, got {other:?}"),
    }
}

fn reach_download(existing_len: u64) -> (PipelineState, Action) {
    let (state, _) = start(opts());
    let (state, _) = on_release(state, Ok(release(vec![archive_asset()])), &"/home/u".to_string());
    on_prepared(state, existing_len)
}

#[test]
fn half_downloaded_file_resumes_with_a_range_request() {
    let (_, action) = reach_download(1024);
    match action {
        Action::Download { url, dest, range } => {
            assert_eq!(url, "https://example.invalid/tool-x86_64-linux-gnu.tar.gz");
            assert_eq!(dest, ASSET_PATH);
            assert_eq!(range.unwrap(), "bytes=1024-");
        }
        other => panic!("expected a download, got {other:?}"),
    }
}

#[test]
fn fresh_download_needs_no_range_request() {
    let (_, action) = reach_download(0);
    match action {
        Action::Download { range, .. } => assert!(range.is_none()),
        other => panic!("expected a download, got {other:?}"),
    }
}

#[test]
fn short_download_fails_with_a_size_mismatch() {
    let (state, _) = reach_download(0);
    let (state, _) = on_download(state, Ok(1500));
    match state {
        PipelineState::Failed { error: InstallError::SizeMismatch { actual, expected } } => {
            assert_eq!(actual, 1500);
            assert_eq!(expected, 2048);
        }
        other => panic!("expected a size mismatch, got {other:?}"),
    }
}

#[test]
fn verified_archive_is_listed_for_extraction() {
    let (state, _) = reach_download(0);
    let (state, action) = on_download(state, Ok(2048));
    assert!(matches!(state, PipelineState::AwaitMembers { .. }));
    match action {
        Action::ListMembers { archive, extract_dir } => {
            assert_eq!(archive, ASSET_PATH);
            assert_eq!(extract_dir, EXTRACT_DIR);
        }
        other => panic!("expected a member listing, got {other:?}"),
    }
}

#[test]
fn verified_raw_binary_goes_straight_to_inspection() {
    let (state, _) = start(opts());
    let raw = ReleaseAsset {
        name: "tool-x86_64-linux-gnu".to_string(),
        url: "https://example.invalid/tool-x86_64-linux-gnu".to_string(),
        size: 2048,
    };
    let (state, _) = on_release(state, Ok(release(vec![raw])), &"/home/u".to_string());
    let (state, _) = on_prepared(state, 0);
    let (state, action) = on_download(state, Ok(2048));
    assert!(matches!(state, PipelineState::Linking { .. }));
    match action {
        Action::InspectFile { path } => {
            assert_eq!(path, "/home/u/.cache/gpm/acme/tool/v1.0/download/tool-x86_64-linux-gnu")
        }
        other => panic!("expected an inspection, got {other:?}"),
    }
}

fn reach_extracting() -> (PipelineState, Action) {
    let (state, _) = reach_download(0);
    let (state, _) = on_download(state, Ok(2048));
    on_members(
        state,
        Ok(vec!["bin/tool".to_string(), "README.md".to_string()]),
    )
}

#[test]
fn members_are_extracted_one_at_a_time() {
    let (state, action) = reach_extracting();
    assert!(matches!(state, PipelineState::Extracting { .. }));
    match action {
        Action::ExtractMember { archive, extract_dir, member } => {
            assert_eq!(archive, ASSET_PATH);
            assert_eq!(extract_dir, EXTRACT_DIR);
            assert_eq!(member, "bin/tool");
        }
        other => panic!("expected a member extraction, got {other:?}"),
    }
}

#[test]
fn full_install_reaches_done_and_links_the_binary() {
    let (state, _) = reach_extracting();
    let tool_path = format!("{EXTRACT_DIR}/bin/tool");
    let (state, action) = on_member(state, MemberOutcome::Extracted { path: tool_path.clone() });
    match action {
        Action::ExtractMember { member, .. } => assert_eq!(member, "README.md"),
        other => panic!("expected the second member, got {other:?}"),
    }
    let doc_path = format!("{EXTRACT_DIR}/README.md");
    let (state, action) = on_member(state, MemberOutcome::Extracted { path: doc_path });
    match &action {
        Action::InspectFile { path } => assert_eq!(path, &tool_path),
        other => panic!("expected an inspection, got {other:?}"),
    }
    let (state, action) = on_candidate(state, Ok(elf_bytes()), HostKind::OtherUnix);
    match action {
        Action::Symlink { target, link_path } => {
            assert_eq!(target, tool_path);
            assert_eq!(link_path, "/home/u/.local/bin/tool");
        }
        other => panic!("expected a symlink, got {other:?}"),
    }
    let (state, action) = on_link(state, LinkOutcome::Created);
    // The second candidate is the README: recognized content would be
    // skipped; here inspection cannot type it, which is fatal only for the
    // file actually inspected, so feed it recognizable non-executable bytes.
    let (state, action) = match action {
        Action::InspectFile { .. } => {
            let png = vec![0x89, b'P', b'N', b'G', 0x0d, 0x0a, 0x1a, 0x0a, 0, 0, 0, 0];
            on_candidate(state, Ok(png), HostKind::OtherUnix)
        }
        other => panic!("expected an inspection, got {other:?}"),
    };
    assert!(matches!(state, PipelineState::Done));
    assert!(matches!(action, Action::Stop));
}

#[test]
fn rerun_with_everything_on_disk_reaches_done_without_error() {
    let (state, _) = reach_extracting();
    let (state, _) = on_member(state, MemberOutcome::AlreadyExists);
    let (state, action) = on_member(state, MemberOutcome::AlreadyExists);
    assert!(matches!(state, PipelineState::Done));
    assert!(matches!(action, Action::Stop));
}

#[test]
fn existing_link_does_not_fail_the_rerun() {
    let (state, _) = reach_extracting();
    let tool_path = format!("{EXTRACT_DIR}/bin/tool");
    let (state, _) = on_member(state, MemberOutcome::Extracted { path: tool_path });
    let (state, _) = on_member(state, MemberOutcome::AlreadyExists);
    let (state, _) = on_candidate(state, Ok(elf_bytes()), HostKind::OtherUnix);
    let (state, action) = on_link(state, LinkOutcome::AlreadyExists);
    assert!(matches!(state, PipelineState::Done));
    assert!(matches!(action, Action::Stop));
}

#[test]
fn fatal_member_failure_aborts_with_its_message() {
    let (state, _) = reach_extracting();
    let (state, action) = on_member(
        state,
        MemberOutcome::Failed { message: "corrupt entry".to_string() },
    );
    assert!(matches!(action, Action::Stop));
    match state {
        PipelineState::Failed { error: InstallError::ExtractionFailed { message } } => {
            assert_eq!(message, "corrupt entry")
        }
        other => panic!("expected an extraction failure, got {other:?}"),
    }
}

#[test]
fn download_failure_is_fatal_but_distinct() {
    let (state, _) = reach_download(0);
    let (state, _) = on_download(state, Err("connection reset".to_string()));
    assert!(matches!(
        state,
        PipelineState::Failed { error: InstallError::DownloadFailed { .. } }
    ));
}

#[test]
fn empty_member_list_finishes_without_linking() {
    let (state, _) = reach_download(0);
    let (state, _) = on_download(state, Ok(2048));
    let (state, action) = on_members(state, Ok(vec![]));
    assert!(matches!(state, PipelineState::Done));
    assert!(matches!(action, Action::Stop));
}
