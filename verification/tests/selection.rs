use gpm::platform::{resolve, Libc, PlatformFilter};
use gpm::select::{select, ReleaseAsset, SelectOutcome};

fn asset(name: &str) -> ReleaseAsset {
    ReleaseAsset {
        name: name.to_string(),
        url: format!("https://example.invalid/{name}"),
        size: 1000,
    }
}

fn run(names: &[&str], arch: &str, os: &str, libc: Libc) -> SelectOutcome {
    let assets: Vec<ReleaseAsset> = names.iter().map(|n| asset(n)).collect();
    let filter: PlatformFilter = resolve(arch, os);
    select(&assets, &filter, libc)
}

#[test]
fn selects_single_matching_asset_and_excludes_checksum() {
    let r = run(
        &[
            "tool-x86_64-linux-gnu.tar.gz",
            "tool-aarch64-linux-gnu.tar.gz",
            "tool.sha256",
        ],
        "x86_64",
        "Linux",
        Libc::Gnu,
    );
    assert!(matches!(r, SelectOutcome::Selected(0)));
}

#[test]
fn musl_request_rejects_gnu_only_assets() {
    let r = run(&["tool-x86_64-linux-gnu.tar.gz"], "x86_64", "Linux", Libc::Musl);
    assert!(matches!(r, SelectOutcome::NoneFound));
}

#[test]
fn gnu_request_rejects_musl_assets() {
    let r = run(&["tool-x86_64-linux-musl.tar.gz"], "x86_64", "Linux", Libc::Gnu);
    assert!(matches!(r, SelectOutcome::NoneFound));
}

#[test]
fn musl_request_accepts_musl_asset() {
    let r = run(&["tool-x86_64-linux-musl.tar.gz"], "x86_64", "Linux", Libc::Musl);
    assert!(matches!(r, SelectOutcome::Selected(0)));
}

#[test]
fn two_libc_neutral_candidates_are_ambiguous_with_both_names() {
    let r = run(
        &[
            "tool-x86_64-linux-one.tar.gz",
            "tool-x86_64-linux-two.tar.gz",
        ],
        "x86_64",
        "Linux",
        Libc::Gnu,
    );
    match r {
        SelectOutcome::Ambiguous(names) => {
            assert_eq!(names.len(), 2);
            assert_eq!(names[0], "tool-x86_64-linux-one.tar.gz");
            assert_eq!(names[1], "tool-x86_64-linux-two.tar.gz");
        }
        other => panic!("expected ambiguity, got {other:?}"),
    }
}

#[test]
fn selection_is_repeatable() {
    let names = [
        "tool-x86_64-linux-one.tar.gz",
        "tool-x86_64-linux-two.tar.gz",
    ];
    let first = run(&names, "x86_64", "Linux", Libc::Gnu);
    let second = run(&names, "x86_64", "Linux", Libc::Gnu);
    match (first, second) {
        (SelectOutcome::Ambiguous(a), SelectOutcome::Ambiguous(b)) => assert_eq!(a, b),
        (a, b) => panic!("outcomes diverged: {a:?} vs {b:?}"),
    }
}

#[test]
fn amd64_alias_matches_x86_64_request() {
    let r = run(&["tool-amd64-linux.tar.gz"], "x86_64", "Linux", Libc::Gnu);
    assert!(matches!(r, SelectOutcome::Selected(0)));
}

#[test]
fn arm64_alias_matches_aarch64_request() {
    let r = run(&["tool-arm64-linux.tar.gz"], "aarch64", "Linux", Libc::Gnu);
    assert!(matches!(r, SelectOutcome::Selected(0)));
}

#[test]
fn armhf_alias_matches_armv7l_request() {
    let r = run(&["tool-armhf-linux.tar.gz"], "armv7l", "Linux", Libc::Gnu);
    assert!(matches!(r, SelectOutcome::Selected(0)));
}

#[test]
fn unknown_arch_passes_through_as_literal() {
    let r = run(&["tool-riscv64-linux.tar.gz"], "riscv64", "Linux", Libc::Gnu);
    assert!(matches!(r, SelectOutcome::Selected(0)));
}

#[test]
fn macos_aliases_match_darwin_and_apple() {
    let r = run(&["tool-x86_64-darwin.tar.gz"], "x86_64", "macos", Libc::Gnu);
    assert!(matches!(r, SelectOutcome::Selected(0)));
    let r = run(&["tool-x86_64-apple.tar.gz"], "x86_64", "macos", Libc::Gnu);
    assert!(matches!(r, SelectOutcome::Selected(0)));
}

#[test]
fn windows_alias_matches_win() {
    let r = run(&["tool-x64-win.zip"], "x86_64", "Windows", Libc::Gnu);
    assert!(matches!(r, SelectOutcome::Selected(0)));
}

#[test]
fn matching_is_case_insensitive_on_the_filename() {
    let r = run(&["Tool-X86_64-LINUX-gnu.TAR.GZ"], "x86_64", "Linux", Libc::Gnu);
    assert!(matches!(r, SelectOutcome::Selected(0)));
}

#[test]
fn companion_file_suffixes_are_excluded() {
    for name in [
        "tool-x86_64-linux.txt",
        "tool-x86_64-linux.md",
        "tool-x86_64-linux.sha512",
        "tool-x86_64-linux.sig",
        "tool-x86_64-linux.asc",
        "tool-x86_64-linux.json",
        "tool-x86_64-linux.yaml",
        "tool-x86_64-linux.sh",
        "tool-x86_64-linux.1",
        "tool-x86_64-linux.4",
        "tool-x86_64-linux.8",
        "tool-x86_64-linux.vsix",
        "tool-x86_64-linux.sha256sum",
    ] {
        let r = run(&[name], "x86_64", "Linux", Libc::Gnu);
        assert!(
            matches!(r, SelectOutcome::NoneFound),
            "{name} should have been excluded"
        );
    }
}

#[test]
fn empty_asset_list_finds_nothing() {
    let r = run(&[], "x86_64", "Linux", Libc::Gnu);
    assert!(matches!(r, SelectOutcome::NoneFound));
}
