//! Install orchestrator, as a step machine: each function takes the current
//! pipeline state plus the outcome of the last outside action, and decides
//! the next state and the next action. The driver performs the actions
//! (lookup, directory creation, download, extraction, inspection, linking)
//! and feeds every outcome back as plain values; all decisions live here.

use vstd::prelude::*;
use vstd::string::StringExecFns;
use crate::archive::{MemberOutcome, archive_recognized, collect_members, first_failure, extracted_paths, probe_archive};
use crate::error::InstallError;
use crate::fetch::{decimal_rep, range_header, verify_size};
use crate::install::{CachePaths, GpmInstallOpts, cache_paths, split_repo};
use crate::link::{HostKind, LinkDecision, LinkOutcome, base_name_spec, base_name, expected_mime_spec, inferred_mime, link_decision, resolve_link_outcome};
use crate::platform::{arch_aliases_spec, os_aliases_spec, resolve, views_of};
use crate::select::{ReleaseAsset, SelectOutcome, Selection, select, selection_of};

verus! {

/// What the release-metadata lookup reported: the release's tag name and its
/// ordered asset list.
#[derive(Debug)]
pub struct ReleaseInfo {
    pub tag_name: String,
    pub assets: Vec<ReleaseAsset>,
}

/// Where one install run stands, between two outside actions.
#[derive(Debug)]
pub enum PipelineState {
    /// The release lookup was issued.
    AwaitRelease { opts: GpmInstallOpts },
    /// Directories are being prepared and the partial download measured.
    AwaitFileLen { opts: GpmInstallOpts, asset: ReleaseAsset, paths: CachePaths },
    /// The transfer is streaming to disk.
    AwaitDownload { opts: GpmInstallOpts, asset: ReleaseAsset, paths: CachePaths },
    /// The archive's member list was requested.
    AwaitMembers { opts: GpmInstallOpts, paths: CachePaths },
    /// Members are extracted one at a time; outcomes collect here.
    Extracting {
        opts: GpmInstallOpts,
        paths: CachePaths,
        members: Vec<String>,
        next: usize,
        outcomes: Vec<MemberOutcome>,
    },
    /// Candidate files are inspected and linked one at a time.
    Linking { opts: GpmInstallOpts, candidates: Vec<String>, idx: usize },
    /// A link for the current candidate was requested.
    AwaitLink { opts: GpmInstallOpts, candidates: Vec<String>, idx: usize },
    /// The install finished; every eligible binary is linked.
    Done,
    /// The install stopped at a fatal error.
    Failed { error: InstallError },
}

/// The next outside action the driver is asked to perform.
#[derive(Debug)]
pub enum Action {
    /// Look the release up: the latest release when `tag` is `None`, the
    /// exact tag otherwise.
    LookupRelease { owner: String, name: String, tag: Option<String> },
    /// Create the download and bin directories, open the destination file
    /// for append (creating it if absent), and report its current length.
    PrepareDownload { download_dir: String, asset_path: String, bin_dir: String },
    /// Stream the asset to `dest`, resuming with the given range header, and
    /// report the resulting on-disk size.
    Download { url: String, dest: String, range: Option<String> },
    /// Create the extract directory and list the archive's members.
    ListMembers { archive: String, extract_dir: String },
    /// Extract the one named member into the extract directory.
    ExtractMember { archive: String, extract_dir: String, member: String },
    /// Read the leading bytes of the file for content inspection.
    InspectFile { path: String },
    /// Publish a symbolic link at `link_path` pointing at `target`.
    Symlink { target: String, link_path: String },
    /// Nothing is left to do; the state is `Done` or `Failed`.
    Stop,
}

/// Internal consistency of a pipeline state: cursors in range, one recorded
/// outcome per member handed out, and no fatal outcome ever kept.
pub open spec fn state_inv(s: PipelineState) -> bool {
    match s {
        PipelineState::Extracting { members, next, outcomes, .. } => {
            &&& next < members@.len()
            &&& outcomes@.len() == next
            &&& first_failure(outcomes@) is None
        },
        PipelineState::Linking { candidates, idx, .. } => idx < candidates@.len(),
        PipelineState::AwaitLink { candidates, idx, .. } => idx < candidates@.len(),
        _ => true,
    }
}

/// What selection yields for these options on this asset list.
pub open spec fn release_selection(opts: GpmInstallOpts, assets: Seq<ReleaseAsset>) -> Selection {
    selection_of(
        assets.map_values(|a: ReleaseAsset| a.name@),
        arch_aliases_spec(opts.arch@),
        os_aliases_spec(opts.os@),
        opts.libc,
    )
}

/// Begin an install: split the repository identifier and issue the release
/// lookup — the latest release for tag `latest`, the exact tag otherwise.
pub fn start(opts: GpmInstallOpts) -> (r: (PipelineState, Action))
    ensures
        state_inv(r.0),
        !(exists|i: int| 0 <= i < opts.repo@.len() && opts.repo@[i] == '/') ==> (r.0 matches
            PipelineState::Failed { error } && error matches InstallError::InvalidRepo { repo }
            && repo@ == opts.repo@ && r.1 is Stop),
        (exists|i: int| 0 <= i < opts.repo@.len() && opts.repo@[i] == '/') ==> ({
            &&& r.0 matches PipelineState::AwaitRelease { opts: o } && o == opts
            &&& r.1 matches Action::LookupRelease { owner, name, tag } && (exists|i: int|
                {
                    &&& 0 <= i < opts.repo@.len()
                    &&& opts.repo@[i] == '/'
                    &&& forall|j: int| 0 <= j < i ==> opts.repo@[j] != '/'
                    &&& owner@ == opts.repo@.subrange(0, i)
                    &&& name@ == opts.repo@.subrange(i + 1, opts.repo@.len() as int)
                }) && (tag is None <==> opts.tag@ == "latest"@) && (tag matches Some(t) ==> t@
                == opts.tag@)
        }),
{
    match split_repo(&opts.repo) {
        None => {
            let repo = opts.repo.clone();
            (PipelineState::Failed { error: InstallError::InvalidRepo { repo } }, Action::Stop)
        },
        Some((owner, name)) => {
            let tag = if crate::text::str_eq(opts.tag.as_str(), "latest") {
                None
            } else {
                Some(opts.tag.clone())
            };
            let action = Action::LookupRelease { owner, name, tag };
            (PipelineState::AwaitRelease { opts }, action)
        },
    }
}

/// Judge the release lookup: a lookup failure is fatal; otherwise select the
/// single matching asset, failing on zero or several survivors, and have the
/// cache prepared for its download.
pub fn on_release(
    state: PipelineState,
    result: Result<ReleaseInfo, String>,
    home: &String,
) -> (r: (PipelineState, Action))
    requires
        state is AwaitRelease,
        state_inv(state),
    ensures
        state_inv(r.0),
        ({
            let opts = state->AwaitRelease_opts;
            match result {
                Err(m) => r.0 == (PipelineState::Failed {
                    error: InstallError::LookupFailed { message: m },
                }) && r.1 is Stop,
                Ok(info) => {
                    let sel = release_selection(opts, info.assets@);
                    &&& (sel is NoneFound ==> (r.0 matches PipelineState::Failed { error }
                        && error matches InstallError::NoMatchingAsset { arch, os } && arch@
                        == opts.arch@ && os@ == opts.os@ && r.1 is Stop))
                    &&& (sel matches Selection::Ambiguous(ns) ==> (r.0 matches
                        PipelineState::Failed { error } && error matches
                        InstallError::AmbiguousAssets { names } && views_of(names@) == ns && r.1
                        is Stop))
                    &&& (sel matches Selection::Chosen(i) ==> ({
                        &&& r.0 matches PipelineState::AwaitFileLen { opts: o, asset, paths }
                        &&& o == opts
                        &&& asset.name@ == info.assets@[i].name@
                        &&& asset.url@ == info.assets@[i].url@
                        &&& asset.size == info.assets@[i].size
                        &&& paths.release_dir@ == home@ + "/.cache/gpm/"@ + opts.repo@ + "/"@
                            + info.tag_name@
                        &&& paths.download_dir@ == paths.release_dir@ + "/download"@
                        &&& paths.asset_path@ == paths.download_dir@ + "/"@ + asset.name@
                        &&& paths.extract_dir@ == paths.release_dir@ + "/extract"@
                        &&& r.1 matches Action::PrepareDownload { download_dir, asset_path, bin_dir }
                        &&& download_dir@ == paths.download_dir@
                        &&& asset_path@ == paths.asset_path@
                        &&& bin_dir@ == opts.bin_dir@
                    }))
                },
            }
        }),
{
    let opts = match state {
        PipelineState::AwaitRelease { opts } => opts,
        _ => unreached(),
    };
    match result {
        Err(message) => (
            PipelineState::Failed { error: InstallError::LookupFailed { message } },
            Action::Stop,
        ),
        Ok(info) => {
            let filter = resolve(opts.arch.as_str(), opts.os.as_str());
            match select(&info.assets, &filter, opts.libc) {
                SelectOutcome::NoneFound => {
                    let arch = opts.arch.clone();
                    let os = opts.os.clone();
                    (
                        PipelineState::Failed {
                            error: InstallError::NoMatchingAsset { arch, os },
                        },
                        Action::Stop,
                    )
                },
                SelectOutcome::Ambiguous(names) => (
                    PipelineState::Failed { error: InstallError::AmbiguousAssets { names } },
                    Action::Stop,
                ),
                SelectOutcome::Selected(i) => {
                    let asset = ReleaseAsset {
                        name: info.assets[i].name.clone(),
                        url: info.assets[i].url.clone(),
                        size: info.assets[i].size,
                    };
                    let paths = cache_paths(home, &opts.repo, &info.tag_name, &asset.name);
                    let action = Action::PrepareDownload {
                        download_dir: paths.download_dir.clone(),
                        asset_path: paths.asset_path.clone(),
                        bin_dir: opts.bin_dir.clone(),
                    };
                    (PipelineState::AwaitFileLen { opts, asset, paths }, action)
                },
            }
        },
    }
}

/// With the partial file measured, issue the transfer: resume past what is
/// already on disk via a range request, or fetch from the start.
pub fn on_prepared(state: PipelineState, existing_len: u64) -> (r: (PipelineState, Action))
    requires
        state is AwaitFileLen,
        state_inv(state),
    ensures
        state_inv(r.0),
        ({
            let opts = state->AwaitFileLen_opts;
            let asset = state->AwaitFileLen_asset;
            let paths = state->AwaitFileLen_paths;
            &&& r.0 matches PipelineState::AwaitDownload { opts: o, asset: a, paths: p } && o
                == opts && a == asset && p == paths
            &&& r.1 matches Action::Download { url, dest, range }
            &&& url@ == asset.url@
            &&& dest@ == paths.asset_path@
            &&& (existing_len == 0 <==> range is None)
            &&& (range matches Some(h) ==> h@ == "bytes="@ + decimal_rep(existing_len as int)
                + "-"@)
        }),
{
    let (opts, asset, paths) = match state {
        PipelineState::AwaitFileLen { opts, asset, paths } => (opts, asset, paths),
        _ => unreached(),
    };
    let range = range_header(existing_len);
    let action = Action::Download {
        url: asset.url.clone(),
        dest: paths.asset_path.clone(),
        range,
    };
    (PipelineState::AwaitDownload { opts, asset, paths }, action)
}

/// Judge the finished transfer: a transport failure is fatal (the partial
/// file stays for a later resume), a size mismatch is fatal, and a verified
/// download goes on to extraction when the file is a recognized archive, or
/// straight to inspection as the binary itself when it is not.
pub fn on_download(state: PipelineState, result: Result<u64, String>) -> (r: (
    PipelineState,
    Action,
))
    requires
        state is AwaitDownload,
        state_inv(state),
    ensures
        state_inv(r.0),
        ({
            let opts = state->AwaitDownload_opts;
            let asset = state->AwaitDownload_asset;
            let paths = state->AwaitDownload_paths;
            match result {
                Err(m) => r.0 == (PipelineState::Failed {
                    error: InstallError::DownloadFailed { message: m },
                }) && r.1 is Stop,
                Ok(actual) => {
                    &&& (actual != asset.size ==> r.0 == (PipelineState::Failed {
                        error: InstallError::SizeMismatch { actual, expected: asset.size },
                    }) && r.1 is Stop)
                    &&& (actual == asset.size && archive_recognized(paths.asset_path@) ==> ({
                        &&& r.0 matches PipelineState::AwaitMembers { opts: o, paths: p } && o
                            == opts && p == paths
                        &&& r.1 matches Action::ListMembers { archive, extract_dir }
                        &&& archive@ == paths.asset_path@
                        &&& extract_dir@ == paths.extract_dir@
                    }))
                    &&& (actual == asset.size && !archive_recognized(paths.asset_path@) ==> ({
                        &&& r.0 matches PipelineState::Linking { opts: o, candidates, idx } && o
                            == opts && idx == 0usize && views_of(candidates@) == seq![
                            paths.asset_path@,
                        ]
                        &&& r.1 matches Action::InspectFile { path } && path@
                            == paths.asset_path@
                    }))
                },
            }
        }),
{
    let (opts, asset, paths) = match state {
        PipelineState::AwaitDownload { opts, asset, paths } => (opts, asset, paths),
        _ => unreached(),
    };
    match result {
        Err(message) => (
            PipelineState::Failed { error: InstallError::DownloadFailed { message } },
            Action::Stop,
        ),
        Ok(actual) => {
            match verify_size(actual, asset.size) {
                Err(error) => (PipelineState::Failed { error }, Action::Stop),
                Ok(()) => {
                    if probe_archive(&paths.asset_path) {
                        let action = Action::ListMembers {
                            archive: paths.asset_path.clone(),
                            extract_dir: paths.extract_dir.clone(),
                        };
                        (PipelineState::AwaitMembers { opts, paths }, action)
                    } else {
                        let mut candidates: Vec<String> = Vec::new();
                        candidates.push(paths.asset_path.clone());
                        let action = Action::InspectFile { path: paths.asset_path.clone() };
                        proof {
                            assert(views_of(candidates@) =~= seq![paths.asset_path@]);
                        }
                        (PipelineState::Linking { opts, candidates, idx: 0 }, action)
                    }
                },
            }
        },
    }
}

/// What advancing past the candidate at `idx` yields: the next candidate is
/// inspected, or, past the last one, the install is done.
pub open spec fn advance_post(
    opts: GpmInstallOpts,
    candidates: Seq<String>,
    idx: int,
    next: PipelineState,
    action: Action,
) -> bool {
    &&& (idx + 1 < candidates.len() ==> ({
        &&& next matches PipelineState::Linking { opts: o, candidates: c, idx: j } && o == opts
            && c@ == candidates && j == idx + 1
        &&& action matches Action::InspectFile { path } && path@ == candidates[idx + 1]@
    }))
    &&& (idx + 1 >= candidates.len() ==> next is Done && action is Stop)
}

fn advance_candidate(opts: GpmInstallOpts, candidates: Vec<String>, idx: usize) -> (r: (
    PipelineState,
    Action,
))
    requires
        idx < candidates@.len(),
    ensures
        state_inv(r.0),
        advance_post(opts, candidates@, idx as int, r.0, r.1),
{
    let total = candidates.len();
    if idx + 1 < total {
        let action = Action::InspectFile { path: candidates[idx + 1].clone() };
        (PipelineState::Linking { opts, candidates, idx: idx + 1 }, action)
    } else {
        (PipelineState::Done, Action::Stop)
    }
}

/// Judge the member listing: a listing failure is fatal; an archive without
/// members leaves nothing to link; otherwise extraction starts with the
/// first member.
pub fn on_members(state: PipelineState, result: Result<Vec<String>, String>) -> (r: (
    PipelineState,
    Action,
))
    requires
        state is AwaitMembers,
        state_inv(state),
    ensures
        state_inv(r.0),
        ({
            let opts = state->AwaitMembers_opts;
            let paths = state->AwaitMembers_paths;
            match result {
                Err(m) => r.0 == (PipelineState::Failed {
                    error: InstallError::ExtractionFailed { message: m },
                }) && r.1 is Stop,
                Ok(members) => {
                    &&& (members@.len() == 0 ==> r.0 is Done && r.1 is Stop)
                    &&& (members@.len() > 0 ==> ({
                        &&& r.0 matches PipelineState::Extracting {
                            opts: o,
                            paths: p,
                            members: m,
                            next,
                            outcomes,
                        }
                        &&& o == opts
                        &&& p == paths
                        &&& m == members
                        &&& next == 0usize
                        &&& outcomes@.len() == 0
                        &&& r.1 matches Action::ExtractMember { archive, extract_dir, member }
                        &&& archive@ == paths.asset_path@
                        &&& extract_dir@ == paths.extract_dir@
                        &&& member@ == members@[0]@
                    }))
                },
            }
        }),
{
    let (opts, paths) = match state {
        PipelineState::AwaitMembers { opts, paths } => (opts, paths),
        _ => unreached(),
    };
    match result {
        Err(message) => (
            PipelineState::Failed { error: InstallError::ExtractionFailed { message } },
            Action::Stop,
        ),
        Ok(members) => {
            if members.len() == 0 {
                (PipelineState::Done, Action::Stop)
            } else {
                let action = Action::ExtractMember {
                    archive: paths.asset_path.clone(),
                    extract_dir: paths.extract_dir.clone(),
                    member: members[0].clone(),
                };
                let outcomes: Vec<MemberOutcome> = Vec::new();
                (
                    PipelineState::Extracting { opts, paths, members, next: 0, outcomes },
                    action,
                )
            }
        },
    }
}

/// Record one member's outcome: a member already on disk is passed over, a
/// written member is collected, and any other failure aborts the remaining
/// members. After the last member, the collected files go on to inspection.
pub fn on_member(state: PipelineState, outcome: MemberOutcome) -> (r: (PipelineState, Action))
    requires
        state is Extracting,
        state_inv(state),
    ensures
        state_inv(r.0),
        ({
            let opts = state->Extracting_opts;
            let paths = state->Extracting_paths;
            let members = state->Extracting_members;
            let next = state->Extracting_next;
            let outcomes = state->Extracting_outcomes;
            let recorded = outcomes@.push(outcome);
            &&& (outcome matches MemberOutcome::Failed { message } ==> (r.0
                == (PipelineState::Failed { error: InstallError::ExtractionFailed { message } })
                && r.1 is Stop))
            &&& (!(outcome is Failed) && next + 1 < members@.len() ==> ({
                &&& r.0 matches PipelineState::Extracting {
                    opts: o,
                    paths: p,
                    members: m,
                    next: n2,
                    outcomes: outs,
                }
                &&& o == opts
                &&& p == paths
                &&& m == members
                &&& n2 == next + 1
                &&& outs@ == recorded
                &&& r.1 matches Action::ExtractMember { archive, extract_dir, member }
                &&& archive@ == paths.asset_path@
                &&& extract_dir@ == paths.extract_dir@
                &&& member@ == members@[next + 1]@
            }))
            &&& (!(outcome is Failed) && next + 1 == members@.len() ==> ({
                let cands = extracted_paths(recorded);
                &&& (cands.len() == 0 ==> r.0 is Done && r.1 is Stop)
                &&& (cands.len() > 0 ==> ({
                    &&& r.0 matches PipelineState::Linking { opts: o, candidates, idx }
                    &&& o == opts
                    &&& idx == 0usize
                    &&& views_of(candidates@) == cands
                    &&& r.1 matches Action::InspectFile { path }
                    &&& path@ == cands[0]
                }))
            }))
        }),
{
    let (opts, paths, members, next, mut outcomes) = match state {
        PipelineState::Extracting { opts, paths, members, next, outcomes } => (
            opts,
            paths,
            members,
            next,
            outcomes,
        ),
        _ => unreached(),
    };
    match outcome {
        MemberOutcome::Failed { message } => (
            PipelineState::Failed { error: InstallError::ExtractionFailed { message } },
            Action::Stop,
        ),
        _ => {
            proof {
                crate::archive::lemma_push_non_failure(outcomes@, outcome);
            }
            outcomes.push(outcome);
            let total = members.len();
            if next + 1 < total {
                let action = Action::ExtractMember {
                    archive: paths.asset_path.clone(),
                    extract_dir: paths.extract_dir.clone(),
                    member: members[next + 1].clone(),
                };
                (
                    PipelineState::Extracting { opts, paths, members, next: next + 1, outcomes },
                    action,
                )
            } else {
                match collect_members(&outcomes) {
                    Err(_) => unreached(),
                    Ok(candidates) => {
                        if candidates.len() == 0 {
                            (PipelineState::Done, Action::Stop)
                        } else {
                            let action = Action::InspectFile { path: candidates[0].clone() };
                            proof {
                                assert(candidates@[0]@ == views_of(candidates@)[0]);
                            }
                            (PipelineState::Linking { opts, candidates, idx: 0 }, action)
                        }
                    },
                }
            }
        },
    }
}

/// Judge one candidate's leading bytes: the host's executable flavor gets a
/// link named after its base filename, other recognized content is passed
/// over, and a file whose type cannot be inferred at all is fatal.
pub fn on_candidate(
    state: PipelineState,
    result: Result<Vec<u8>, String>,
    host: HostKind,
) -> (r: (PipelineState, Action))
    requires
        state is Linking,
        state_inv(state),
    ensures
        state_inv(r.0),
        ({
            let opts = state->Linking_opts;
            let candidates = state->Linking_candidates;
            let idx = state->Linking_idx;
            let cand = candidates@[idx as int]@;
            match result {
                Err(m) => r.0 == (PipelineState::Failed {
                    error: InstallError::LinkFailed { message: m },
                }) && r.1 is Stop,
                Ok(bytes) => {
                    &&& (inferred_mime(bytes@) is None ==> (r.0 matches PipelineState::Failed {
                        error,
                    } && error matches InstallError::UnknownFileType { path } && path@ == cand
                        && r.1 is Stop))
                    &&& (inferred_mime(bytes@) == Some(expected_mime_spec(host)) ==> ({
                        &&& r.0 matches PipelineState::AwaitLink { opts: o, candidates: c, idx: j }
                        &&& o == opts
                        &&& c == candidates
                        &&& j == idx
                        &&& r.1 matches Action::Symlink { target, link_path }
                        &&& target@ == cand
                        &&& link_path@ == opts.bin_dir@ + "/"@ + base_name_spec(cand)
                    }))
                    &&& ((inferred_mime(bytes@) matches Some(m) && m != expected_mime_spec(host))
                        ==> advance_post(opts, candidates@, idx as int, r.0, r.1))
                },
            }
        }),
{
    let (opts, candidates, idx) = match state {
        PipelineState::Linking { opts, candidates, idx } => (opts, candidates, idx),
        _ => unreached(),
    };
    match result {
        Err(message) => (
            PipelineState::Failed { error: InstallError::LinkFailed { message } },
            Action::Stop,
        ),
        Ok(bytes) => {
            match link_decision(bytes.as_slice(), host, &candidates[idx]) {
                Err(error) => (PipelineState::Failed { error }, Action::Stop),
                Ok(LinkDecision::Skip) => advance_candidate(opts, candidates, idx),
                Ok(LinkDecision::Link) => {
                    let target = candidates[idx].clone();
                    let name = base_name(&candidates[idx]);
                    let mut link_path = opts.bin_dir.clone();
                    link_path.append("/");
                    link_path.append(name.as_str());
                    let action = Action::Symlink { target, link_path };
                    (PipelineState::AwaitLink { opts, candidates, idx }, action)
                },
            }
        },
    }
}

/// Judge the link attempt: a link already in place from a prior run is
/// success, any other linking failure is fatal (links already created stay),
/// and the pipeline moves to the next candidate.
pub fn on_link(state: PipelineState, outcome: LinkOutcome) -> (r: (PipelineState, Action))
    requires
        state is AwaitLink,
        state_inv(state),
    ensures
        state_inv(r.0),
        ({
            let opts = state->AwaitLink_opts;
            let candidates = state->AwaitLink_candidates;
            let idx = state->AwaitLink_idx;
            &&& (outcome is Failed ==> (r.0 matches PipelineState::Failed { error } && error
                matches InstallError::LinkFailed { message } && message@
                == outcome->Failed_message@ && r.1 is Stop))
            &&& (!(outcome is Failed) ==> advance_post(opts, candidates@, idx as int, r.0, r.1))
        }),
{
    let (opts, candidates, idx) = match state {
        PipelineState::AwaitLink { opts, candidates, idx } => (opts, candidates, idx),
        _ => unreached(),
    };
    match resolve_link_outcome(&outcome) {
        Err(error) => (PipelineState::Failed { error }, Action::Stop),
        Ok(()) => advance_candidate(opts, candidates, idx),
    }
}

} // verus!
