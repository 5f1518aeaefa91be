//! Install request: the validated options one install run works from, the
//! repository-identifier split, and the cache layout the fetched asset and
//! its extracted members land in.

use vstd::prelude::*;
use vstd::string::{StrSliceExecFns, StringExecFns};

verus! {

/// The validated options of one install run. Defaults (the machine's own
/// architecture and OS, `latest`, a user-local bin path) are the caller's
/// business; the pipeline takes the fields as given.
#[derive(Debug)]
pub struct GpmInstallOpts {
    /// The repository to install from, as `owner/name`.
    pub repo: String,
    /// The release tag to install, or `latest`.
    pub tag: String,
    /// The architecture to filter by.
    pub arch: String,
    /// The operating system to filter by.
    pub os: String,
    /// The libc flavor to filter by.
    pub libc: crate::platform::Libc,
    /// The directory the symbolic links are published in.
    pub bin_dir: String,
}

/// Split `owner/name` at its first `/`. A repository identifier without a
/// separator has no owner and is rejected.
pub fn split_repo(repo: &String) -> (r: Option<(String, String)>)
    ensures
        r is Some <==> exists|i: int| 0 <= i < repo@.len() && repo@[i] == '/',
        r matches Some((owner, name)) ==> exists|i: int|
            {
                &&& 0 <= i < repo@.len()
                &&& repo@[i] == '/'
                &&& forall|j: int| 0 <= j < i ==> repo@[j] != '/'
                &&& owner@ == repo@.subrange(0, i)
                &&& name@ == repo@.subrange(i + 1, repo@.len() as int)
            },
{
    let s = repo.as_str();
    let n = s.unicode_len();
    let mut i: usize = 0;
    while i < n
        invariant
            i <= n,
            n == s@.len(),
            s@ == repo@,
            forall|j: int| 0 <= j < i ==> s@[j] != '/',
        decreases n - i,
    {
        if s.get_char(i) == '/' {
            let owner = s.substring_char(0, i).to_owned();
            let name = s.substring_char(i + 1, n).to_owned();
            proof {
                assert(repo@[i as int] == '/');
            }
            return Some((owner, name));
        }
        i += 1;
    }
    None
}

/// The on-disk cache layout of one repository + tag: the per-release root,
/// its download directory, the asset file inside it, and the extraction
/// directory for archive members.
#[derive(Debug)]
pub struct CachePaths {
    pub release_dir: String,
    pub download_dir: String,
    pub asset_path: String,
    pub extract_dir: String,
}

/// Build the cache layout under `home` for `repo` at `tag`, holding
/// `asset_name` as the downloaded file.
pub fn cache_paths(home: &String, repo: &String, tag: &String, asset_name: &String) -> (r:
    CachePaths)
    ensures
        r.release_dir@ == home@ + "/.cache/gpm/"@ + repo@ + "/"@ + tag@,
        r.download_dir@ == r.release_dir@ + "/download"@,
        r.asset_path@ == r.download_dir@ + "/"@ + asset_name@,
        r.extract_dir@ == r.release_dir@ + "/extract"@,
{
    let mut release_dir = home.clone();
    release_dir.append("/.cache/gpm/");
    release_dir.append(repo.as_str());
    release_dir.append("/");
    release_dir.append(tag.as_str());
    let mut download_dir = release_dir.clone();
    download_dir.append("/download");
    let mut asset_path = download_dir.clone();
    asset_path.append("/");
    asset_path.append(asset_name.as_str());
    let mut extract_dir = release_dir.clone();
    extract_dir.append("/extract");
    CachePaths { release_dir, download_dir, asset_path, extract_dir }
}

} // verus!
