//! Binary linker decisions: which candidate files are genuine native
//! executables for the running platform (by content inspection, not by
//! filename), what the published link is called, and how a link attempt's
//! outcome is judged. Creating the symbolic link itself is the driver's work.

use vstd::prelude::*;
use vstd::string::{StrSliceExecFns, StringExecFns};
use crate::error::InstallError;

verus! {

/// The content type inferred from a file's leading bytes, if any type is
/// recognized at all.
pub uninterp spec fn inferred_mime(bytes: Seq<u8>) -> Option<Seq<char>>;

/// Relies on infer::get: the matched type, and with it its mime string,
/// depends on the inspected bytes alone.
#[verifier::external_body]
fn infer_mime(buf: &[u8]) -> (r: Option<String>)
    ensures
        r matches Some(m) ==> inferred_mime(buf@) == Some(m@),
        r is None ==> inferred_mime(buf@) is None,
{
    match infer::get(buf) {
        Some(t) => Some(t.mime_type().to_owned()),
        None => None,
    }
}

/// The flavor of executable the running platform can link: one code path,
/// decided at run time rather than compiled three ways.
#[derive(Clone, Copy, Debug, PartialEq, Eq, Structural)]
pub enum HostKind {
    Windows,
    Macos,
    OtherUnix,
}

/// The one content type that counts as a linkable executable on this host.
pub open spec fn expected_mime_spec(host: HostKind) -> Seq<char> {
    match host {
        HostKind::Windows => "application/vnd.microsoft.portable-executable"@,
        HostKind::Macos => "application/x-mach-binary"@,
        HostKind::OtherUnix => "application/x-executable"@,
    }
}

/// The expected executable content type of `host`.
pub fn expected_mime(host: HostKind) -> (r: String)
    ensures
        r@ == expected_mime_spec(host),
{
    match host {
        HostKind::Windows => String::from_str("application/vnd.microsoft.portable-executable"),
        HostKind::Macos => String::from_str("application/x-mach-binary"),
        HostKind::OtherUnix => String::from_str("application/x-executable"),
    }
}

/// What to do with one candidate file.
#[derive(Clone, Copy, Debug, PartialEq, Eq, Structural)]
pub enum LinkDecision {
    /// The candidate is this platform's executable flavor: publish a link.
    Link,
    /// Some other recognized content (docs, another platform's binary):
    /// pass it over without failing the install.
    Skip,
}

/// Decide one candidate from its leading bytes: link the host's executable
/// flavor, skip every other recognized content type, and fail only when no
/// type can be inferred at all.
pub fn link_decision(buf: &[u8], host: HostKind, path: &String) -> (r: Result<
    LinkDecision,
    InstallError,
>)
    ensures
        r is Err <==> inferred_mime(buf@) is None,
        r matches Err(e) ==> e matches InstallError::UnknownFileType { path: p } && p@ == path@,
        r == Ok::<LinkDecision, InstallError>(LinkDecision::Link) <==> inferred_mime(buf@)
            == Some(expected_mime_spec(host)),
        r == Ok::<LinkDecision, InstallError>(LinkDecision::Skip) <==> (inferred_mime(
            buf@,
        ) matches Some(m) && m != expected_mime_spec(host)),
{
    match infer_mime(buf) {
        None => Err(InstallError::UnknownFileType { path: path.clone() }),
        Some(mime) => {
            let want = expected_mime(host);
            if mime == want {
                Ok(LinkDecision::Link)
            } else {
                Ok(LinkDecision::Skip)
            }
        },
    }
}

/// The filename part of a path: the suffix after the last `/`.
pub open spec fn base_name_spec(p: Seq<char>) -> Seq<char>
    decreases p.len(),
{
    if p.len() == 0 {
        Seq::empty()
    } else if p.last() == '/' {
        Seq::empty()
    } else {
        base_name_spec(p.drop_last()).push(p.last())
    }
}

proof fn lemma_base_name_suffix(p: Seq<char>, k: int)
    requires
        0 <= k <= p.len(),
        forall|i: int| k <= i < p.len() ==> p[i] != '/',
        k > 0 ==> p[k - 1] == '/',
    ensures
        base_name_spec(p) == p.subrange(k, p.len() as int),
    decreases p.len(),
{
    if p.len() == 0 {
        assert(p.subrange(0, 0) =~= Seq::<char>::empty());
    } else if k == p.len() {
        assert(p.subrange(k, p.len() as int) =~= Seq::<char>::empty());
    } else {
        assert(p.last() != '/');
        lemma_base_name_suffix(p.drop_last(), k);
        assert(base_name_spec(p) =~= p.subrange(k, p.len() as int)) by {
            assert(p.drop_last().subrange(k, p.len() - 1) =~= p.subrange(k, p.len() - 1));
        }
    }
}

/// The name a published link carries: the candidate's base filename.
pub fn base_name(path: &String) -> (r: String)
    ensures
        r@ == base_name_spec(path@),
{
    let s = path.as_str();
    let n = s.unicode_len();
    let mut k: usize = n;
    let mut scanning = true;
    while scanning && k > 0
        invariant
            k <= n,
            n == s@.len(),
            forall|i: int| k <= i < n ==> s@[i] != '/',
            !scanning ==> k > 0 && s@[k - 1] == '/',
        decreases k + (if scanning { 1int } else { 0int }),
    {
        if s.get_char(k - 1) == '/' {
            scanning = false;
        } else {
            k -= 1;
        }
    }
    proof {
        lemma_base_name_suffix(path@, k as int);
    }
    s.substring_char(k, n).to_owned()
}

/// What a link attempt came to, as the driver reports it.
#[derive(Debug)]
pub enum LinkOutcome {
    /// The link was created.
    Created,
    /// A link of that name already exists from a prior run.
    AlreadyExists,
    /// Linking failed for some other reason.
    Failed { message: String },
}

/// Judge a link attempt: a link that already exists is success — re-running
/// an install must not fail over its own earlier work — and only other
/// filesystem failures are fatal.
pub fn resolve_link_outcome(outcome: &LinkOutcome) -> (r: Result<(), InstallError>)
    ensures
        r is Ok <==> !(outcome is Failed),
        r matches Err(e) ==> e matches InstallError::LinkFailed { message } && message@
            == outcome->Failed_message@,
{
    match outcome {
        LinkOutcome::Created => Ok(()),
        LinkOutcome::AlreadyExists => Ok(()),
        LinkOutcome::Failed { message } => Err(
            InstallError::LinkFailed { message: message.clone() },
        ),
    }
}

} // verus!
