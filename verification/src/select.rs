//! Asset selector: filters a release's asset list down to exactly one
//! candidate, by platform-alias substrings, an exclusion-suffix list for
//! non-binary companion files, and the libc constraint.

use vstd::prelude::*;
use crate::platform::{Libc, PlatformFilter, views_of};
use crate::text::{chars_of, contains_seq, contains_vec, ends_with_seq, ends_with_vec, lower, lower_vec};

verus! {

/// One downloadable file attached to a release, as the metadata lookup
/// reports it: filename, download URL, declared byte size.
#[derive(Debug)]
pub struct ReleaseAsset {
    pub name: String,
    pub url: String,
    pub size: u64,
}

/// A lower-cased filename ending with any of these marks a checksum,
/// signature, doc, package-metadata, shell-script, man-page or
/// editor-extension companion file, never the binary itself.
pub open spec fn has_excluded_suffix(l: Seq<char>) -> bool {
    ||| ends_with_seq(l, ".txt"@)
    ||| ends_with_seq(l, "md"@)
    ||| ends_with_seq(l, ".sha256"@)
    ||| ends_with_seq(l, ".md5"@)
    ||| ends_with_seq(l, ".shasum"@)
    ||| ends_with_seq(l, ".sig"@)
    ||| ends_with_seq(l, ".sha1"@)
    ||| ends_with_seq(l, ".sha512"@)
    ||| ends_with_seq(l, ".sha256sum"@)
    ||| ends_with_seq(l, ".asc"@)
    ||| ends_with_seq(l, ".json"@)
    ||| ends_with_seq(l, ".yaml"@)
    ||| ends_with_seq(l, ".sh"@)
    ||| ends_with_seq(l, ".1"@)
    ||| ends_with_seq(l, ".2"@)
    ||| ends_with_seq(l, ".3"@)
    ||| ends_with_seq(l, ".4"@)
    ||| ends_with_seq(l, ".5"@)
    ||| ends_with_seq(l, ".6"@)
    ||| ends_with_seq(l, ".7"@)
    ||| ends_with_seq(l, ".8"@)
    ||| ends_with_seq(l, ".vsix"@)
}

fn has_excluded_suffix_exec(l: &Vec<char>) -> (r: bool)
    ensures
        r == has_excluded_suffix(l@),
{
    ends_with_vec(l, &chars_of(".txt")) || ends_with_vec(l, &chars_of("md"))
        || ends_with_vec(l, &chars_of(".sha256")) || ends_with_vec(l, &chars_of(".md5"))
        || ends_with_vec(l, &chars_of(".shasum")) || ends_with_vec(l, &chars_of(".sig"))
        || ends_with_vec(l, &chars_of(".sha1")) || ends_with_vec(l, &chars_of(".sha512"))
        || ends_with_vec(l, &chars_of(".sha256sum")) || ends_with_vec(l, &chars_of(".asc"))
        || ends_with_vec(l, &chars_of(".json")) || ends_with_vec(l, &chars_of(".yaml"))
        || ends_with_vec(l, &chars_of(".sh")) || ends_with_vec(l, &chars_of(".1"))
        || ends_with_vec(l, &chars_of(".2")) || ends_with_vec(l, &chars_of(".3"))
        || ends_with_vec(l, &chars_of(".4")) || ends_with_vec(l, &chars_of(".5"))
        || ends_with_vec(l, &chars_of(".6")) || ends_with_vec(l, &chars_of(".7"))
        || ends_with_vec(l, &chars_of(".8")) || ends_with_vec(l, &chars_of(".vsix"))
}

/// The selection predicate on one filename: its lower-cased form must hold
/// some architecture alias and some OS alias as substrings, must not carry an
/// excluded suffix, and must not name the opposite libc flavor.
pub open spec fn name_matches(
    name: Seq<char>,
    arch_aliases: Seq<Seq<char>>,
    os_aliases: Seq<Seq<char>>,
    libc: Libc,
) -> bool {
    let l = lower(name);
    &&& exists|i: int| 0 <= i < arch_aliases.len() && contains_seq(l, #[trigger] arch_aliases[i])
    &&& exists|i: int| 0 <= i < os_aliases.len() && contains_seq(l, #[trigger] os_aliases[i])
    &&& !has_excluded_suffix(l)
    &&& match libc {
        Libc::Gnu => !contains_seq(l, "musl"@),
        Libc::Musl => !contains_seq(l, "gnu"@),
    }
}

fn any_alias_contained(l: &Vec<char>, aliases: &Vec<String>) -> (r: bool)
    ensures
        r == exists|i: int|
            0 <= i < aliases@.len() && contains_seq(l@, #[trigger] views_of(aliases@)[i]),
{
    let mut k: usize = 0;
    while k < aliases.len()
        invariant
            k <= aliases@.len(),
            forall|i: int| 0 <= i < k ==> !contains_seq(l@, #[trigger] views_of(aliases@)[i]),
        decreases aliases@.len() - k,
    {
        let alias = chars_of(aliases[k].as_str());
        if contains_vec(l, &alias) {
            proof {
                assert(contains_seq(l@, views_of(aliases@)[k as int]));
            }
            return true;
        }
        k += 1;
    }
    false
}

/// Decide the selection predicate for one asset name.
pub fn name_matches_exec(name: &String, filter: &PlatformFilter, libc: Libc) -> (r: bool)
    ensures
        r == name_matches(
            name@,
            views_of(filter.arch_aliases@),
            views_of(filter.os_aliases@),
            libc,
        ),
{
    let chars = chars_of(name.as_str());
    let l = lower_vec(&chars);
    let arch_ok = any_alias_contained(&l, &filter.arch_aliases);
    let os_ok = any_alias_contained(&l, &filter.os_aliases);
    let suffix_bad = has_excluded_suffix_exec(&l);
    let libc_ok = match libc {
        Libc::Gnu => !contains_vec(&l, &chars_of("musl")),
        Libc::Musl => !contains_vec(&l, &chars_of("gnu")),
    };
    arch_ok && os_ok && !suffix_bad && libc_ok
}

/// The indices (ascending) of the asset names satisfying the selection
/// predicate.
pub open spec fn matching_indices(
    names: Seq<Seq<char>>,
    arch_aliases: Seq<Seq<char>>,
    os_aliases: Seq<Seq<char>>,
    libc: Libc,
) -> Seq<int>
    decreases names.len(),
{
    if names.len() == 0 {
        Seq::empty()
    } else {
        let prev = matching_indices(names.drop_last(), arch_aliases, os_aliases, libc);
        if name_matches(names.last(), arch_aliases, os_aliases, libc) {
            prev.push(names.len() - 1)
        } else {
            prev
        }
    }
}

pub proof fn lemma_matching_indices_props(
    names: Seq<Seq<char>>,
    arch_aliases: Seq<Seq<char>>,
    os_aliases: Seq<Seq<char>>,
    libc: Libc,
)
    ensures
        ({
            let mi = matching_indices(names, arch_aliases, os_aliases, libc);
            &&& forall|k: int|
                0 <= k < mi.len() ==> 0 <= #[trigger] mi[k] < names.len() && name_matches(
                    names[mi[k]],
                    arch_aliases,
                    os_aliases,
                    libc,
                )
            &&& forall|j: int|
                0 <= j < names.len() ==> (mi.contains(j) <==> #[trigger] name_matches(
                    names[j],
                    arch_aliases,
                    os_aliases,
                    libc,
                ))
            &&& forall|k1: int, k2: int|
                0 <= k1 < k2 < mi.len() ==> #[trigger] mi[k1] < #[trigger] mi[k2]
        }),
    decreases names.len(),
{
    if names.len() > 0 {
        let prefix = names.drop_last();
        lemma_matching_indices_props(prefix, arch_aliases, os_aliases, libc);
        let prev = matching_indices(prefix, arch_aliases, os_aliases, libc);
        let mi = matching_indices(names, arch_aliases, os_aliases, libc);
        assert forall|j: int| 0 <= j < names.len() implies (mi.contains(j)
            <==> #[trigger] name_matches(names[j], arch_aliases, os_aliases, libc)) by {
            if j < names.len() - 1 {
                assert(prefix[j] == names[j]);
                if prev.contains(j) {
                    let w = choose|w: int| 0 <= w < prev.len() && prev[w] == j;
                    assert(mi[w] == j);
                }
                if mi.contains(j) {
                    let w = choose|w: int| 0 <= w < mi.len() && mi[w] == j;
                    if w < prev.len() {
                        assert(prev[w] == j);
                    }
                }
            } else {
                if name_matches(names[j], arch_aliases, os_aliases, libc) {
                    assert(mi[mi.len() - 1] == j);
                }
                if mi.contains(j) {
                    let w = choose|w: int| 0 <= w < mi.len() && mi[w] == j;
                    if w < prev.len() {
                        assert(prev[w] == j);
                        assert(false);
                    }
                }
            }
        }
    }
}

/// The outcome of selection, abstractly: the chosen index, nothing found, or
/// the (ordered) names of several surviving candidates.
pub enum Selection {
    Chosen(int),
    NoneFound,
    Ambiguous(Seq<Seq<char>>),
}

/// What selection yields on given names, aliases and libc.
pub open spec fn selection_of(
    names: Seq<Seq<char>>,
    arch_aliases: Seq<Seq<char>>,
    os_aliases: Seq<Seq<char>>,
    libc: Libc,
) -> Selection {
    let mi = matching_indices(names, arch_aliases, os_aliases, libc);
    if mi.len() == 0 {
        Selection::NoneFound
    } else if mi.len() == 1 {
        Selection::Chosen(mi[0])
    } else {
        Selection::Ambiguous(mi.map_values(|k: int| names[k]))
    }
}

/// The selector's tagged result; the orchestrator, not the selector, decides
/// how each case fails or proceeds.
#[derive(Debug)]
pub enum SelectOutcome {
    /// Index of the single surviving asset.
    Selected(usize),
    NoneFound,
    /// The names of all surviving assets, in asset-list order.
    Ambiguous(Vec<String>),
}

/// The abstract value of a selector result.
pub open spec fn outcome_view(r: SelectOutcome) -> Selection {
    match r {
        SelectOutcome::Selected(i) => Selection::Chosen(i as int),
        SelectOutcome::NoneFound => Selection::NoneFound,
        SelectOutcome::Ambiguous(ns) => Selection::Ambiguous(views_of(ns@)),
    }
}

/// Filter the asset list down to exactly one candidate. Zero survivors and
/// several survivors are reported as such, never guessed among.
pub fn select(assets: &Vec<ReleaseAsset>, filter: &PlatformFilter, libc: Libc) -> (r:
    SelectOutcome)
    ensures
        ({
            let names = assets@.map_values(|a: ReleaseAsset| a.name@);
            let arch = views_of(filter.arch_aliases@);
            let os = views_of(filter.os_aliases@);
            &&& outcome_view(r) == selection_of(names, arch, os, libc)
            &&& (r matches SelectOutcome::Selected(i) ==> i < assets@.len() && name_matches(
                names[i as int],
                arch,
                os,
                libc,
            ) && forall|j: int|
                0 <= j < names.len() && j != i ==> !(#[trigger] name_matches(
                    names[j],
                    arch,
                    os,
                    libc,
                )))
            &&& (r is NoneFound ==> forall|j: int|
                0 <= j < names.len() ==> !(#[trigger] name_matches(names[j], arch, os, libc)))
        }),
{
    let ghost names = assets@.map_values(|a: ReleaseAsset| a.name@);
    let ghost arch = views_of(filter.arch_aliases@);
    let ghost os = views_of(filter.os_aliases@);
    let mut idxs: Vec<usize> = Vec::new();
    let mut i: usize = 0;
    while i < assets.len()
        invariant
            i <= assets@.len(),
            names == assets@.map_values(|a: ReleaseAsset| a.name@),
            arch == views_of(filter.arch_aliases@),
            os == views_of(filter.os_aliases@),
            idxs@.map_values(|u: usize| u as int) == matching_indices(
                names.subrange(0, i as int),
                arch,
                os,
                libc,
            ),
            forall|k: int| 0 <= k < idxs@.len() ==> #[trigger] idxs@[k] < i,
        decreases assets@.len() - i,
    {
        let m = name_matches_exec(&assets[i].name, filter, libc);
        proof {
            assert(names.subrange(0, i + 1).drop_last() =~= names.subrange(0, i as int));
            assert(names.subrange(0, i + 1).last() == names[i as int]);
            assert(names[i as int] == assets@[i as int].name@);
        }
        if m {
            idxs.push(i);
            proof {
                assert(idxs@.map_values(|u: usize| u as int) =~= matching_indices(
                    names.subrange(0, i + 1),
                    arch,
                    os,
                    libc,
                ));
            }
        }
        i += 1;
    }
    proof {
        assert(names.subrange(0, names.len() as int) =~= names);
        lemma_matching_indices_props(names, arch, os, libc);
    }
    let ghost mi = matching_indices(names, arch, os, libc);
    if idxs.len() == 0 {
        SelectOutcome::NoneFound
    } else if idxs.len() == 1 {
        let chosen = idxs[0];
        proof {
            assert(mi[0] == idxs@[0] as int);
            assert forall|j: int|
                0 <= j < names.len() && j != chosen implies !(#[trigger] name_matches(
                names[j],
                arch,
                os,
                libc,
            )) by {
                if name_matches(names[j], arch, os, libc) {
                    let w = choose|w: int| 0 <= w < mi.len() && mi[w] == j;
                    assert(w == 0);
                }
            }
        }
        SelectOutcome::Selected(chosen)
    } else {
        let mut ns: Vec<String> = Vec::new();
        let mut k: usize = 0;
        while k < idxs.len()
            invariant
                k <= idxs@.len(),
                mi == matching_indices(names, arch, os, libc),
                names == assets@.map_values(|a: ReleaseAsset| a.name@),
                idxs@.map_values(|u: usize| u as int) == mi,
                forall|t: int| 0 <= t < mi.len() ==> 0 <= #[trigger] mi[t] < assets@.len(),
                ns@.len() == k,
                forall|t: int| 0 <= t < k ==> #[trigger] ns@[t]@ == names[mi[t]],
            decreases idxs@.len() - k,
        {
            proof {
                assert(mi[k as int] == idxs@[k as int] as int);
            }
            let idx = idxs[k];
            ns.push(assets[idx].name.clone());
            k += 1;
        }
        proof {
            assert(views_of(ns@) =~= mi.map_values(|t: int| names[t]));
        }
        SelectOutcome::Ambiguous(ns)
    }
}

/// Law: selection is a pure predicate of the asset names, the platform
/// aliases and the libc choice. Two selection outcomes that both satisfy
/// `select`'s contract for the same inputs are the same outcome — the same
/// chosen index, or the same error class with the same listed names.
pub proof fn lemma_selection_deterministic(
    r1: SelectOutcome,
    r2: SelectOutcome,
    names: Seq<Seq<char>>,
    arch_aliases: Seq<Seq<char>>,
    os_aliases: Seq<Seq<char>>,
    libc: Libc,
)
    requires
        outcome_view(r1) == selection_of(names, arch_aliases, os_aliases, libc),
        outcome_view(r2) == selection_of(names, arch_aliases, os_aliases, libc),
    ensures
        outcome_view(r1) == outcome_view(r2),
{
}

} // verus!
