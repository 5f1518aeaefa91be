//! Archive installer decisions: which downloaded files count as archives,
//! and how per-member extraction outcomes fold into the list of candidate
//! files. Extraction that fails only because a member already exists on disk
//! is a no-op, not an error; any other failure aborts the install.

use vstd::prelude::*;
use crate::error::InstallError;

verus! {

/// Whether the archive machinery recognizes the file at this path (by its
/// name) as an extractable container.
pub uninterp spec fn archive_recognized(path: Seq<char>) -> bool;

/// Relies on decompress::can_decompress: each decompressor in the default
/// stack tests the path against its filename pattern, so recognition depends
/// on the path alone.
#[verifier::external_body]
pub(crate) fn probe_archive(path: &String) -> (r: bool)
    ensures
        r == archive_recognized(path@),
{
    decompress::can_decompress(std::path::Path::new(path.as_str()))
}

/// What one member's extraction came to, as the driver reports it.
#[derive(Debug)]
pub enum MemberOutcome {
    /// The member was written; `path` is where it landed.
    Extracted { path: String },
    /// The member was already on disk from a prior run; nothing was written.
    AlreadyExists,
    /// Extraction failed for some other reason.
    Failed { message: String },
}

/// The paths of the members actually written, in order.
pub open spec fn extracted_paths(outcomes: Seq<MemberOutcome>) -> Seq<Seq<char>>
    decreases outcomes.len(),
{
    if outcomes.len() == 0 {
        Seq::empty()
    } else {
        let rest = extracted_paths(outcomes.drop_first());
        match outcomes[0] {
            MemberOutcome::Extracted { path } => seq![path@] + rest,
            _ => rest,
        }
    }
}

/// The message of the first fatal outcome, if any.
pub open spec fn first_failure(outcomes: Seq<MemberOutcome>) -> Option<Seq<char>>
    decreases outcomes.len(),
{
    if outcomes.len() == 0 {
        None
    } else {
        match outcomes[0] {
            MemberOutcome::Failed { message } => Some(message@),
            _ => first_failure(outcomes.drop_first()),
        }
    }
}

/// Fold per-member outcomes into the candidate list: members written are
/// collected, members already on disk are passed over, and the first fatal
/// outcome aborts the whole step.
pub fn collect_members(outcomes: &Vec<MemberOutcome>) -> (r: Result<Vec<String>, InstallError>)
    ensures
        r is Ok <==> first_failure(outcomes@) is None,
        r matches Ok(ps) ==> crate::platform::views_of(ps@) == extracted_paths(outcomes@),
        r matches Err(e) ==> e matches InstallError::ExtractionFailed { message } && Some(
            message@,
        ) == first_failure(outcomes@),
{
    let mut ps: Vec<String> = Vec::new();
    let mut i: usize = 0;
    while i < outcomes.len()
        invariant
            i <= outcomes@.len(),
            first_failure(outcomes@.subrange(0, i as int)) is None,
            crate::platform::views_of(ps@) == extracted_paths(outcomes@.subrange(0, i as int)),
        decreases outcomes@.len() - i,
    {
        let ghost pre = outcomes@.subrange(0, i as int);
        match &outcomes[i] {
            MemberOutcome::Extracted { path } => {
                ps.push(path.clone());
            },
            MemberOutcome::AlreadyExists => {},
            MemberOutcome::Failed { message } => {
                proof {
                    lemma_prefix_failure(outcomes@, i as int);
                }
                return Err(InstallError::ExtractionFailed { message: message.clone() });
            },
        }
        proof {
            lemma_prefix_step(outcomes@, i as int);
            assert(crate::platform::views_of(ps@) =~= extracted_paths(
                outcomes@.subrange(0, i + 1),
            ));
        }
        i += 1;
    }
    proof {
        assert(outcomes@.subrange(0, outcomes@.len() as int) =~= outcomes@);
    }
    Ok(ps)
}

/// Extending a fatality-free prefix by one non-fatal outcome keeps it
/// fatality-free and appends exactly the written member, if one was written.
proof fn lemma_prefix_step(outcomes: Seq<MemberOutcome>, i: int)
    requires
        0 <= i < outcomes.len(),
        first_failure(outcomes.subrange(0, i)) is None,
        !(outcomes[i] is Failed),
    ensures
        first_failure(outcomes.subrange(0, i + 1)) is None,
        extracted_paths(outcomes.subrange(0, i + 1)) == if outcomes[i] is Extracted {
            extracted_paths(outcomes.subrange(0, i)) + seq![outcomes[i]->Extracted_path@]
        } else {
            extracted_paths(outcomes.subrange(0, i))
        },
    decreases i,
{
    let pre = outcomes.subrange(0, i);
    let ext = outcomes.subrange(0, i + 1);
    if i == 0 {
        assert(ext[0] == outcomes[0]);
        assert(ext.drop_first() =~= Seq::<MemberOutcome>::empty());
        assert(pre =~= Seq::<MemberOutcome>::empty());
        if outcomes[0] is Extracted {
            assert(extracted_paths(ext) =~= extracted_paths(pre) + seq![
                outcomes[0]->Extracted_path@,
            ]);
        }
    } else {
        assert(pre.drop_first() =~= outcomes.drop_first().subrange(0, i - 1));
        assert(ext.drop_first() =~= outcomes.drop_first().subrange(0, i));
        assert(pre[0] == outcomes[0]);
        assert(ext[0] == outcomes[0]);
        assert(outcomes.drop_first()[i - 1] == outcomes[i]);
        lemma_prefix_step(outcomes.drop_first(), i - 1);
        if outcomes[i] is Extracted {
            assert(extracted_paths(ext) =~= extracted_paths(pre) + seq![
                outcomes[i]->Extracted_path@,
            ]);
        } else {
            assert(extracted_paths(ext) =~= extracted_paths(pre));
        }
    }
}

/// A fatality-free prefix followed by a fatal outcome makes that outcome the
/// first failure of the whole sequence.
proof fn lemma_prefix_failure(outcomes: Seq<MemberOutcome>, i: int)
    requires
        0 <= i < outcomes.len(),
        first_failure(outcomes.subrange(0, i)) is None,
        outcomes[i] is Failed,
    ensures
        first_failure(outcomes) == Some(outcomes[i]->Failed_message@),
    decreases i,
{
    if i == 0 {
    } else {
        assert(outcomes.subrange(0, i).drop_first() =~= outcomes.drop_first().subrange(0, i - 1));
        assert(outcomes.subrange(0, i)[0] == outcomes[0]);
        lemma_prefix_failure(outcomes.drop_first(), i - 1);
    }
}

/// Recording one more non-fatal outcome keeps the record fatality-free.
pub proof fn lemma_push_non_failure(outcomes: Seq<MemberOutcome>, o: MemberOutcome)
    requires
        first_failure(outcomes) is None,
        !(o is Failed),
    ensures
        first_failure(outcomes.push(o)) is None,
    decreases outcomes.len(),
{
    if outcomes.len() == 0 {
        assert(outcomes.push(o)[0] == o);
        assert(outcomes.push(o).drop_first() =~= Seq::<MemberOutcome>::empty());
    } else {
        assert(outcomes.push(o)[0] == outcomes[0]);
        assert(outcomes.push(o).drop_first() =~= outcomes.drop_first().push(o));
        lemma_push_non_failure(outcomes.drop_first(), o);
    }
}

/// Law: a member that already exists on disk from a prior run does not abort
/// extraction of subsequent members, nor change what is collected — the
/// outcome sequence with the already-existing member removed folds to the
/// very same result.
pub proof fn lemma_already_exists_no_abort(pre: Seq<MemberOutcome>, post: Seq<MemberOutcome>)
    ensures
        first_failure(pre + seq![MemberOutcome::AlreadyExists] + post) == first_failure(pre + post),
        extracted_paths(pre + seq![MemberOutcome::AlreadyExists] + post) == extracted_paths(
            pre + post,
        ),
    decreases pre.len(),
{
    let with = pre + seq![MemberOutcome::AlreadyExists] + post;
    let without = pre + post;
    if pre.len() == 0 {
        assert(with[0] == MemberOutcome::AlreadyExists);
        assert(with.drop_first() =~= without);
    } else {
        lemma_already_exists_no_abort(pre.drop_first(), post);
        assert(with[0] == pre[0]);
        assert(without[0] == pre[0]);
        assert(with.drop_first() =~= pre.drop_first() + seq![MemberOutcome::AlreadyExists] + post);
        assert(without.drop_first() =~= pre.drop_first() + post);
    }
}

} // verus!
