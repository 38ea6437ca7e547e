use vstd::prelude::*;
use crate::budget::{ByteBudget, admits};
use crate::encoder::BitDepth;
use crate::paths::{copy_range, bytes_eq, derive_output_path, planned_output};

verus! {

/// Everything one file conversion needs, fixed once it is built. The core
/// is mono: the channel count is always one.
#[derive(Clone, Debug, PartialEq, Eq)]
pub struct ConversionRequest {
    pub input_path: Vec<u8>,
    pub output_path: Vec<u8>,
    pub sample_rate: u32,
    pub bit_depth: BitDepth,
    pub channel_count: u16,
}

impl ConversionRequest {
    /// A well-formed request is mono.
    pub open spec fn wf(self) -> bool {
        self.channel_count == 1
    }

    /// Builds a mono request.
    pub fn new(
        input_path: Vec<u8>,
        output_path: Vec<u8>,
        sample_rate: u32,
        bit_depth: BitDepth,
    ) -> (req: ConversionRequest)
        ensures
            req.wf(),
            req.input_path == input_path,
            req.output_path == output_path,
            req.sample_rate == sample_rate,
            req.bit_depth == bit_depth,
            req.channel_count == 1,
    {
        ConversionRequest { input_path, output_path, sample_rate, bit_depth, channel_count: 1 }
    }
}

/// Why an entry was skipped: the budget refused it, or it is the output
/// root itself, which a walk must never convert or descend into.
#[derive(Clone, Copy, Debug, PartialEq, Eq, Structural)]
pub enum SkipReason {
    Budget,
    OutputRoot,
}

/// What a walk does with one admitted or rejected entry. A skip is
/// terminal for the entry; a rejected directory is not recursed into.
#[derive(Clone, Debug, PartialEq, Eq)]
pub enum EntryAction {
    Skip(SkipReason),
    Recurse,
    Convert(ConversionRequest),
}

/// Decides one entry of a directory walk, in the order the walk owes:
/// first the budget is consulted with the entry's size — a rejected entry
/// is skipped outright and charged nothing; an admitted entry is charged in
/// full, then skipped if it is the output root, recursed into if it is a
/// directory, and otherwise turned into a conversion request whose output
/// path is derived from the entry under the output root.
///
/// The decision for one entry reads and writes nothing but the budget, so
/// sibling entries can be decided in any order or concurrently, each
/// against the shared budget alone.
pub fn plan_entry(
    budget: &mut ByteBudget,
    entry_path: &Vec<u8>,
    entry_is_dir: bool,
    entry_size: u64,
    output_root: &Vec<u8>,
    sample_rate: u32,
    bit_depth: BitDepth,
) -> (action: EntryAction)
    requires
        old(budget).wf(),
    ensures
        final(budget).wf(),
        final(budget).limit() == old(budget).limit(),
        !admits(old(budget).consumed() as int, old(budget).limit() as int, entry_size as int) ==> {
            &&& action == EntryAction::Skip(SkipReason::Budget)
            &&& final(budget).consumed() == old(budget).consumed()
        },
        admits(old(budget).consumed() as int, old(budget).limit() as int, entry_size as int) ==> {
            &&& final(budget).consumed() == old(budget).consumed() + entry_size
            &&& (entry_path@ == output_root@ ==> action == EntryAction::Skip(SkipReason::OutputRoot))
            &&& (entry_path@ != output_root@ && entry_is_dir ==> action == EntryAction::Recurse)
        },
        (admits(old(budget).consumed() as int, old(budget).limit() as int, entry_size as int)
            && entry_path@ != output_root@ && !entry_is_dir) ==> {
            &&& action matches EntryAction::Convert(req)
            &&& req.wf()
            &&& req.input_path@ == entry_path@
            &&& req.output_path@ == planned_output(entry_path@, output_root@)
            &&& req.sample_rate == sample_rate
            &&& req.bit_depth == bit_depth
        },
{
    let admitted = budget.try_admit(entry_size);
    if !admitted {
        return EntryAction::Skip(SkipReason::Budget);
    }
    if bytes_eq(entry_path, output_root) {
        return EntryAction::Skip(SkipReason::OutputRoot);
    }
    if entry_is_dir {
        EntryAction::Recurse
    } else {
        let input_copy = copy_range(entry_path, 0, entry_path.len());
        let output_path = derive_output_path(entry_path, output_root);
        proof {
            assert(input_copy@ =~= entry_path@);
        }
        EntryAction::Convert(ConversionRequest::new(input_copy, output_path, sample_rate, bit_depth))
    }
}

} // verus!
