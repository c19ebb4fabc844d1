use vstd::prelude::*;
use crate::datefmt::formatted_date;
use crate::job::TransferJob;
use crate::paths::{join_spec, lemma_join_injective};

verus! {

/// The grouping directory a creation timestamp of `secs` resolves to:
/// `destinationRoot/<formatted date>`.
pub open spec fn resolved_group_dir(job: TransferJob, secs: int) -> Seq<char> {
    join_spec(job.destination_root@, formatted_date(secs, job.date_format@))
}

/// The destination of an ungrouped file: `destinationRoot/<name>`.
pub open spec fn resolved_flat_dest(job: TransferJob, name: Seq<char>) -> Seq<char> {
    join_spec(job.destination_root@, name)
}

/// Law: grouping. Two creation timestamps whose formatted strings agree under
/// the job's date format resolve to the same grouping directory; two whose
/// formatted strings differ resolve to different grouping directories.
pub proof fn lemma_grouping_directories(job: TransferJob, t1: int, t2: int)
    ensures
        (formatted_date(t1, job.date_format@) == formatted_date(t2, job.date_format@))
            == (resolved_group_dir(job, t1) == resolved_group_dir(job, t2)),
{
    lemma_join_injective(
        job.destination_root@,
        formatted_date(t1, job.date_format@),
        formatted_date(t2, job.date_format@),
    );
}

} // verus!
