use vstd::prelude::*;
use crate::emulator::{SavedPdfEntry, SavedPdfView, saved_view};

verus! {

/// Panel displaying PDF save status and history
pub struct SaveStatusPanel;

impl Default for SaveStatusPanel {
    fn default() -> (p: Self)
        ensures
            p == SaveStatusPanel,
    {
        Self
    }
}

/// Number of receipts in the log that were saved.
pub open spec fn success_count(log: Seq<SavedPdfView>) -> nat
    decreases log.len(),
{
    if log.len() == 0 {
        0
    } else {
        success_count(log.drop_last()) + if log.last().status is Success {
            1nat
        } else {
            0nat
        }
    }
}

impl SaveStatusPanel {
    pub fn new() -> (p: Self)
        ensures
            p == SaveStatusPanel,
    {
        Self::default()
    }

    /// How many receipts of the log were saved and how many failed.
    pub fn save_counts(saved: &Vec<SavedPdfEntry>) -> (counts: (usize, usize))
        ensures
            counts.0 == success_count(saved_view(saved@)),
            counts.0 + counts.1 == saved@.len(),
    {
        let ghost log = saved_view(saved@);
        let n = saved.len();
        let mut ok: usize = 0;
        let mut i: usize = 0;
        while i < n
            invariant
                n == saved@.len(),
                log == saved_view(saved@),
                0 <= i <= n,
                ok == success_count(log.take(i as int)),
                ok <= i,
            decreases n - i,
        {
            proof {
                assert(log.take(i + 1).drop_last() =~= log.take(i as int));
                assert(log[i as int] == saved@[i as int]@);
            }
            match &saved[i].status {
                crate::emulator::SaveStatus::Success => ok = ok + 1,
                crate::emulator::SaveStatus::Failed(_) => {},
            }
            i = i + 1;
        }
        assert(log.take(n as int) =~= log);
        (ok, n - ok)
    }
}

} // verus!
