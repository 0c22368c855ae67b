use vstd::prelude::*;

use crate::queue::{Download, DownloadState};
use crate::template::{decimal, decimal_string};

verus! {

/// Progress in percent, rounded down and clamped to 100; a stream of unknown length
/// counts as complete once anything was read.
pub open spec fn percent(read: nat, total: nat) -> nat {
    if total == 0 {
        if read == 0 { 0 } else { 100 }
    } else if read * 100 / total > 100 {
        100
    } else {
        read * 100 / total
    }
}

/// Progress in percent of `read` bytes out of `total`.
pub fn progress_percent(read: usize, total: usize) -> (r: u64)
    ensures
        r == percent(read as nat, total as nat),
{
    if total == 0 {
        return if read == 0 { 0 } else { 100 };
    }
    let scaled: u128 = (read as u128) * 100;
    let p: u128 = scaled / (total as u128);
    if p > 100 {
        100
    } else {
        p as u64
    }
}

/// The text a status line shows for a state.
pub open spec fn status_label(s: DownloadState) -> Seq<char> {
    match s {
        DownloadState::Downloading(r, t) => decimal(percent(r as nat, t as nat)) + seq!['%'],
        DownloadState::Post => "Postprocessing... "@,
        DownloadState::Waiting | DownloadState::Lock => "Preparing... "@,
        DownloadState::Error(e) => e@ + seq![' '],
        DownloadState::Done => "Done."@,
    }
}

/// The text a status line shows for a state.
pub fn status_text(s: &DownloadState) -> (r: String)
    ensures
        r@ == status_label(*s),
{
    match s {
        DownloadState::Downloading(read, total) => {
            let mut t = decimal_string(progress_percent(*read, *total));
            t.append("%");
            proof {
                reveal_strlit("%");
            }
            t
        },
        DownloadState::Post => String::from_str("Postprocessing... "),
        DownloadState::Waiting | DownloadState::Lock => String::from_str("Preparing... "),
        DownloadState::Error(e) => {
            let mut t = e.clone();
            t.append(" ");
            proof {
                reveal_strlit(" ");
            }
            t
        },
        DownloadState::Done => String::from_str("Done."),
    }
}

/// Whether no entry waits, runs, or is being post-processed: every entry left has failed.
pub fn all_settled(entries: &Vec<Download>) -> (r: bool)
    ensures
        r == forall|i: int| 0 <= i < entries@.len() ==> (#[trigger] entries@[i]).state is Error || entries@[i].state is Done,
{
    let mut i: usize = 0;
    while i < entries.len()
        invariant
            i <= entries.len(),
            forall|k: int| 0 <= k < i ==> (#[trigger] entries@[k]).state is Error || entries@[k].state is Done,
        decreases entries.len() - i,
    {
        match entries[i].state {
            DownloadState::Error(_) | DownloadState::Done => {},
            _ => {
                return false;
            },
        }
        i = i + 1;
    }
    true
}

} // verus!
