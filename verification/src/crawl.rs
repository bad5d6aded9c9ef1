//! The progress of a server's crawl, as one label.

use vstd::prelude::*;
use crate::decimal::{append_decimal, decimal_text};

verus! {

/// What is known of a server's crawl at the moment the dashboard looks.
#[derive(Clone, Debug, PartialEq, Eq)]
pub enum CrawlingStatus {
    /// The crawl has not started.
    Waiting,
    /// The crawl is picking up progress saved earlier.
    Restoring,
    /// The crawl ended abnormally; the text says why.
    CrawlingFailed(String),
    /// The crawl is running. `remaining` is what the queue reported as still
    /// to do and `collected` is the number of records already stored. The two
    /// are read one after the other, so they may belong to different moments.
    Crawling { remaining: usize, collected: usize },
}

impl CrawlingStatus {
    /// The label shown for the crawl. A running crawl shows `Finished` once
    /// the collected records make up the total, and the fraction
    /// `collected/total` before that, the total being what remains plus what
    /// is collected.
    pub open spec fn progress_text(self) -> Seq<char> {
        match self {
            CrawlingStatus::Waiting => "Waiting"@,
            CrawlingStatus::Restoring => "Restoring"@,
            CrawlingStatus::CrawlingFailed(_) => "Error"@,
            CrawlingStatus::Crawling { remaining, collected } => {
                let total = remaining + collected;
                if collected == total {
                    "Finished"@
                } else {
                    decimal_text(collected as nat) + "/"@ + decimal_text(total as nat)
                }
            },
        }
    }

    /// Computes the label shown for the crawl.
    pub fn progress_label(&self) -> (label: String)
        ensures
            label@ == self.progress_text(),
    {
        match self {
            CrawlingStatus::Waiting => "Waiting".to_owned(),
            CrawlingStatus::Restoring => "Restoring".to_owned(),
            CrawlingStatus::CrawlingFailed(_) => "Error".to_owned(),
            CrawlingStatus::Crawling { remaining, collected } => {
                let collected: u128 = *collected as u128;
                let total: u128 = *remaining as u128 + collected;
                if collected == total {
                    "Finished".to_owned()
                } else {
                    let mut label = String::new();
                    append_decimal(&mut label, collected);
                    label.append("/");
                    append_decimal(&mut label, total);
                    assert(label@ =~= decimal_text(collected as nat) + "/"@ + decimal_text(
                        total as nat,
                    ));
                    label
                }
            },
        }
    }
}

} // verus!
