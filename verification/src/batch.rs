//! Batch downloading: the per-item decision and the outcome accounting. The
//! caller performs the fetches and the file writes; this module decides, for
//! each result and its fetch event, what happens to it, and guarantees that
//! one outcome is recorded and the progress indicator advances exactly once
//! per result — a single item's trouble never aborts the batch.

use crate::policy::{extension_of, extension_spec, should_accept, should_accept_spec};
use crate::results::SearchResult;
use vstd::prelude::*;

verus! {

/// What one fetch of a result's link produced: a response with its declared
/// content type (absent when the header was missing), or a transport-level
/// failure.
#[derive(Debug, Clone)]
pub enum FetchEvent {
    Fetched { content_type: Option<String> },
    Failed { message: String },
}

/// The view of a fetch event.
pub ghost enum FetchEventView {
    Fetched { content_type: Option<Seq<char>> },
    Failed { message: Seq<char> },
}

impl View for FetchEvent {
    type V = FetchEventView;

    open spec fn view(&self) -> FetchEventView {
        match self {
            FetchEvent::Fetched { content_type } => FetchEventView::Fetched {
                content_type: match content_type {
                    Some(ct) => Some(ct@),
                    None => None,
                },
            },
            FetchEvent::Failed { message } => FetchEventView::Failed { message: message@ },
        }
    }
}

/// The per-result outcome: the content is to be written under `path`, the
/// policy skipped it, or this item failed (which never fails the batch).
#[derive(Debug, Clone)]
pub enum DownloadOutcome {
    Accepted { path: String, extension: String },
    Rejected,
    Failed { message: String },
}

/// The view of a download outcome.
pub ghost enum OutcomeView {
    Accepted { path: Seq<char>, extension: Seq<char> },
    Rejected,
    Failed { message: Seq<char> },
}

impl View for DownloadOutcome {
    type V = OutcomeView;

    open spec fn view(&self) -> OutcomeView {
        match self {
            DownloadOutcome::Accepted { path, extension } => OutcomeView::Accepted {
                path: path@,
                extension: extension@,
            },
            DownloadOutcome::Rejected => OutcomeView::Rejected,
            DownloadOutcome::Failed { message } => OutcomeView::Failed { message: message@ },
        }
    }
}

/// The file path an accepted item is written to: `{dir}/{title}.{ext}`.
pub open spec fn file_path_spec(dir: Seq<char>, title: Seq<char>, ext: Seq<char>) -> Seq<char> {
    dir + "/"@ + title + "."@ + ext
}

/// The decision for one result: a failed fetch or a missing content-type
/// header is this item's (recovered) error; otherwise the policy decides,
/// and an accepted item gets its target path from the extracted extension.
pub open spec fn decide_spec(
    title: Seq<char>,
    ev: FetchEventView,
    unsafe_mode: bool,
    dir: Seq<char>,
) -> OutcomeView {
    match ev {
        FetchEventView::Failed { message } => OutcomeView::Failed { message },
        FetchEventView::Fetched { content_type } => match content_type {
            None => OutcomeView::Failed { message: "missing content-type header"@ },
            Some(ct) => if should_accept_spec(ct, unsafe_mode) {
                OutcomeView::Accepted {
                    path: file_path_spec(dir, title, extension_spec(ct)),
                    extension: extension_spec(ct),
                }
            } else {
                OutcomeView::Rejected
            },
        },
    }
}

fn make_file_path(dir: &str, title: &str, ext: &str) -> (r: String)
    ensures
        r@ == file_path_spec(dir@, title@, ext@),
{
    let mut r = String::new();
    r.append(dir);
    r.append("/");
    r.append(title);
    r.append(".");
    r.append(ext);
    proof {
        assert(r@ =~= file_path_spec(dir@, title@, ext@));
    }
    r
}

/// Decides one result's fate from its fetch event.
pub fn decide_download(
    title: &String,
    event: &FetchEvent,
    unsafe_mode: bool,
    output_dir: &String,
) -> (o: DownloadOutcome)
    ensures
        o@ == decide_spec(title@, event@, unsafe_mode, output_dir@),
{
    match event {
        FetchEvent::Failed { message } => DownloadOutcome::Failed { message: message.clone() },
        FetchEvent::Fetched { content_type } => match content_type {
            None => DownloadOutcome::Failed {
                message: "missing content-type header".to_owned(),
            },
            Some(ct) => {
                if should_accept(ct.as_str(), unsafe_mode) {
                    let ext = extension_of(ct.as_str());
                    let path = make_file_path(output_dir.as_str(), title.as_str(), ext.as_str());
                    DownloadOutcome::Accepted { path, extension: ext }
                } else {
                    DownloadOutcome::Rejected
                }
            },
        },
    }
}

/// The progress indicator: advances exactly once per processed result and
/// reaches the total exactly at the end of the batch.
#[derive(Debug, Clone, Copy)]
pub struct Progress {
    pub done: usize,
    pub total: usize,
}

impl Progress {
    /// The count never runs past the total.
    pub open spec fn wf(&self) -> bool {
        self.done <= self.total
    }

    /// The whole batch has been accounted for.
    pub open spec fn finished(&self) -> bool {
        self.done == self.total
    }

    pub fn new(total: usize) -> (p: Progress)
        ensures
            p.wf(),
            p.done == 0,
            p.total == total,
    {
        Progress { done: 0, total }
    }

    /// One more result has been processed (success, rejection and error
    /// alike).
    pub fn inc(&mut self)
        requires
            old(self).wf(),
            old(self).done < old(self).total,
        ensures
            final(self).wf(),
            final(self).done == old(self).done + 1,
            final(self).total == old(self).total,
    {
        self.done = self.done + 1;
    }

    pub fn is_finished(&self) -> (r: bool)
        ensures
            r == self.finished(),
    {
        self.done == self.total
    }
}

/// The outcome of a whole batch: one outcome per result, and the progress
/// indicator that accompanied it.
pub struct BatchReport {
    pub outcomes: Vec<DownloadOutcome>,
    pub progress: Progress,
}

/// Processes the results strictly in input order: one outcome per result,
/// each the decision for that result's own fetch event, with the progress
/// indicator advanced exactly once per result and finished at the end.
/// However many items failed, the batch itself always completes.
pub fn run_batch(
    results: &Vec<SearchResult>,
    events: &Vec<FetchEvent>,
    unsafe_mode: bool,
    output_dir: &String,
) -> (r: BatchReport)
    requires
        events@.len() == results@.len(),
    ensures
        r.outcomes@.len() == results@.len(),
        forall|i: int|
            0 <= i < results@.len() ==> (#[trigger] r.outcomes@[i])@ == decide_spec(
                results@[i].title@,
                events@[i]@,
                unsafe_mode,
                output_dir@,
            ),
        r.progress.wf(),
        r.progress.finished(),
        r.progress.done == results@.len(),
        r.progress.total == results@.len(),
{
    let mut outcomes: Vec<DownloadOutcome> = Vec::new();
    let mut progress = Progress::new(results.len());
    let mut i: usize = 0;
    while i < results.len()
        invariant
            i <= results@.len(),
            events@.len() == results@.len(),
            outcomes@.len() == i,
            progress.wf(),
            progress.done == i,
            progress.total == results@.len(),
            forall|k: int|
                0 <= k < i ==> (#[trigger] outcomes@[k])@ == decide_spec(
                    results@[k].title@,
                    events@[k]@,
                    unsafe_mode,
                    output_dir@,
                ),
        decreases results@.len() - i,
    {
        progress.inc();
        let o = decide_download(&results[i].title, &events[i], unsafe_mode, output_dir);
        outcomes.push(o);
        i = i + 1;
    }
    BatchReport { outcomes, progress }
}

} // verus!
