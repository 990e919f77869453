use vstd::prelude::*;

use crate::errors::Error;
use crate::kind::DataKind;
use minreq::Error as MinreqError;

verus! {

/// One entry of a remote file listing: the file's name and the location its
/// contents can be fetched from.
pub struct RemoteEntry {
    pub name: String,
    pub download_url: String,
}

/// Where the bootstrap stands: waiting for a category's listing, for one
/// entry's contents, or for a write to finish; or over, successfully or
/// not.
#[derive(Debug, Clone, Copy, PartialEq, Eq, Structural)]
pub enum Phase {
    Listing,
    Fetching,
    Writing,
    Done,
    Aborted,
}

/// What the embedding application reports back after performing the last
/// requested action.
pub enum BootstrapEvent {
    /// The listing request succeeded with these entries.
    ListingOk(Vec<RemoteEntry>),
    /// The listing request failed.
    ListingErr(MinreqError),
    /// The current entry's contents were fetched.
    FileOk(Vec<u8>),
    /// The current entry's fetch failed; the entry is skipped.
    FileErr,
    /// The fetched contents were written to disk.
    WriteOk,
    /// The fetched contents could not be written.
    WriteErr(std::io::Error),
}

/// What the bootstrap asks the embedding application to do next.
pub enum BootstrapAction {
    /// Request the remote file listing of this category.
    GetListing(DataKind),
    /// Fetch the contents behind this location.
    GetFile(String),
    /// Write these contents under this file name inside this category's
    /// subdirectory of the data directory.
    Write(DataKind, String, Vec<u8>),
    /// All categories are through; build the store.
    Finished,
    /// The bootstrap is aborted with this failure.
    Failed(Error),
}

/// The bootstrap's state between two actions: the category being populated,
/// its listing so far, and the entry being worked on.
pub struct Bootstrap {
    pub kind: DataKind,
    pub entries: Vec<RemoteEntry>,
    pub idx: usize,
    pub phase: Phase,
}

/// How long a single bootstrap request may take, in seconds, so that one
/// unreachable remote source cannot hang the process.
pub const REQUEST_TIMEOUT_SECS: u64 = 8;

/// The remote listing location of a category's repository.
pub open spec fn listing_url_spec(kind: DataKind) -> Seq<char> {
    match kind {
        DataKind::Corpus => "https://api.github.com/repos/semilin/km_corpora/contents/"@,
        DataKind::Keyboard => "https://api.github.com/repos/semilin/km_metric_data/contents/"@,
        DataKind::Layout => "https://api.github.com/repos/semilin/km_layouts/contents/"@,
    }
}

/// The location a category's remote file listing is requested from.
pub fn listing_url(kind: DataKind) -> (r: String)
    ensures
        r@ == listing_url_spec(kind),
{
    match kind {
        DataKind::Corpus => "https://api.github.com/repos/semilin/km_corpora/contents/".to_owned(),
        DataKind::Keyboard => "https://api.github.com/repos/semilin/km_metric_data/contents/".to_owned(),
        DataKind::Layout => "https://api.github.com/repos/semilin/km_layouts/contents/".to_owned(),
    }
}

/// The category that is populated after `kind`, if any; categories go in
/// the fixed order corpora, metrics, layouts.
pub open spec fn next_kind(kind: DataKind) -> Option<DataKind> {
    match kind {
        DataKind::Corpus => Some(DataKind::Keyboard),
        DataKind::Keyboard => Some(DataKind::Layout),
        DataKind::Layout => None,
    }
}

impl Bootstrap {
    /// While an entry is being fetched or written, the index points into
    /// the listing.
    pub open spec fn wf(self) -> bool {
        match self.phase {
            Phase::Fetching | Phase::Writing => self.idx < self.entries@.len(),
            _ => true,
        }
    }

    /// Which report the machine can take next: the one answering the
    /// action it last asked for. A finished or aborted machine takes none.
    pub open spec fn accepts(self, ev: BootstrapEvent) -> bool {
        match self.phase {
            Phase::Listing => ev is ListingOk || ev is ListingErr,
            Phase::Fetching => ev is FileOk || ev is FileErr,
            Phase::Writing => ev is WriteOk || ev is WriteErr,
            Phase::Done => false,
            Phase::Aborted => false,
        }
    }
}

/// The machine after the current entry is dealt with (written or skipped)
/// and `next` is the first listing position not yet handled: fetch the
/// entry there, or move to the next category's listing, or finish.
pub open spec fn advance_spec(kind: DataKind, entries: Vec<RemoteEntry>, next: usize) -> (
    Bootstrap,
    BootstrapAction,
) {
    if (next as int) < entries@.len() {
        (
            Bootstrap { kind, entries, idx: next, phase: Phase::Fetching },
            BootstrapAction::GetFile(entries@[next as int].download_url),
        )
    } else {
        match next_kind(kind) {
            Some(k2) => (
                Bootstrap { kind: k2, entries, idx: 0, phase: Phase::Listing },
                BootstrapAction::GetListing(k2),
            ),
            None => (
                Bootstrap { kind, entries, idx: 0, phase: Phase::Done },
                BootstrapAction::Finished,
            ),
        }
    }
}

/// The bootstrap's whole decision rule: what the machine becomes and asks
/// for on each report. A failed listing or write aborts everything; a
/// failed fetch only skips its entry.
pub open spec fn step_spec(st: Bootstrap, ev: BootstrapEvent) -> (Bootstrap, BootstrapAction) {
    match ev {
        BootstrapEvent::ListingOk(es) => advance_spec(st.kind, es, 0),
        BootstrapEvent::ListingErr(e) => (
            Bootstrap { phase: Phase::Aborted, ..st },
            BootstrapAction::Failed(Error::Download(e)),
        ),
        BootstrapEvent::FileOk(b) => (
            Bootstrap { phase: Phase::Writing, ..st },
            BootstrapAction::Write(st.kind, st.entries@[st.idx as int].name, b),
        ),
        BootstrapEvent::FileErr => advance_spec(st.kind, st.entries, (st.idx + 1) as usize),
        BootstrapEvent::WriteOk => advance_spec(st.kind, st.entries, (st.idx + 1) as usize),
        BootstrapEvent::WriteErr(e) => (
            Bootstrap { phase: Phase::Aborted, ..st },
            BootstrapAction::Failed(Error::FileWrite(e)),
        ),
    }
}

fn advance(kind: DataKind, entries: Vec<RemoteEntry>, next: usize) -> (r: (
    Bootstrap,
    BootstrapAction,
))
    ensures
        r == advance_spec(kind, entries, next),
        r.0.wf(),
{
    if next < entries.len() {
        let url = entries[next].download_url.clone();
        (Bootstrap { kind, entries, idx: next, phase: Phase::Fetching }, BootstrapAction::GetFile(
            url,
        ))
    } else {
        match kind {
            DataKind::Corpus => (
                Bootstrap { kind: DataKind::Keyboard, entries, idx: 0, phase: Phase::Listing },
                BootstrapAction::GetListing(DataKind::Keyboard),
            ),
            DataKind::Keyboard => (
                Bootstrap { kind: DataKind::Layout, entries, idx: 0, phase: Phase::Listing },
                BootstrapAction::GetListing(DataKind::Layout),
            ),
            DataKind::Layout => (
                Bootstrap { kind, entries, idx: 0, phase: Phase::Done },
                BootstrapAction::Finished,
            ),
        }
    }
}

/// Starts the first-run bootstrap. The machine begins by asking for the
/// corpora listing; the embedding application performs each returned
/// action and reports its outcome through `step` until the machine
/// finishes or fails.
pub fn download_files() -> (r: (Bootstrap, BootstrapAction))
    ensures
        r.0.wf(),
        r.0.phase is Listing,
        r.0.kind == DataKind::Corpus,
        r.0.entries@ == Seq::<RemoteEntry>::empty(),
        r.0.idx == 0,
        r.1 == BootstrapAction::GetListing(DataKind::Corpus),
{
    (
        Bootstrap { kind: DataKind::Corpus, entries: Vec::new(), idx: 0, phase: Phase::Listing },
        BootstrapAction::GetListing(DataKind::Corpus),
    )
}

/// Feeds the machine the outcome of its last requested action and returns
/// its next state and request, exactly as `step_spec` lays down.
pub fn step(st: Bootstrap, ev: BootstrapEvent) -> (r: (Bootstrap, BootstrapAction))
    requires
        st.wf(),
        st.accepts(ev),
    ensures
        r == step_spec(st, ev),
        r.0.wf(),
{
    match ev {
        BootstrapEvent::ListingOk(es) => advance(st.kind, es, 0),
        BootstrapEvent::ListingErr(e) => (
            Bootstrap { phase: Phase::Aborted, ..st },
            BootstrapAction::Failed(Error::Download(e)),
        ),
        BootstrapEvent::FileOk(b) => {
            let name = st.entries[st.idx].name.clone();
            (Bootstrap { phase: Phase::Writing, ..st }, BootstrapAction::Write(st.kind, name, b))
        }
        BootstrapEvent::FileErr => {
            let n = st.entries.len();
            advance(st.kind, st.entries, st.idx + 1)
        }
        BootstrapEvent::WriteOk => {
            let n = st.entries.len();
            advance(st.kind, st.entries, st.idx + 1)
        }
        BootstrapEvent::WriteErr(e) => (
            Bootstrap { phase: Phase::Aborted, ..st },
            BootstrapAction::Failed(Error::FileWrite(e)),
        ),
    }
}

/// A failed listing request is fatal at once: the machine aborts with the
/// failure wrapped as a download error and asks for nothing further — in
/// particular, no write.
pub proof fn lemma_listing_failure_aborts(st: Bootstrap, e: MinreqError)
    requires
        st.wf(),
        st.phase is Listing,
    ensures
        step_spec(st, BootstrapEvent::ListingErr(e)).0.phase is Aborted,
        step_spec(st, BootstrapEvent::ListingErr(e)).1 == BootstrapAction::Failed(
            Error::Download(e),
        ),
{
}

/// A failed write is fatal at once: the machine aborts with the failure
/// wrapped as a file-write error.
pub proof fn lemma_write_failure_aborts(st: Bootstrap, e: std::io::Error)
    requires
        st.wf(),
        st.phase is Writing,
    ensures
        step_spec(st, BootstrapEvent::WriteErr(e)).0.phase is Aborted,
        step_spec(st, BootstrapEvent::WriteErr(e)).1 == BootstrapAction::Failed(
            Error::FileWrite(e),
        ),
{
}

/// One entry's failed fetch is not fatal: the machine skips the entry and
/// goes on — to the next entry, the next category's listing, or completion
/// — and neither writes that entry nor aborts.
pub proof fn lemma_fetch_failure_skips(st: Bootstrap)
    requires
        st.wf(),
        st.phase is Fetching,
    ensures
        !(step_spec(st, BootstrapEvent::FileErr).0.phase is Aborted),
        !(step_spec(st, BootstrapEvent::FileErr).1 is Write),
        !(step_spec(st, BootstrapEvent::FileErr).1 is Failed),
{
}

/// The machine asks for a write only in answer to a successful fetch, and
/// then writes exactly the fetched bytes under the listed entry's own name
/// in the category being populated: nothing reaches disk that was not just
/// fetched.
pub proof fn lemma_write_only_fetched_bytes(st: Bootstrap, ev: BootstrapEvent)
    requires
        st.wf(),
        st.accepts(ev),
    ensures
        step_spec(st, ev).1 matches BootstrapAction::Write(k, name, contents) ==> {
            &&& st.phase is Fetching
            &&& ev == BootstrapEvent::FileOk(contents)
            &&& k == st.kind
            &&& name == st.entries@[st.idx as int].name
        },
{
}

/// A finished or aborted machine is inert: it accepts no further report,
/// so an aborted bootstrap in particular can request no write after the
/// failure.
pub proof fn lemma_terminal_machine_accepts_nothing(st: Bootstrap, ev: BootstrapEvent)
    requires
        st.phase is Done || st.phase is Aborted,
    ensures
        !st.accepts(ev),
{
}

} // verus!
