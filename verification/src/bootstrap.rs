//! The bootstrap state machine for the helper instance.
//!
//! Before any higher-level operation runs, a distinguished helper
//! instance must exist.  The decision logic is a small state machine:
//! check the registry; when the helper is present, stop; when it is
//! missing, download its image, import it, and only then report it
//! present.  The machine here is pure: the embedding program performs
//! each step's work and feeds the result back as an event.

use vstd::prelude::*;

verus! {

/// Where the bootstrap of the helper instance stands.
#[derive(Clone, Copy, Debug, PartialEq, Eq, Structural)]
pub enum BootstrapPhase {
    /// Nothing queried yet.
    Unchecked,
    /// The registry query is in flight.
    Checking,
    /// The helper instance exists; bootstrap is complete.
    Present,
    /// The registry answered and the helper instance is absent.
    Missing,
    /// The image download is in flight.
    Downloading,
    /// The image is downloaded and the import is in flight.
    Importing,
    /// A download or import failed; bootstrap is over without a
    /// helper instance, fatal to startup.
    Failed,
}

/// One observation fed to the bootstrap machine.
#[derive(Clone, Copy, Debug, PartialEq, Eq, Structural)]
pub enum BootstrapEvent {
    /// The registry query was issued.
    Started,
    /// The registry answered whether the helper instance exists.
    Checked { exists: bool },
    /// The image download was issued.
    DownloadStarted,
    /// The image download finished, well or badly.
    DownloadFinished { ok: bool },
    /// The import finished, well or badly.
    ImportFinished { ok: bool },
}

/// A failure while acquiring the image archive.
#[derive(Clone, Copy, Debug, PartialEq, Eq, Structural)]
pub enum DownloadError {
    /// The destination file could not be created.
    CreateFailed,
    /// The network transfer failed or the response was not a success.
    TransferFailed,
}

/// What the embedding program must download: the image archive at
/// `url`, stored under `file_name` in a fresh temporary directory.
pub struct DownloadRequest {
    pub url: String,
    pub file_name: String,
}

/// The one transition relation of the bootstrap machine.  An event
/// that does not belong to the current phase changes nothing.
pub open spec fn bootstrap_step(p: BootstrapPhase, e: BootstrapEvent) -> BootstrapPhase {
    match (p, e) {
        (BootstrapPhase::Unchecked, BootstrapEvent::Started) => BootstrapPhase::Checking,
        (BootstrapPhase::Checking, BootstrapEvent::Checked { exists }) => if exists {
            BootstrapPhase::Present
        } else {
            BootstrapPhase::Missing
        },
        (BootstrapPhase::Missing, BootstrapEvent::DownloadStarted) => BootstrapPhase::Downloading,
        (BootstrapPhase::Downloading, BootstrapEvent::DownloadFinished { ok }) => if ok {
            BootstrapPhase::Importing
        } else {
            BootstrapPhase::Failed
        },
        (BootstrapPhase::Importing, BootstrapEvent::ImportFinished { ok }) => if ok {
            BootstrapPhase::Present
        } else {
            BootstrapPhase::Failed
        },
        _ => p,
    }
}

/// The phase reached from `p` after the whole event sequence `es`.
pub open spec fn bootstrap_run(p: BootstrapPhase, es: Seq<BootstrapEvent>) -> BootstrapPhase
    decreases es.len(),
{
    if es.len() == 0 {
        p
    } else {
        bootstrap_run(bootstrap_step(p, es[0]), es.drop_first())
    }
}

/// Once the helper instance is present, it stays present: no later
/// event sequence leaves the Present phase.
pub proof fn lemma_present_is_terminal(es: Seq<BootstrapEvent>)
    ensures
        bootstrap_run(BootstrapPhase::Present, es) == BootstrapPhase::Present,
    decreases es.len(),
{
    if es.len() > 0 {
        lemma_present_is_terminal(es.drop_first());
    }
}

/// Once the bootstrap has failed, it stays failed.
pub proof fn lemma_failed_is_terminal(es: Seq<BootstrapEvent>)
    ensures
        bootstrap_run(BootstrapPhase::Failed, es) == BootstrapPhase::Failed,
    decreases es.len(),
{
    if es.len() > 0 {
        lemma_failed_is_terminal(es.drop_first());
    }
}

/// Bootstrap determinism on the fast path: when the registry reports
/// the helper instance present, the machine moves straight to the
/// Present phase and never reaches the Downloading or Importing
/// phase afterwards, so no download and no import is ever requested.
pub proof fn lemma_fast_path_no_work(es: Seq<BootstrapEvent>)
    ensures
        bootstrap_step(BootstrapPhase::Checking, BootstrapEvent::Checked { exists: true })
            == BootstrapPhase::Present,
        bootstrap_run(
            bootstrap_step(BootstrapPhase::Checking, BootstrapEvent::Checked { exists: true }),
            es,
        ) == BootstrapPhase::Present,
{
    lemma_present_is_terminal(es);
}

/// The Importing phase is entered through exactly one door: a
/// download that finished well while a download was in flight.
pub proof fn lemma_import_entered_by_download(p: BootstrapPhase, e: BootstrapEvent)
    ensures
        bootstrap_step(p, e) is Importing ==> p is Importing || (p is Downloading
            && e == (BootstrapEvent::DownloadFinished { ok: true })),
{
}

/// Download-then-import sequencing: a run that stands in the
/// Importing phase saw a successful download on the way.
pub proof fn lemma_import_requires_download_success(p: BootstrapPhase, es: Seq<BootstrapEvent>)
    requires
        !(p is Importing),
        bootstrap_run(p, es) is Importing,
    ensures
        exists|i: int|
            0 <= i < es.len() && es[i] == (BootstrapEvent::DownloadFinished { ok: true }),
    decreases es.len(),
{
    let p1 = bootstrap_step(p, es[0]);
    if p1 is Importing {
        lemma_import_entered_by_download(p, es[0]);
        assert(es[0] == (BootstrapEvent::DownloadFinished { ok: true }));
    } else {
        lemma_import_requires_download_success(p1, es.drop_first());
        let i = choose|i: int|
            0 <= i < es.drop_first().len() && es.drop_first()[i] == (
            BootstrapEvent::DownloadFinished { ok: true });
        assert(es[i + 1] == (BootstrapEvent::DownloadFinished { ok: true }));
    }
}

/// A failed download short-circuits the bootstrap: whatever events
/// follow, the machine ends in the Failed phase and in particular
/// never enters the Importing phase.
pub proof fn lemma_download_failure_short_circuits(es: Seq<BootstrapEvent>)
    ensures
        bootstrap_run(
            bootstrap_step(BootstrapPhase::Downloading, BootstrapEvent::DownloadFinished {
                ok: false,
            }),
            es,
        ) == BootstrapPhase::Failed,
{
    lemma_failed_is_terminal(es);
}

} // verus!
