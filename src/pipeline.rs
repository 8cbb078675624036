use vstd::prelude::*;
use crate::apply::check_applicable;
use crate::catalog::ImageBody;
use crate::error::PipelineError;
use crate::store::{store_path, WallpaperStore};

verus! {

/// Where a refresh cycle stands.
pub enum RefreshState {
    /// No cycle runs; the last one ended with `last_error`, or well.
    Idle { last_error: Option<PipelineError> },
    /// Waiting for the catalog's answer.
    FetchingMetadata,
    /// Waiting for the store directory to be cleared; `url` is then
    /// downloaded to `path`.
    ResettingStore { url: String, path: String },
    /// Waiting for the image to be written to `path`.
    Downloading { path: String },
    /// Waiting for the desktop picture to be set to `path`.
    Applying { path: String },
}

/// What the outside world reports back to the pipeline.
pub enum Event {
    /// A timer tick or a user's request for a new wallpaper.
    Trigger,
    /// The catalog's answer, decoded.
    MetadataFetched(Result<ImageBody, PipelineError>),
    /// The store directory was cleared and recreated, or could not be.
    StoreReset(Result<(), PipelineError>),
    /// The transfer ended: the size of the written file, or why it failed.
    Downloaded(Result<u64, PipelineError>),
    /// The desktop picture was set, or could not be.
    Applied(Result<(), PipelineError>),
}

/// What the pipeline asks the outside world to do next.
pub enum Action {
    /// Ask the catalog for a random image.
    FetchMetadata,
    /// Remove the store directory with all it holds, and create it anew.
    ResetStore,
    /// Write the image at `url` to `path`.
    Download { url: String, path: String },
    /// Set the desktop picture to the file at `path`.
    Apply { path: String },
    /// Remove what a failed transfer left at `path`; the cycle ended with `error`.
    DiscardPartial { path: String, error: PipelineError },
    /// The cycle ended with this error.
    Fail(PipelineError),
    /// The cycle ended with the new wallpaper applied.
    Done,
    /// A cycle is already running; the trigger is turned down.
    Busy,
    /// The event does not belong to the current step; nothing to do.
    Ignore,
}

pub open spec fn is_idle(t: RefreshState, err: Option<PipelineError>) -> bool {
    t == RefreshState::Idle { last_error: err }
}

pub open spec fn is_resetting(t: RefreshState, url: Seq<char>, path: Seq<char>) -> bool {
    match t {
        RefreshState::ResettingStore { url: u, path: p } => u@ == url && p@ == path,
        _ => false,
    }
}

pub open spec fn is_downloading(t: RefreshState, path: Seq<char>) -> bool {
    match t {
        RefreshState::Downloading { path: p } => p@ == path,
        _ => false,
    }
}

pub open spec fn is_applying(t: RefreshState, path: Seq<char>) -> bool {
    match t {
        RefreshState::Applying { path: p } => p@ == path,
        _ => false,
    }
}

pub open spec fn asks_download(a: Action, url: Seq<char>, path: Seq<char>) -> bool {
    match a {
        Action::Download { url: u, path: p } => u@ == url && p@ == path,
        _ => false,
    }
}

pub open spec fn asks_apply(a: Action, path: Seq<char>) -> bool {
    match a {
        Action::Apply { path: p } => p@ == path,
        _ => false,
    }
}

pub open spec fn asks_discard(a: Action, path: Seq<char>, err: PipelineError) -> bool {
    match a {
        Action::DiscardPartial { path: p, error } => p@ == path && error == err,
        _ => false,
    }
}

/// One step of the refresh cycle in store directory `dir`: from state `s`, on
/// event `e`, the pipeline moves to `t` and asks for `a`.
///
/// A trigger starts a cycle only when none runs; otherwise it is turned down
/// and nothing changes. A cycle fetches metadata, clears the store, downloads
/// to the slug's path, and applies that file once it holds at least one byte.
/// Any failure ends the cycle idle with that error; a failed or empty transfer
/// also has its file discarded. Events that do not belong to the current step
/// change nothing.
pub open spec fn step(dir: Seq<char>, s: RefreshState, e: Event, t: RefreshState, a: Action) -> bool {
    match (s, e) {
        (RefreshState::Idle { .. }, Event::Trigger) => t is FetchingMetadata && a is FetchMetadata,
        (RefreshState::Idle { .. }, _) => t == s && a is Ignore,
        (_, Event::Trigger) => t == s && a is Busy,
        (RefreshState::FetchingMetadata, Event::MetadataFetched(Ok(img))) => is_resetting(
            t,
            img.urls.full@,
            store_path(dir, img.slug@),
        ) && a is ResetStore,
        (RefreshState::FetchingMetadata, Event::MetadataFetched(Err(err))) => is_idle(t, Some(err))
            && a == Action::Fail(err),
        (RefreshState::ResettingStore { url, path }, Event::StoreReset(Ok(_))) => is_downloading(
            t,
            path@,
        ) && asks_download(a, url@, path@),
        (RefreshState::ResettingStore { .. }, Event::StoreReset(Err(err))) => is_idle(t, Some(err))
            && a == Action::Fail(err),
        (RefreshState::Downloading { path }, Event::Downloaded(Ok(size))) => if size > 0 {
            is_applying(t, path@) && asks_apply(a, path@)
        } else {
            is_idle(t, Some(PipelineError::ApplyFailed)) && asks_discard(
                a,
                path@,
                PipelineError::ApplyFailed,
            )
        },
        (RefreshState::Downloading { path }, Event::Downloaded(Err(err))) => is_idle(t, Some(err))
            && asks_discard(a, path@, err),
        (RefreshState::Applying { .. }, Event::Applied(Ok(_))) => is_idle(t, None) && a is Done,
        (RefreshState::Applying { .. }, Event::Applied(Err(err))) => is_idle(t, Some(err)) && a
            == Action::Fail(err),
        _ => t == s && a is Ignore,
    }
}

/// Runs refresh cycles one at a time over its own store.
pub struct RefreshPipeline {
    store: WallpaperStore,
    state: RefreshState,
}

impl RefreshPipeline {
    /// The current state.
    pub closed spec fn current(&self) -> RefreshState {
        self.state
    }

    /// The store directory's path.
    pub closed spec fn dir(&self) -> Seq<char> {
        self.store@
    }

    /// An idle pipeline over `store`, with no error yet.
    pub fn new(store: WallpaperStore) -> (p: RefreshPipeline)
        ensures
            is_idle(p.current(), None),
            p.dir() == store@,
    {
        RefreshPipeline { store, state: RefreshState::Idle { last_error: None } }
    }

    pub fn state(&self) -> (r: &RefreshState)
        ensures
            *r == self.current(),
    {
        &self.state
    }

    pub fn store(&self) -> (r: &WallpaperStore)
        ensures
            r@ == self.dir(),
    {
        &self.store
    }

    /// Whether a cycle is running.
    pub fn is_busy(&self) -> (r: bool)
        ensures
            r == !(self.current() is Idle),
    {
        !matches!(self.state, RefreshState::Idle { .. })
    }

    /// How the last cycle ended: `None` while one runs, before the first, or
    /// after one that succeeded.
    pub fn last_error(&self) -> (r: Option<PipelineError>)
        ensures
            self.current() is Idle ==> r == self.current()->last_error,
            !(self.current() is Idle) ==> r is None,
    {
        match &self.state {
            RefreshState::Idle { last_error } => *last_error,
            _ => None,
        }
    }

    /// A timer tick or a user's request: starts a cycle unless one runs.
    pub fn trigger(&mut self) -> (a: Action)
        ensures
            final(self).dir() == old(self).dir(),
            step(old(self).dir(), old(self).current(), Event::Trigger, final(self).current(), a),
    {
        self.handle(Event::Trigger)
    }

    /// Takes the outside world's report and returns what to do next.
    pub fn handle(&mut self, e: Event) -> (a: Action)
        ensures
            final(self).dir() == old(self).dir(),
            step(old(self).dir(), old(self).current(), e, final(self).current(), a),
    {
        match (&self.state, e) {
            (RefreshState::Idle { .. }, Event::Trigger) => {
                self.state = RefreshState::FetchingMetadata;
                Action::FetchMetadata
            },
            (RefreshState::Idle { .. }, _) => Action::Ignore,
            (_, Event::Trigger) => Action::Busy,
            (RefreshState::FetchingMetadata, Event::MetadataFetched(Ok(img))) => {
                let path = self.store.resolve_path(img.slug.as_str());
                self.state = RefreshState::ResettingStore { url: img.urls.full, path };
                Action::ResetStore
            },
            (RefreshState::FetchingMetadata, Event::MetadataFetched(Err(err))) => {
                self.state = RefreshState::Idle { last_error: Some(err) };
                Action::Fail(err)
            },
            (RefreshState::ResettingStore { url, path }, Event::StoreReset(Ok(_))) => {
                let url = url.clone();
                let path = path.clone();
                self.state = RefreshState::Downloading { path: path.clone() };
                Action::Download { url, path }
            },
            (RefreshState::ResettingStore { .. }, Event::StoreReset(Err(err))) => {
                self.state = RefreshState::Idle { last_error: Some(err) };
                Action::Fail(err)
            },
            (RefreshState::Downloading { path }, Event::Downloaded(Ok(size))) => {
                let path = path.clone();
                match check_applicable(true, size) {
                    Ok(()) => {
                        self.state = RefreshState::Applying { path: path.clone() };
                        Action::Apply { path }
                    },
                    Err(error) => {
                        self.state = RefreshState::Idle { last_error: Some(error) };
                        Action::DiscardPartial { path, error }
                    },
                }
            },
            (RefreshState::Downloading { path }, Event::Downloaded(Err(error))) => {
                let path = path.clone();
                self.state = RefreshState::Idle { last_error: Some(error) };
                Action::DiscardPartial { path, error }
            },
            (RefreshState::Applying { .. }, Event::Applied(Ok(_))) => {
                self.state = RefreshState::Idle { last_error: None };
                Action::Done
            },
            (RefreshState::Applying { .. }, Event::Applied(Err(err))) => {
                self.state = RefreshState::Idle { last_error: Some(err) };
                Action::Fail(err)
            },
            _ => Action::Ignore,
        }
    }
}

/// While a cycle runs, a trigger is turned down and changes nothing: two
/// cycles never interleave.
pub proof fn lemma_trigger_while_busy_is_turned_down(
    dir: Seq<char>,
    s: RefreshState,
    t: RefreshState,
    a: Action,
)
    requires
        !(s is Idle),
        step(dir, s, Event::Trigger, t, a),
    ensures
        t == s,
        a is Busy,
{
}

/// Two triggers in a row from an idle pipeline start exactly one cycle: the
/// first starts it, the second is turned down.
pub proof fn lemma_second_trigger_is_turned_down(
    dir: Seq<char>,
    s: RefreshState,
    t1: RefreshState,
    a1: Action,
    t2: RefreshState,
    a2: Action,
)
    requires
        s is Idle,
        step(dir, s, Event::Trigger, t1, a1),
        step(dir, t1, Event::Trigger, t2, a2),
    ensures
        a1 is FetchMetadata,
        t1 is FetchingMetadata,
        a2 is Busy,
        t2 == t1,
{
}

/// A failed transfer has what it left at its path discarded, and the cycle
/// ends idle with the transfer's error.
pub proof fn lemma_failed_download_discards_partial(
    dir: Seq<char>,
    path: String,
    err: PipelineError,
    t: RefreshState,
    a: Action,
)
    requires
        step(dir, RefreshState::Downloading { path }, Event::Downloaded(Err(err)), t, a),
    ensures
        asks_discard(a, path@, err),
        is_idle(t, Some(err)),
{
}

/// The store is cleared before anything is written to it: a download is asked
/// for only once the reset succeeded, and to the path the cycle resolved.
pub proof fn lemma_download_follows_reset(
    dir: Seq<char>,
    s: RefreshState,
    e: Event,
    t: RefreshState,
    a: Action,
)
    requires
        step(dir, s, e, t, a),
        a is Download,
    ensures
        s is ResettingStore,
        e matches Event::StoreReset(Ok(_)),
        is_resetting(s, a->Download_url@, a->Download_path@),
        is_downloading(t, a->Download_path@),
{
}

/// Only a completely written, non-empty file is applied: an apply is asked for
/// only on a successful transfer of at least one byte, to the path downloaded.
pub proof fn lemma_apply_follows_complete_download(
    dir: Seq<char>,
    s: RefreshState,
    e: Event,
    t: RefreshState,
    a: Action,
)
    requires
        step(dir, s, e, t, a),
        a is Apply,
    ensures
        is_downloading(s, a->Apply_path@),
        e matches Event::Downloaded(Ok(size)) && size > 0,
        is_applying(t, a->Apply_path@),
{
}

/// The file that a cycle downloads is the one that the store resolves for the
/// fetched image's slug, directly under the store directory.
pub proof fn lemma_download_path_is_resolved(
    dir: Seq<char>,
    img: ImageBody,
    t: RefreshState,
    a: Action,
)
    requires
        step(dir, RefreshState::FetchingMetadata, Event::MetadataFetched(Ok(img)), t, a),
    ensures
        a is ResetStore,
        is_resetting(t, img.urls.full@, store_path(dir, img.slug@)),
        store_path(dir, img.slug@).subrange(0, dir.len() + 1 as int) == dir.push('/'),
{
    crate::store::lemma_path_in_store(dir, img.slug@);
}

} // verus!
