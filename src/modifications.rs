//! The modification log: what an operation changed, for an observer to apply.

use vstd::prelude::*;

use crate::source::ImageSourceId;

verus! {

/// A change to the catalog of image sources.
#[derive(Clone, Copy, Debug, PartialEq, Eq, Structural)]
pub enum ImageSourceModification {
    Added(ImageSourceId),
    Modified(ImageSourceId),
    Deleted(ImageSourceId),
}

impl ImageSourceModification {
    pub open spec fn spec_id(&self) -> ImageSourceId {
        match self {
            ImageSourceModification::Added(id) => *id,
            ImageSourceModification::Modified(id) => *id,
            ImageSourceModification::Deleted(id) => *id,
        }
    }

    pub fn id(&self) -> (r: ImageSourceId)
        ensures
            r == self.spec_id(),
    {
        match self {
            ImageSourceModification::Added(id) => *id,
            ImageSourceModification::Modified(id) => *id,
            ImageSourceModification::Deleted(id) => *id,
        }
    }
}

/// Where a running session stands.
#[derive(Clone, Copy, Debug, PartialEq, Eq, Structural)]
pub enum PlaybackState {
    /// An image is being fetched; the countdown is suspended.
    Loading,
    /// The countdown runs.
    Running,
    /// The user paused the countdown.
    Paused,
    /// Every image of the session was drawn; nothing more happens.
    Completed,
}

/// A change to the session: which sources it uses, and its playback state.
#[derive(Clone, Copy, Debug, PartialEq, Eq, Structural)]
pub enum SessionModification {
    AddedImageSource(ImageSourceId),
    RemovedImageSource(ImageSourceId),
    State(PlaybackState),
}

/// What one operation changed, in order: catalog changes and session changes.
#[derive(Debug)]
pub struct AppBackendModifications {
    pub image_sources: Vec<ImageSourceModification>,
    pub session: Vec<SessionModification>,
}

impl AppBackendModifications {
    pub open spec fn is_empty_log(&self) -> bool {
        self.image_sources@.len() == 0 && self.session@.len() == 0
    }

    /// A log that holds exactly one catalog change.
    pub open spec fn is_single_source_change(&self, m: ImageSourceModification) -> bool {
        self.image_sources@ == seq![m] && self.session@.len() == 0
    }

    /// A log that holds exactly one session change.
    pub open spec fn is_single_session_change(&self, m: SessionModification) -> bool {
        self.image_sources@.len() == 0 && self.session@ == seq![m]
    }

    pub fn new() -> (r: Self)
        ensures
            r.is_empty_log(),
    {
        AppBackendModifications { image_sources: Vec::new(), session: Vec::new() }
    }

    pub fn from_image_source(m: ImageSourceModification) -> (r: Self)
        ensures
            r.is_single_source_change(m),
    {
        let mut image_sources = Vec::new();
        image_sources.push(m);
        AppBackendModifications { image_sources, session: Vec::new() }
    }

    pub fn from_session(m: SessionModification) -> (r: Self)
        ensures
            r.is_single_session_change(m),
    {
        let mut session = Vec::new();
        session.push(m);
        AppBackendModifications { image_sources: Vec::new(), session }
    }

    pub fn image_sources(&self) -> (r: &Vec<ImageSourceModification>)
        ensures
            r@ == self.image_sources@,
    {
        &self.image_sources
    }

    pub fn session(&self) -> (r: &Vec<SessionModification>)
        ensures
            r@ == self.session@,
    {
        &self.session
    }

    pub fn is_empty(&self) -> (r: bool)
        ensures
            r == self.is_empty_log(),
    {
        self.image_sources.len() == 0 && self.session.len() == 0
    }
}

/// The sources whose validation a log calls for: those it added or modified,
/// in the log's order.
pub open spec fn ids_to_check(log: Seq<ImageSourceModification>) -> Seq<ImageSourceId>
    decreases log.len(),
{
    if log.len() == 0 {
        Seq::empty()
    } else {
        let rest = ids_to_check(log.drop_last());
        match log.last() {
            ImageSourceModification::Deleted(_) => rest,
            m => rest.push(m.spec_id()),
        }
    }
}

/// The sources to validate after the changes in `modifications`: every
/// added or modified source, and no deleted one.
pub fn image_sources_to_check(modifications: &AppBackendModifications) -> (r: Vec<ImageSourceId>)
    ensures
        r@ == ids_to_check(modifications.image_sources@),
{
    let log = &modifications.image_sources;
    let mut ids: Vec<ImageSourceId> = Vec::new();
    let mut i: usize = 0;
    while i < log.len()
        invariant
            0 <= i <= log@.len(),
            ids@ == ids_to_check(log@.subrange(0, i as int)),
        decreases log@.len() - i,
    {
        assert(log@.subrange(0, i + 1).drop_last() =~= log@.subrange(0, i as int));
        let m = log[i];
        match m {
            ImageSourceModification::Deleted(_) => {},
            _ => {
                ids.push(m.id());
            },
        }
        i = i + 1;
    }
    assert(log@.subrange(0, i as int) =~= log@);
    ids
}

} // verus!
