//! The session playback engine: a state machine that takes the user's
//! commands, clock ticks and image-load results, and answers with what the
//! caller must do (load an image) and show (an image, the time left, the
//! playback state).

use vstd::prelude::*;

use crate::modifications::{AppBackendModifications, PlaybackState, SessionModification};
use crate::pipeline::ImageLoadPipeline;
use crate::sequencer::{ConfigError, DrawOutcome, DrawSequencer, ImageCoordinate};
use crate::source::ImageSource;
use crate::timer::{ImageTime, PlaybackTimer, TickOutcome};

verus! {

/// What a session is started with; it does not change while the session runs.
#[derive(Debug)]
pub struct SessionConfiguration {
    pub image_time: ImageTime,
    pub image_count: usize,
    pub image_sources: Vec<ImageSource>,
}

impl SessionConfiguration {
    pub fn new(image_time: ImageTime, image_count: usize, image_sources: Vec<ImageSource>) -> (r:
        Self)
        ensures
            r.image_time == image_time,
            r.image_count == image_count,
            r.image_sources@ == image_sources@,
    {
        SessionConfiguration { image_time, image_count, image_sources }
    }
}

/// How many images each source offers to the draw.
pub open spec fn usable_counts(sources: Seq<ImageSource>) -> Seq<usize> {
    sources.map_values(|s: ImageSource| s.spec_check().usable_count() as usize)
}

fn source_counts(sources: &Vec<ImageSource>) -> (r: Vec<usize>)
    ensures
        r@ == usable_counts(sources@),
{
    let mut r: Vec<usize> = Vec::new();
    let mut i: usize = 0;
    while i < sources.len()
        invariant
            0 <= i <= sources@.len(),
            r@ == usable_counts(sources@.subrange(0, i as int)),
        decreases sources@.len() - i,
    {
        r.push(sources[i].check().usable_image_count());
        i = i + 1;
        assert(r@ =~= usable_counts(sources@.subrange(0, i as int)));
    }
    assert(sources@.subrange(0, i as int) =~= sources@);
    r
}

/// Why a session over `sources` is refused, if it is: it has no source, or
/// none of its sources offers an image.
pub open spec fn start_error(sources: Seq<ImageSource>) -> Option<ConfigError> {
    if sources.len() == 0 {
        Some(ConfigError::NoImageSource)
    } else if forall|k: int| 0 <= k < sources.len() ==> usable_counts(sources)[k] == 0 {
        Some(ConfigError::NoImage)
    } else {
        None
    }
}

/// A load the caller must perform: the image at `coordinate`, whose result
/// it hands back tagged with `token`.
#[derive(Clone, Copy, Debug, PartialEq, Eq, Structural)]
pub struct LoadRequest {
    pub token: u64,
    pub coordinate: ImageCoordinate,
}

/// An input of the engine.
#[derive(Debug)]
pub enum MessageRunSession {
    Pause,
    Play,
    NextImage,
    PreviousImage,
    /// The periodic clock tick.
    Tick,
    /// The result of the load that was handed the token.
    ImageLoaded(u64, Result<Vec<u8>, String>),
}

/// What the engine answers: a load to start, an image to show, the time
/// left to display, a failed load to report, and the state changes.
#[derive(Debug)]
pub struct SessionUpdate {
    pub load: Option<LoadRequest>,
    pub image: Option<Vec<u8>>,
    pub time_left: Option<u64>,
    pub load_error: Option<String>,
    pub modifications: AppBackendModifications,
}

impl SessionUpdate {
    pub open spec fn is_none(&self) -> bool {
        &&& self.load is None
        &&& self.image is None
        &&& self.time_left is None
        &&& self.load_error is None
        &&& self.modifications.is_empty_log()
    }

    /// An update that reports nothing but the change of state, if any.
    pub open spec fn only_state_change(&self, from: PlaybackState, to: PlaybackState) -> bool {
        &&& self.load is None
        &&& self.image is None
        &&& self.time_left is None
        &&& self.load_error is None
        &&& self.modifications.image_sources@.len() == 0
        &&& self.modifications.session@ == state_changes(from, to)
    }

    pub fn none() -> (r: Self)
        ensures
            r.is_none(),
    {
        SessionUpdate {
            load: None,
            image: None,
            time_left: None,
            load_error: None,
            modifications: AppBackendModifications::new(),
        }
    }
}

/// The log of a move from one playback state to another: one entry when the
/// state changed, none otherwise.
pub open spec fn state_changes(from: PlaybackState, to: PlaybackState) -> Seq<SessionModification> {
    if from == to {
        Seq::empty()
    } else {
        seq![SessionModification::State(to)]
    }
}

fn state_change_log(from: PlaybackState, to: PlaybackState) -> (r: AppBackendModifications)
    ensures
        r.image_sources@.len() == 0,
        r.session@ == state_changes(from, to),
{
    if from == to {
        AppBackendModifications::new()
    } else {
        AppBackendModifications::from_session(SessionModification::State(to))
    }
}

/// A step forward: nothing once the session is over; otherwise the
/// sequencer steps forward, and either a load of the coordinate it yields
/// starts, or the session completes.
pub open spec fn forward_post(
    s0: DrawSequencer,
    t0: PlaybackTimer,
    p0: ImageLoadPipeline,
    s1: DrawSequencer,
    t1: PlaybackTimer,
    p1: ImageLoadPipeline,
    u: SessionUpdate,
) -> bool {
    if t0.state == PlaybackState::Completed {
        s1 == s0 && t1 == t0 && p1 == p0 && u.is_none()
    } else {
        exists|o: DrawOutcome|
            {
                &&& DrawSequencer::next_post(s0, s1, o)
                &&& u.image is None
                &&& u.time_left is None
                &&& u.load_error is None
                &&& u.modifications.image_sources@.len() == 0
                &&& u.modifications.session@ == state_changes(t0.state, t1.state)
                &&& match o {
                    DrawOutcome::Completed => {
                        &&& t1 == (PlaybackTimer { state: PlaybackState::Completed, ..t0 })
                        &&& p1 == p0
                        &&& u.load is None
                    },
                    DrawOutcome::Drawn(c) => load_post(t0, p0, t1, p1, c, u),
                    DrawOutcome::Replayed(c) => load_post(t0, p0, t1, p1, c, u),
                }
            }
    }
}

/// A load of `c` starts: the countdown is suspended and a new token issued.
pub open spec fn load_post(
    t0: PlaybackTimer,
    p0: ImageLoadPipeline,
    t1: PlaybackTimer,
    p1: ImageLoadPipeline,
    c: ImageCoordinate,
    u: SessionUpdate,
) -> bool {
    &&& t1 == t0.after_load_started()
    &&& p1 == p0.after_request()
    &&& u.load == Some(LoadRequest { token: p1.latest, coordinate: c })
}

/// A step back: nothing once the session is over, or when the user stands
/// at the oldest image; otherwise a load of the previous image starts.
pub open spec fn back_post(
    s0: DrawSequencer,
    t0: PlaybackTimer,
    p0: ImageLoadPipeline,
    s1: DrawSequencer,
    t1: PlaybackTimer,
    p1: ImageLoadPipeline,
    u: SessionUpdate,
) -> bool {
    if t0.state == PlaybackState::Completed {
        s1 == s0 && t1 == t0 && p1 == p0 && u.is_none()
    } else {
        exists|o: Option<ImageCoordinate>|
            {
                &&& DrawSequencer::previous_post(s0, s1, o)
                &&& u.image is None
                &&& u.time_left is None
                &&& u.load_error is None
                &&& u.modifications.image_sources@.len() == 0
                &&& u.modifications.session@ == state_changes(t0.state, t1.state)
                &&& match o {
                    Some(c) => load_post(t0, p0, t1, p1, c, u),
                    None => t1 == t0 && p1 == p0 && u.load is None,
                }
            }
    }
}

/// A load result arrives: it is applied only when it answers the latest
/// request while the session waits for it. Then the countdown starts afresh,
/// and the image is shown, or the failure reported with the previous image
/// left on screen.
pub open spec fn loaded_post(
    t0: PlaybackTimer,
    p0: ImageLoadPipeline,
    t1: PlaybackTimer,
    p1: ImageLoadPipeline,
    token: u64,
    result: Result<Vec<u8>, String>,
    now: u64,
    u: SessionUpdate,
) -> bool {
    &&& p1 == p0.after_result(token)
    &&& if p0.accepts(token) && t0.state == PlaybackState::Loading {
        &&& t1 == t0.after_load_completed(now)
        &&& u.load is None
        &&& u.time_left == Some(t1.time_left)
        &&& u.image == match result {
            Ok(bytes) => Some(bytes),
            Err(_) => None::<Vec<u8>>,
        }
        &&& u.load_error == match result {
            Ok(_) => None::<String>,
            Err(message) => Some(message),
        }
        &&& u.modifications.image_sources@.len() == 0
        &&& u.modifications.session@ == state_changes(t0.state, t1.state)
    } else {
        t1 == t0 && u.is_none()
    }
}

/// A clock tick: the countdown advances; a timeout steps forward.
pub open spec fn tick_post(
    s0: DrawSequencer,
    t0: PlaybackTimer,
    p0: ImageLoadPipeline,
    s1: DrawSequencer,
    t1: PlaybackTimer,
    p1: ImageLoadPipeline,
    now: u64,
    u: SessionUpdate,
) -> bool {
    let (t, outcome) = t0.after_tick(now);
    match outcome {
        TickOutcome::Timeout => forward_post(s0, t, p0, s1, t1, p1, u),
        TickOutcome::TimeLeft(left) => {
            &&& s1 == s0
            &&& t1 == t
            &&& p1 == p0
            &&& u.time_left == Some(left)
            &&& u.load is None
            &&& u.image is None
            &&& u.load_error is None
            &&& u.modifications.is_empty_log()
        },
        TickOutcome::Idle => s1 == s0 && t1 == t && p1 == p0 && u.is_none(),
    }
}

/// A running session: its configuration, its draw and history, its
/// countdown, and its image loads.
pub struct WorkflowRunSession {
    config: SessionConfiguration,
    sequencer: DrawSequencer,
    timer: PlaybackTimer,
    loads: ImageLoadPipeline,
}

impl WorkflowRunSession {
    pub closed spec fn sources(&self) -> Seq<ImageSource> {
        self.config.image_sources@
    }

    pub closed spec fn image_time(&self) -> ImageTime {
        self.config.image_time
    }

    pub closed spec fn image_count(&self) -> usize {
        self.config.image_count
    }

    pub closed spec fn sequencer(&self) -> DrawSequencer {
        self.sequencer
    }

    pub closed spec fn timer(&self) -> PlaybackTimer {
        self.timer
    }

    pub closed spec fn loads(&self) -> ImageLoadPipeline {
        self.loads
    }

    pub closed spec fn wf(&self) -> bool {
        &&& self.sequencer.wf()
        &&& self.sequencer.counts() == usable_counts(self.config.image_sources@)
        &&& self.sequencer.target() == self.config.image_count
        &&& self.timer.image_time == self.config.image_time
    }

    /// The configuration is kept as it was.
    pub open spec fn same_config(&self, other: &Self) -> bool {
        &&& self.sources() == other.sources()
        &&& self.image_time() == other.image_time()
        &&& self.image_count() == other.image_count()
    }

    /// What handling one input does; see the method for each input.
    pub open spec fn update_post(
        old: Self,
        new: Self,
        message: MessageRunSession,
        now: u64,
        r: SessionUpdate,
    ) -> bool {
        &&& new.wf()
        &&& new.same_config(&old)
        &&& match message {
                MessageRunSession::NextImage => forward_post(
                    old.sequencer(),
                    old.timer(),
                    old.loads(),
                    new.sequencer(),
                    new.timer(),
                    new.loads(),
                    r,
                ),
                MessageRunSession::PreviousImage => back_post(
                    old.sequencer(),
                    old.timer(),
                    old.loads(),
                    new.sequencer(),
                    new.timer(),
                    new.loads(),
                    r,
                ),
                MessageRunSession::Pause => {
                    &&& new.sequencer() == old.sequencer()
                    &&& new.loads() == old.loads()
                    &&& new.timer() == old.timer().after_pause()
                    &&& r.only_state_change(old.timer().state, new.timer().state)
                },
                MessageRunSession::Play => {
                    &&& new.sequencer() == old.sequencer()
                    &&& new.loads() == old.loads()
                    &&& new.timer() == old.timer().after_resume(now)
                    &&& r.only_state_change(old.timer().state, new.timer().state)
                },
                MessageRunSession::Tick => tick_post(
                    old.sequencer(),
                    old.timer(),
                    old.loads(),
                    new.sequencer(),
                    new.timer(),
                    new.loads(),
                    now,
                    r,
                ),
                MessageRunSession::ImageLoaded(token, result) => {
                    &&& new.sequencer() == old.sequencer()
                    &&& loaded_post(old.timer(), old.loads(), new.timer(), new.loads(), token, result, now, r)
                },
            }
    }

    /// A session just started over `sources`: the first image is drawn and
    /// its load requested, or, for a session of no image, it completes.
    pub open spec fn started(
        sources: Seq<ImageSource>,
        image_time: ImageTime,
        image_count: usize,
        s: Self,
        u: SessionUpdate,
    ) -> bool {
        &&& s.wf()
        &&& s.sources() == sources
        &&& s.image_time() == image_time
        &&& s.image_count() == image_count
        &&& s.loads().pending == (image_count > 0)
        &&& if image_count == 0 {
            &&& s.timer().state == PlaybackState::Completed
            &&& s.sequencer().history().len() == 0
            &&& u.only_state_change(PlaybackState::Loading, PlaybackState::Completed)
        } else {
            &&& s.timer().state == PlaybackState::Loading
            &&& s.timer().time_left == image_time.full_time()
            &&& s.sequencer().history().len() == 1
            &&& s.sequencer().cursor() == 0
            &&& u.load == Some(LoadRequest { token: 1, coordinate: s.sequencer().history()[0] })
            &&& u.image is None
            &&& u.time_left is None
            &&& u.load_error is None
            &&& u.modifications.is_empty_log()
        }
    }

    /// Starts a session: refused when it has no source, or when none of its
    /// sources offers an image; otherwise the first image is drawn and its
    /// load requested, or, for a session of no image, the session completes.
    pub fn new(config: SessionConfiguration) -> (r: Result<(Self, SessionUpdate), ConfigError>)
        ensures
            match r {
                Err(e) => start_error(config.image_sources@) == Some(e),
                Ok((s, u)) => start_error(config.image_sources@) is None && Self::started(
                    config.image_sources@,
                    config.image_time,
                    config.image_count,
                    s,
                    u,
                ),
            },
    {
        let counts = source_counts(&config.image_sources);
        let sequencer = match DrawSequencer::new(counts, config.image_count) {
            Ok(s) => s,
            Err(e) => {
                return Err(e);
            },
        };
        let timer = PlaybackTimer::new(config.image_time);
        let mut session = WorkflowRunSession {
            config,
            sequencer,
            timer,
            loads: ImageLoadPipeline::new(),
        };
        let update = session.go_to_next_image();
        Ok((session, update))
    }

    /// Steps forward: replays the history after a step back, draws the next
    /// image, or completes the session once all its images were drawn.
    pub fn go_to_next_image(&mut self) -> (r: SessionUpdate)
        requires
            old(self).wf(),
        ensures
            final(self).wf(),
            final(self).same_config(old(self)),
            forward_post(
                old(self).sequencer(),
                old(self).timer(),
                old(self).loads(),
                final(self).sequencer(),
                final(self).timer(),
                final(self).loads(),
                r,
            ),
    {
        let before = self.timer.state;
        match before {
            PlaybackState::Completed => {
                return SessionUpdate::none();
            },
            _ => {},
        }
        let outcome = self.sequencer.next();
        match outcome {
            DrawOutcome::Drawn(c) => self.start_load(before, c),
            DrawOutcome::Replayed(c) => self.start_load(before, c),
            DrawOutcome::Completed => {
                self.timer.complete();
                SessionUpdate {
                    load: None,
                    image: None,
                    time_left: None,
                    load_error: None,
                    modifications: state_change_log(before, PlaybackState::Completed),
                }
            },
        }
    }

    fn start_load(&mut self, before: PlaybackState, c: ImageCoordinate) -> (r: SessionUpdate)
        requires
            before == old(self).timer.state,
        ensures
            final(self).config == old(self).config,
            final(self).sequencer == old(self).sequencer,
            load_post(old(self).timer, old(self).loads, final(self).timer, final(self).loads, c, r),
            r.image is None,
            r.time_left is None,
            r.load_error is None,
            r.modifications.image_sources@.len() == 0,
            r.modifications.session@ == state_changes(before, final(self).timer.state),
    {
        self.timer.start_loading();
        let token = self.loads.request();
        SessionUpdate {
            load: Some(LoadRequest { token, coordinate: c }),
            image: None,
            time_left: None,
            load_error: None,
            modifications: state_change_log(before, self.timer.state),
        }
    }

    /// Steps back to the previous image of the history, if there is one.
    pub fn go_to_previous_image(&mut self) -> (r: SessionUpdate)
        requires
            old(self).wf(),
        ensures
            final(self).wf(),
            final(self).same_config(old(self)),
            back_post(
                old(self).sequencer(),
                old(self).timer(),
                old(self).loads(),
                final(self).sequencer(),
                final(self).timer(),
                final(self).loads(),
                r,
            ),
    {
        let before = self.timer.state;
        match before {
            PlaybackState::Completed => {
                return SessionUpdate::none();
            },
            _ => {},
        }
        let step = self.sequencer.previous();
        match step {
            Some(c) => self.start_load(before, c),
            None => {
                let r = SessionUpdate::none();
                assert(r.modifications.session@ =~= state_changes(before, self.timer.state));
                r
            },
        }
    }

    /// Pauses the countdown of a running session.
    pub fn pause(&mut self) -> (r: SessionUpdate)
        requires
            old(self).wf(),
        ensures
            final(self).wf(),
            final(self).same_config(old(self)),
            final(self).sequencer() == old(self).sequencer(),
            final(self).loads() == old(self).loads(),
            final(self).timer() == old(self).timer().after_pause(),
            r.only_state_change(old(self).timer().state, final(self).timer().state),
    {
        let before = self.timer.state;
        self.timer.pause();
        SessionUpdate {
            load: None,
            image: None,
            time_left: None,
            load_error: None,
            modifications: state_change_log(before, self.timer.state),
        }
    }

    /// Resumes a paused countdown from `now`.
    pub fn play(&mut self, now: u64) -> (r: SessionUpdate)
        requires
            old(self).wf(),
        ensures
            final(self).wf(),
            final(self).same_config(old(self)),
            final(self).sequencer() == old(self).sequencer(),
            final(self).loads() == old(self).loads(),
            final(self).timer() == old(self).timer().after_resume(now),
            r.only_state_change(old(self).timer().state, final(self).timer().state),
    {
        let before = self.timer.state;
        self.timer.resume(now);
        SessionUpdate {
            load: None,
            image: None,
            time_left: None,
            load_error: None,
            modifications: state_change_log(before, self.timer.state),
        }
    }

    /// Advances the countdown to `now`; on timeout, steps forward.
    pub fn tick(&mut self, now: u64) -> (r: SessionUpdate)
        requires
            old(self).wf(),
        ensures
            final(self).wf(),
            final(self).same_config(old(self)),
            tick_post(
                old(self).sequencer(),
                old(self).timer(),
                old(self).loads(),
                final(self).sequencer(),
                final(self).timer(),
                final(self).loads(),
                now,
                r,
            ),
    {
        match self.timer.tick(now) {
            TickOutcome::Timeout => self.go_to_next_image(),
            TickOutcome::TimeLeft(left) => SessionUpdate {
                load: None,
                image: None,
                time_left: Some(left),
                load_error: None,
                modifications: AppBackendModifications::new(),
            },
            TickOutcome::Idle => SessionUpdate::none(),
        }
    }

    /// Takes the result of the load tagged `token`, at time `now`.
    pub fn image_loaded(&mut self, token: u64, result: Result<Vec<u8>, String>, now: u64) -> (r:
        SessionUpdate)
        requires
            old(self).wf(),
        ensures
            final(self).wf(),
            final(self).same_config(old(self)),
            final(self).sequencer() == old(self).sequencer(),
            loaded_post(
                old(self).timer(),
                old(self).loads(),
                final(self).timer(),
                final(self).loads(),
                token,
                result,
                now,
                r,
            ),
    {
        let before = self.timer.state;
        let accepted = self.loads.complete(token);
        let waiting = match before {
            PlaybackState::Loading => true,
            _ => false,
        };
        if !(accepted && waiting) {
            return SessionUpdate::none();
        }
        self.timer.load_completed(now);
        let (image, load_error) = match result {
            Ok(bytes) => (Some(bytes), None),
            Err(message) => (None, Some(message)),
        };
        SessionUpdate {
            load: None,
            image,
            time_left: Some(self.timer.time_left),
            load_error,
            modifications: state_change_log(before, self.timer.state),
        }
    }

    /// Handles one input at time `now`.
    pub fn update(&mut self, message: MessageRunSession, now: u64) -> (r: SessionUpdate)
        requires
            old(self).wf(),
        ensures
            Self::update_post(*old(self), *final(self), message, now, r),
    {
        match message {
            MessageRunSession::NextImage => self.go_to_next_image(),
            MessageRunSession::PreviousImage => self.go_to_previous_image(),
            MessageRunSession::Pause => self.pause(),
            MessageRunSession::Play => self.play(now),
            MessageRunSession::Tick => self.tick(now),
            MessageRunSession::ImageLoaded(token, result) => self.image_loaded(token, result, now),
        }
    }

    /// The playback state.
    pub fn state(&self) -> (r: PlaybackState)
        ensures
            r == self.timer().state,
    {
        self.timer.state
    }

    /// Milliseconds left on the current image.
    pub fn time_left(&self) -> (r: u64)
        ensures
            r == self.timer().time_left,
    {
        self.timer.time_left
    }

    /// Every coordinate drawn so far, oldest first.
    pub fn image_history(&self) -> (r: &Vec<ImageCoordinate>)
        ensures
            r@ == self.sequencer().history(),
    {
        self.sequencer.image_history()
    }

    /// How many steps back from the latest draw the user stands.
    pub fn history_cursor(&self) -> (r: usize)
        ensures
            r == self.sequencer().cursor(),
    {
        self.sequencer.history_cursor()
    }

    /// The session's source at position `index`, from which a load request
    /// with that source index is served.
    pub fn image_source(&self, index: usize) -> (r: Option<&ImageSource>)
        ensures
            index < self.sources().len() ==> r == Some(&self.sources()[index as int]),
            index >= self.sources().len() ==> r is None,
    {
        if index < self.config.image_sources.len() {
            Some(&self.config.image_sources[index])
        } else {
            None
        }
    }
}

proof fn lemma_forward_draws(
    s0: DrawSequencer,
    t0: PlaybackTimer,
    p0: ImageLoadPipeline,
    s1: DrawSequencer,
    t1: PlaybackTimer,
    p1: ImageLoadPipeline,
    u: SessionUpdate,
)
    requires
        forward_post(s0, t0, p0, s1, t1, p1, u),
        t0.state == PlaybackState::Loading,
        s0.cursor() == 0,
        s0.history().len() < s0.target(),
    ensures
        s1.history().len() == s0.history().len() + 1,
        s1.cursor() == 0,
        s1.target() == s0.target(),
        t1.state == PlaybackState::Loading,
        u.load is Some,
{
    let o = choose|o: DrawOutcome|
        {
            &&& DrawSequencer::next_post(s0, s1, o)
            &&& u.image is None
            &&& u.time_left is None
            &&& u.load_error is None
            &&& u.modifications.image_sources@.len() == 0
            &&& u.modifications.session@ == state_changes(t0.state, t1.state)
            &&& match o {
                DrawOutcome::Completed => {
                    &&& t1 == (PlaybackTimer { state: PlaybackState::Completed, ..t0 })
                    &&& p1 == p0
                    &&& u.load is None
                },
                DrawOutcome::Drawn(c) => load_post(t0, p0, t1, p1, c, u),
                DrawOutcome::Replayed(c) => load_post(t0, p0, t1, p1, c, u),
            }
        };
    assert(o is Drawn);
}

proof fn lemma_forward_completes(
    s0: DrawSequencer,
    t0: PlaybackTimer,
    p0: ImageLoadPipeline,
    s1: DrawSequencer,
    t1: PlaybackTimer,
    p1: ImageLoadPipeline,
    u: SessionUpdate,
)
    requires
        forward_post(s0, t0, p0, s1, t1, p1, u),
        t0.state == PlaybackState::Loading,
        s0.cursor() == 0,
        s0.history().len() >= s0.target(),
    ensures
        s1 == s0,
        t1.state == PlaybackState::Completed,
        u.load is None,
        u.modifications.session@ == seq![SessionModification::State(PlaybackState::Completed)],
{
    let o = choose|o: DrawOutcome|
        {
            &&& DrawSequencer::next_post(s0, s1, o)
            &&& u.image is None
            &&& u.time_left is None
            &&& u.load_error is None
            &&& u.modifications.image_sources@.len() == 0
            &&& u.modifications.session@ == state_changes(t0.state, t1.state)
            &&& match o {
                DrawOutcome::Completed => {
                    &&& t1 == (PlaybackTimer { state: PlaybackState::Completed, ..t0 })
                    &&& p1 == p0
                    &&& u.load is None
                },
                DrawOutcome::Drawn(c) => load_post(t0, p0, t1, p1, c, u),
                DrawOutcome::Replayed(c) => load_post(t0, p0, t1, p1, c, u),
            }
        };
    assert(o is Completed);
}

/// A run of steps forward, with nothing else in between: each state is
/// well formed and keeps the configuration, and each update is what a step
/// forward answers.
#[verifier::opaque]
pub open spec fn forward_steps(runs: Seq<WorkflowRunSession>, updates: Seq<SessionUpdate>) -> bool {
    &&& runs.len() == updates.len() + 1
    &&& forall|i: int| 0 <= i < runs.len() ==> #[trigger] runs[i].wf()
    &&& forall|i: int| 0 <= i < updates.len() ==> #[trigger] runs[i + 1].same_config(&runs[i])
    &&& forall|i: int|
        0 <= i < updates.len() ==> forward_post(
            #[trigger] runs[i].sequencer(),
            runs[i].timer(),
            runs[i].loads(),
            runs[i + 1].sequencer(),
            runs[i + 1].timer(),
            runs[i + 1].loads(),
            updates[i],
        )
}

proof fn lemma_forward_step(runs: Seq<WorkflowRunSession>, updates: Seq<SessionUpdate>, i: int)
    requires
        forward_steps(runs, updates),
        0 <= i < updates.len(),
    ensures
        runs.len() == updates.len() + 1,
        runs[i].wf(),
        runs[i + 1].wf(),
        runs[i + 1].same_config(&runs[i]),
        forward_post(
            runs[i].sequencer(),
            runs[i].timer(),
            runs[i].loads(),
            runs[i + 1].sequencer(),
            runs[i + 1].timer(),
            runs[i + 1].loads(),
            updates[i],
        ),
{
    reveal(forward_steps);
    assert(runs[i].wf());
    assert(runs[i + 1].wf());
    assert(runs[i + 1].same_config(&runs[i]));
}

proof fn lemma_session_completion_prefix(
    runs: Seq<WorkflowRunSession>,
    updates: Seq<SessionUpdate>,
    k: int,
)
    requires
        forward_steps(runs, updates),
        updates.len() == runs[0].image_count(),
        runs[0].sequencer().history().len() == 1,
        runs[0].sequencer().cursor() == 0,
        runs[0].timer().state == PlaybackState::Loading,
        0 <= k < updates.len(),
    ensures
        runs[k].sequencer().history().len() == k + 1,
        runs[k].sequencer().cursor() == 0,
        runs[k].timer().state == PlaybackState::Loading,
        runs[k].image_count() == runs[0].image_count(),
        forall|i: int| 0 <= i < k ==> (#[trigger] updates[i]).load is Some,
    decreases k,
{
    if k > 0 {
        lemma_session_completion_prefix(runs, updates, k - 1);
        lemma_forward_step(runs, updates, k - 1);
        let a = runs[k - 1];
        let b = runs[k];
        assert(a.sequencer().target() == a.image_count());
        lemma_forward_draws(
            a.sequencer(),
            a.timer(),
            a.loads(),
            b.sequencer(),
            b.timer(),
            b.loads(),
            updates[k - 1],
        );
    }
}

/// Completion boundary for a running session: from a session whose first
/// image was drawn, as many steps forward as the session has images request
/// a load for each remaining image, and the last step completes the session,
/// logging the state change, with exactly the session's number of images
/// drawn.
pub proof fn lemma_session_completion(runs: Seq<WorkflowRunSession>, updates: Seq<SessionUpdate>)
    requires
        forward_steps(runs, updates),
        updates.len() == runs[0].image_count(),
        runs[0].sequencer().history().len() == 1,
        runs[0].sequencer().cursor() == 0,
        runs[0].timer().state == PlaybackState::Loading,
    ensures
        forall|i: int| 0 <= i < updates.len() - 1 ==> (#[trigger] updates[i]).load is Some,
        updates.last().load is None,
        updates.last().modifications.session@ == seq![
            SessionModification::State(PlaybackState::Completed),
        ],
        runs.last().timer().state == PlaybackState::Completed,
        runs.last().sequencer().history().len() == runs[0].image_count(),
{
    let n = updates.len() as int;
    reveal(forward_steps);
    assert(runs[0].wf());
    crate::sequencer::lemma_sequencer_bounds(runs[0].sequencer());
    lemma_session_completion_prefix(runs, updates, n - 1);
    lemma_forward_step(runs, updates, n - 1);
    let a = runs[n - 1];
    let b = runs[n];
    assert(a.sequencer().target() == a.image_count());
    lemma_forward_completes(
        a.sequencer(),
        a.timer(),
        a.loads(),
        b.sequencer(),
        b.timer(),
        b.loads(),
        updates[n - 1],
    );
}

} // verus!
