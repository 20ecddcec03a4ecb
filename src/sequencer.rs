//! The draw sequencer: picks images at random without repeating them where it
//! can, and keeps the history of what was drawn so that the user can step
//! back and forth through it without drawing again.

use vstd::prelude::*;

verus! {

/// How many candidates one draw samples at most before it accepts a
/// coordinate that was drawn before.
pub const MAX_DRAW_ATTEMPTS: usize = 10;

/// Relies on `rand::random::<usize>`: a random number, of which nothing is
/// promised.
#[verifier::external_body]
fn random_usize() -> (r: usize) {
    rand::random::<usize>()
}

/// One image of a session: a source, by its position in the session's
/// sources, and an image, by its position in that source.
#[derive(Clone, Copy, Debug, PartialEq, Eq, Structural)]
pub struct ImageCoordinate {
    pub image_source_index: usize,
    pub image_index: usize,
}

/// What a step forward yields.
#[derive(Clone, Copy, Debug, PartialEq, Eq, Structural)]
pub enum DrawOutcome {
    /// A new coordinate was drawn and appended to the history.
    Drawn(ImageCoordinate),
    /// The user had stepped back: the next coordinate of the history again.
    Replayed(ImageCoordinate),
    /// As many images as the session asked for were drawn.
    Completed,
}

/// Why a session cannot start.
#[derive(Clone, Copy, Debug, PartialEq, Eq, Structural)]
pub enum ConfigError {
    /// The session has no image source.
    NoImageSource,
    /// None of the session's sources holds an image.
    NoImage,
}

/// Whether `c` names an image of sources that hold `counts` images each.
pub open spec fn valid_coordinate(counts: Seq<usize>, c: ImageCoordinate) -> bool {
    c.image_source_index < counts.len() && c.image_index < counts[c.image_source_index as int]
}

/// The positions of the sources that hold at least one image, in order.
pub open spec fn usable_indices(counts: Seq<usize>) -> Seq<usize>
    decreases counts.len(),
{
    if counts.len() == 0 {
        Seq::empty()
    } else {
        let rest = usable_indices(counts.drop_last());
        if counts.last() > 0 {
            rest.push((counts.len() - 1) as usize)
        } else {
            rest
        }
    }
}

/// The coordinate shown at `cursor`, counted back from the latest draw.
pub open spec fn shown_at(history: Seq<ImageCoordinate>, cursor: nat) -> ImageCoordinate {
    history[history.len() - 1 - cursor]
}

/// The candidates one draw sampled: at least one and at most the bound, all
/// valid, and every one but the last already in the history.
pub open spec fn sampled_by_draw(
    history: Seq<ImageCoordinate>,
    counts: Seq<usize>,
    candidates: Seq<ImageCoordinate>,
) -> bool {
    &&& 1 <= candidates.len() <= MAX_DRAW_ATTEMPTS
    &&& forall|i: int| 0 <= i < candidates.len() ==> valid_coordinate(counts, #[trigger] candidates[i])
    &&& forall|i: int| 0 <= i < candidates.len() - 1 ==> history.contains(#[trigger] candidates[i])
}

pub proof fn lemma_usable_indices(counts: Seq<usize>)
    requires
        counts.len() <= usize::MAX,
    ensures
        forall|j: int|
            0 <= j < usable_indices(counts).len() ==> #[trigger] usable_indices(counts)[j]
                < counts.len() && counts[usable_indices(counts)[j] as int] > 0,
        (exists|k: int| 0 <= k < counts.len() && counts[k] > 0) ==> usable_indices(counts).len()
            > 0,
    decreases counts.len(),
{
    if counts.len() > 0 {
        let d = counts.drop_last();
        lemma_usable_indices(d);
        let u = usable_indices(counts);
        let ud = usable_indices(d);
        assert forall|j: int| 0 <= j < u.len() implies #[trigger] u[j] < counts.len() && counts[u[j] as int]
            > 0 by {
            if j < ud.len() {
                assert(u[j] == ud[j]);
                assert(d[ud[j] as int] == counts[ud[j] as int]);
            } else {
                assert(counts.last() > 0);
                assert(u[j] == counts.len() - 1);
            }
        }
        if counts.last() == 0 {
            assert forall|k: int| 0 <= k < counts.len() && counts[k] > 0 implies 0 <= k < d.len()
                && d[k] > 0 by {}
        }
    }
}

/// The positions of the sources that hold images.
fn usable_source_indices(counts: &Vec<usize>) -> (r: Vec<usize>)
    ensures
        r@ == usable_indices(counts@),
{
    let mut r: Vec<usize> = Vec::new();
    let mut i: usize = 0;
    while i < counts.len()
        invariant
            0 <= i <= counts@.len(),
            r@ == usable_indices(counts@.subrange(0, i as int)),
        decreases counts@.len() - i,
    {
        assert(counts@.subrange(0, i + 1).drop_last() =~= counts@.subrange(0, i as int));
        if counts[i] > 0 {
            r.push(i);
        }
        i = i + 1;
    }
    assert(counts@.subrange(0, i as int) =~= counts@);
    r
}

/// The random draw of a session and the history of what it drew, with a
/// cursor counted back from the latest draw.
pub struct DrawSequencer {
    counts: Vec<usize>,
    usable: Vec<usize>,
    image_count: usize,
    history: Vec<ImageCoordinate>,
    cursor: usize,
}

impl DrawSequencer {
    /// How many images each source of the session offers.
    pub closed spec fn counts(&self) -> Seq<usize> {
        self.counts@
    }

    /// How many images the session draws.
    pub closed spec fn target(&self) -> nat {
        self.image_count as nat
    }

    /// Every coordinate drawn so far, oldest first.
    pub closed spec fn history(&self) -> Seq<ImageCoordinate> {
        self.history@
    }

    /// How many steps back from the latest draw the user stands.
    pub closed spec fn cursor(&self) -> nat {
        self.cursor as nat
    }

    pub closed spec fn wf(&self) -> bool {
        &&& self.usable@ == usable_indices(self.counts@)
        &&& self.usable@.len() > 0
        &&& self.history@.len() <= self.image_count
        &&& (self.history@.len() == 0 ==> self.cursor == 0)
        &&& (self.history@.len() > 0 ==> self.cursor < self.history@.len())
        &&& forall|i: int|
            0 <= i < self.history@.len() ==> valid_coordinate(self.counts@, #[trigger] self.history@[i])
    }

    /// The coordinate on screen: the one at the cursor.
    pub open spec fn shown(&self) -> ImageCoordinate {
        shown_at(self.history(), self.cursor())
    }

    /// What a step forward does: replay when the user stepped back, complete
    /// when the session has drawn all it asked for, draw otherwise.
    pub open spec fn next_post(old: Self, new: Self, r: DrawOutcome) -> bool {
        &&& new.wf()
        &&& new.counts() == old.counts()
        &&& new.target() == old.target()
        &&& if old.cursor() > 0 {
            &&& new.history() == old.history()
            &&& new.cursor() == old.cursor() - 1
            &&& r == DrawOutcome::Replayed(new.shown())
        } else if old.history().len() >= old.target() {
            &&& new == old
            &&& r is Completed
        } else {
            exists|c: ImageCoordinate, candidates: Seq<ImageCoordinate>|
                {
                    &&& r == DrawOutcome::Drawn(c)
                    &&& new.history() == old.history().push(c)
                    &&& new.cursor() == 0
                    &&& sampled_by_draw(old.history(), old.counts(), candidates)
                    &&& c == candidates.last()
                    &&& (old.history().contains(c) ==> candidates.len()
                        == MAX_DRAW_ATTEMPTS)
                }
        }
    }

    /// What a step back does: move one entry back when there is one.
    pub open spec fn previous_post(old: Self, new: Self, r: Option<ImageCoordinate>) -> bool {
        &&& new.wf()
        &&& new.counts() == old.counts()
        &&& new.target() == old.target()
        &&& new.history() == old.history()
        &&& if old.cursor() + 1 < old.history().len() {
            &&& new.cursor() == old.cursor() + 1
            &&& r == Some(new.shown())
        } else {
            &&& new == old
            &&& r is None
        }
    }

    /// A sequencer for sources that offer `counts` images each, drawing
    /// `image_count` images; refused when no source offers any image.
    pub fn new(counts: Vec<usize>, image_count: usize) -> (r: Result<Self, ConfigError>)
        ensures
            counts@.len() == 0 <==> r == Err::<Self, ConfigError>(ConfigError::NoImageSource),
            (counts@.len() > 0 && forall|k: int| 0 <= k < counts@.len() ==> counts@[k] == 0)
                <==> r == Err::<Self, ConfigError>(ConfigError::NoImage),
            r is Ok <==> exists|k: int| 0 <= k < counts@.len() && counts@[k] > 0,
            r matches Ok(s) ==> s.wf() && s.counts() == counts@ && s.target() == image_count
                && s.history().len() == 0 && s.cursor() == 0,
    {
        let n = counts.len();
        if n == 0 {
            return Err(ConfigError::NoImageSource);
        }
        let usable = usable_source_indices(&counts);
        proof {
            lemma_usable_indices(counts@);
        }
        if usable.len() == 0 {
            return Err(ConfigError::NoImage);
        }
        assert(counts@[usable@[0] as int] > 0);
        Ok(DrawSequencer { counts, usable, image_count, history: Vec::new(), cursor: 0 })
    }

    pub fn history_len(&self) -> (r: usize)
        ensures
            r == self.history().len(),
    {
        self.history.len()
    }

    pub fn history_cursor(&self) -> (r: usize)
        ensures
            r == self.cursor(),
    {
        self.cursor
    }

    pub fn image_history(&self) -> (r: &Vec<ImageCoordinate>)
        ensures
            r@ == self.history(),
    {
        &self.history
    }

    fn history_contains(&self, c: ImageCoordinate) -> (r: bool)
        ensures
            r == self.history@.contains(c),
    {
        let mut i: usize = 0;
        while i < self.history.len()
            invariant
                0 <= i <= self.history@.len(),
                forall|j: int| 0 <= j < i ==> self.history@[j] != c,
            decreases self.history@.len() - i,
        {
            if self.history[i] == c {
                return true;
            }
            i = i + 1;
        }
        false
    }

    /// A random coordinate of a source that holds images.
    fn random_coordinate(&self) -> (r: ImageCoordinate)
        requires
            self.wf(),
        ensures
            valid_coordinate(self.counts@, r),
    {
        let n = self.counts.len();
        proof {
            lemma_usable_indices(self.counts@);
        }
        let k = random_usize() % self.usable.len();
        let image_source_index = self.usable[k];
        let image_index = random_usize() % self.counts[image_source_index];
        ImageCoordinate { image_source_index, image_index }
    }

    /// Draws by rejection sampling: samples again while the candidate is in
    /// the history, at most `MAX_DRAW_ATTEMPTS` times, and keeps the last.
    fn draw_coordinate(&self) -> (r: (ImageCoordinate, Ghost<Seq<ImageCoordinate>>))
        requires
            self.wf(),
        ensures
            sampled_by_draw(self.history@, self.counts@, r.1@),
            r.0 == r.1@.last(),
            self.history@.contains(r.0) ==> r.1@.len() == MAX_DRAW_ATTEMPTS,
    {
        let mut candidate = self.random_coordinate();
        let ghost mut candidates = seq![candidate];
        let mut attempts: usize = 1;
        while attempts < MAX_DRAW_ATTEMPTS && self.history_contains(candidate)
            invariant
                self.wf(),
                1 <= attempts <= MAX_DRAW_ATTEMPTS,
                candidates.len() == attempts,
                candidate == candidates.last(),
                sampled_by_draw(self.history@, self.counts@, candidates),
            decreases MAX_DRAW_ATTEMPTS - attempts,
        {
            proof {
                assert(self.history@.contains(candidates.last()));
            }
            candidate = self.random_coordinate();
            proof {
                let old_candidates = candidates;
                candidates = candidates.push(candidate);
                assert forall|i: int| 0 <= i < candidates.len() - 1 implies self.history@.contains(
                    #[trigger] candidates[i],
                ) by {
                    if i < old_candidates.len() - 1 {
                        assert(candidates[i] == old_candidates[i]);
                    } else {
                        assert(candidates[i] == old_candidates.last());
                    }
                }
                assert forall|i: int| 0 <= i < candidates.len() implies valid_coordinate(
                    self.counts@,
                    #[trigger] candidates[i],
                ) by {
                    if i < old_candidates.len() {
                        assert(candidates[i] == old_candidates[i]);
                    }
                }
            }
            attempts = attempts + 1;
        }
        (candidate, Ghost(candidates))
    }

    /// Steps forward: replays the history when the user stepped back,
    /// reports completion when the session drew all it asked for, and draws
    /// a new coordinate otherwise.
    pub fn next(&mut self) -> (r: DrawOutcome)
        requires
            old(self).wf(),
        ensures
            Self::next_post(*old(self), *final(self), r),
    {
        if self.cursor > 0 {
            self.cursor = self.cursor - 1;
            let c = self.history[self.history.len() - 1 - self.cursor];
            DrawOutcome::Replayed(c)
        } else if self.history.len() >= self.image_count {
            DrawOutcome::Completed
        } else {
            let (c, Ghost(candidates)) = self.draw_coordinate();
            let ghost h = self.history@;
            self.history.push(c);
            proof {
                assert(self.history@ == h.push(c));
                assert forall|i: int| 0 <= i < self.history@.len() implies valid_coordinate(
                    self.counts@,
                    #[trigger] self.history@[i],
                ) by {
                    if i < h.len() {
                        assert(self.history@[i] == h[i]);
                    } else {
                        assert(candidates[candidates.len() - 1] == c);
                    }
                }
            }
            DrawOutcome::Drawn(c)
        }
    }

    /// Steps back one entry of the history, if there is one.
    pub fn previous(&mut self) -> (r: Option<ImageCoordinate>)
        requires
            old(self).wf(),
        ensures
            Self::previous_post(*old(self), *final(self), r),
    {
        if self.cursor + 1 < self.history.len() {
            self.cursor = self.cursor + 1;
            Some(self.history[self.history.len() - 1 - self.cursor])
        } else {
            None
        }
    }
}

/// What a well-formed sequencer guarantees of its history and cursor.
pub proof fn lemma_sequencer_bounds(s: DrawSequencer)
    requires
        s.wf(),
    ensures
        s.history().len() <= s.target(),
        s.history().len() == 0 ==> s.cursor() == 0,
        s.history().len() > 0 ==> s.cursor() < s.history().len(),
        forall|i: int|
            0 <= i < s.history().len() ==> valid_coordinate(s.counts(), #[trigger] s.history()[i]),
{
}

proof fn lemma_navigation_prefix(states: Seq<DrawSequencer>, shown: Seq<ImageCoordinate>, k: int)
    requires
        states.len() == shown.len() + 1,
        forall|i: int|
            0 <= i < shown.len() ==> DrawSequencer::next_post(
                #[trigger] states[i],
                states[i + 1],
                DrawOutcome::Replayed(shown[i]),
            ) || DrawSequencer::previous_post(states[i], states[i + 1], Some(shown[i])),
        0 <= k < states.len(),
    ensures
        states[k].history() == states[0].history(),
        k > 0 ==> shown[k - 1] == shown_at(states[0].history(), states[k].cursor()),
    decreases k,
{
    if k > 0 {
        lemma_navigation_prefix(states, shown, k - 1);
        let a = states[k - 1];
        assert(DrawSequencer::next_post(a, states[k], DrawOutcome::Replayed(shown[k - 1]))
            || DrawSequencer::previous_post(a, states[k], Some(shown[k - 1])));
    }
}

/// Replay determinism: while the user only steps back, and forward no
/// further than the latest draw, the history stays as it is, and every visit
/// to a cursor position shows the same coordinate.
pub proof fn lemma_replay_determinism(states: Seq<DrawSequencer>, shown: Seq<ImageCoordinate>)
    requires
        states.len() == shown.len() + 1,
        forall|i: int|
            0 <= i < shown.len() ==> DrawSequencer::next_post(
                #[trigger] states[i],
                states[i + 1],
                DrawOutcome::Replayed(shown[i]),
            ) || DrawSequencer::previous_post(states[i], states[i + 1], Some(shown[i])),
    ensures
        forall|i: int| 0 <= i < states.len() ==> #[trigger] states[i].history() == states[0].history(),
        forall|i: int, j: int|
            0 <= i < shown.len() && 0 <= j < shown.len() && states[i + 1].cursor() == states[j
                + 1].cursor() ==> #[trigger] shown[i] == #[trigger] shown[j],
{
    assert forall|i: int| 0 <= i < states.len() implies #[trigger] states[i].history()
        == states[0].history() by {
        lemma_navigation_prefix(states, shown, i);
    }
    assert forall|i: int, j: int|
        0 <= i < shown.len() && 0 <= j < shown.len() && states[i + 1].cursor() == states[j
            + 1].cursor() implies #[trigger] shown[i] == #[trigger] shown[j] by {
        lemma_navigation_prefix(states, shown, i + 1);
        lemma_navigation_prefix(states, shown, j + 1);
    }
}

proof fn lemma_completion_prefix(states: Seq<DrawSequencer>, outcomes: Seq<DrawOutcome>, k: int)
    requires
        states.len() == outcomes.len() + 1,
        outcomes.len() == states[0].target(),
        states[0].wf(),
        states[0].history().len() == 1,
        states[0].cursor() == 0,
        forall|i: int|
            0 <= i < outcomes.len() ==> DrawSequencer::next_post(
                #[trigger] states[i],
                states[i + 1],
                outcomes[i],
            ),
        0 <= k < outcomes.len(),
    ensures
        states[k].history().len() == k + 1,
        states[k].cursor() == 0,
        states[k].target() == states[0].target(),
        states[k].wf(),
        forall|i: int| 0 <= i < k ==> #[trigger] outcomes[i] is Drawn,
    decreases k,
{
    if k > 0 {
        lemma_completion_prefix(states, outcomes, k - 1);
        assert(DrawSequencer::next_post(states[k - 1], states[k], outcomes[k - 1]));
    }
}

/// Completion boundary: once the first image of a session is drawn, as many
/// steps forward as the session has images draw every remaining image and
/// then complete on the last step; the history never outgrows the session.
pub proof fn lemma_completion_boundary(states: Seq<DrawSequencer>, outcomes: Seq<DrawOutcome>)
    requires
        states.len() == outcomes.len() + 1,
        outcomes.len() == states[0].target(),
        states[0].wf(),
        states[0].history().len() == 1,
        states[0].cursor() == 0,
        forall|i: int|
            0 <= i < outcomes.len() ==> DrawSequencer::next_post(
                #[trigger] states[i],
                states[i + 1],
                outcomes[i],
            ),
    ensures
        forall|i: int| 0 <= i < outcomes.len() - 1 ==> #[trigger] outcomes[i] is Drawn,
        outcomes.last() is Completed,
        forall|i: int|
            0 <= i < states.len() ==> #[trigger] states[i].history().len() <= states[0].target(),
        states.last().history().len() == states[0].target(),
{
    let n = outcomes.len() as int;
    lemma_completion_prefix(states, outcomes, n - 1);
    assert(DrawSequencer::next_post(states[n - 1], states[n], outcomes[n - 1]));
    assert forall|i: int| 0 <= i < states.len() implies #[trigger] states[i].history().len()
        <= states[0].target() by {
        if i < n {
            lemma_completion_prefix(states, outcomes, i);
        }
    }
}

} // verus!
