//! The list of sources the user chooses from, kept in step with the backend
//! by applying modification logs, and the summary of the chosen sources'
//! checks shown before a session starts.

use vstd::prelude::*;
use vstd::string::StringExecFns;

use crate::backend::AppBackend;
use crate::catalog::{lookup, used_sources};
use crate::modifications::{
    AppBackendModifications, ImageSourceModification, PlaybackState, SessionModification,
};
use crate::source::{ImageSource, ImageSourceCheck, ImageSourceId, ImageSourceStatus};

verus! {

/// One row of the source list.
#[derive(Debug)]
pub struct ImageSourceSelectorEntryData {
    pub id: ImageSourceId,
    pub name: String,
    pub image_count: usize,
    pub enabled: bool,
    pub status: ImageSourceStatus,
}

/// The row that shows `source`, ticked when `enabled`.
pub open spec fn entry_of(source: ImageSource, enabled: bool) -> ImageSourceSelectorEntryData {
    ImageSourceSelectorEntryData {
        id: source.spec_id(),
        name: source.spec_name(),
        image_count: source.spec_check().image_count,
        enabled,
        status: source.spec_check().status,
    }
}

/// The row for source `id` of `catalog`, if it is catalogued.
pub open spec fn selector_entry(
    catalog: Seq<ImageSource>,
    used: Seq<ImageSourceId>,
    id: ImageSourceId,
) -> Option<ImageSourceSelectorEntryData> {
    match lookup(catalog, id) {
        Some(source) => Some(entry_of(source, used.contains(id))),
        None => None,
    }
}

/// Which changes of a log a pass over it takes.
#[derive(Clone, Copy, Debug, PartialEq, Eq, Structural)]
pub enum ModificationKind {
    Added,
    Modified,
    Deleted,
}

pub open spec fn is_kind(m: ImageSourceModification, kind: ModificationKind) -> bool {
    match kind {
        ModificationKind::Added => m is Added,
        ModificationKind::Modified => m is Modified,
        ModificationKind::Deleted => m is Deleted,
    }
}

/// The sources of the catalog changes of one kind, in log order.
pub open spec fn ids_of_kind(log: Seq<ImageSourceModification>, kind: ModificationKind) -> Seq<
    ImageSourceId,
>
    decreases log.len(),
{
    if log.len() == 0 {
        Seq::empty()
    } else {
        let rest = ids_of_kind(log.drop_last(), kind);
        if is_kind(log.last(), kind) {
            rest.push(log.last().spec_id())
        } else {
            rest
        }
    }
}

/// The sources whose use by the session changed, in log order.
pub open spec fn session_source_ids(log: Seq<SessionModification>) -> Seq<ImageSourceId>
    decreases log.len(),
{
    if log.len() == 0 {
        Seq::empty()
    } else {
        let rest = session_source_ids(log.drop_last());
        match log.last() {
            SessionModification::AddedImageSource(id) => rest.push(id),
            SessionModification::RemovedImageSource(id) => rest.push(id),
            SessionModification::State(_) => rest,
        }
    }
}

/// Index of the last row of `entries` for source `id`, or -1.
pub open spec fn entry_index(entries: Seq<ImageSourceSelectorEntryData>, id: ImageSourceId) -> int
    decreases entries.len(),
{
    if entries.len() == 0 {
        -1
    } else if entries.last().id == id {
        entries.len() - 1
    } else {
        entry_index(entries.drop_last(), id)
    }
}

/// The rows after refreshing, in turn, the row of each of `ids` that is
/// both listed and catalogued.
pub open spec fn refreshed(
    entries: Seq<ImageSourceSelectorEntryData>,
    catalog: Seq<ImageSource>,
    used: Seq<ImageSourceId>,
    ids: Seq<ImageSourceId>,
) -> Seq<ImageSourceSelectorEntryData>
    decreases ids.len(),
{
    if ids.len() == 0 {
        entries
    } else {
        let e = refreshed(entries, catalog, used, ids.drop_last());
        let k = entry_index(e, ids.last());
        match selector_entry(catalog, used, ids.last()) {
            Some(x) => if k >= 0 {
                e.update(k, x)
            } else {
                e
            },
            None => e,
        }
    }
}

/// The rows after appending, in turn, a row for each of `ids` that is
/// catalogued.
pub open spec fn appended(
    entries: Seq<ImageSourceSelectorEntryData>,
    catalog: Seq<ImageSource>,
    used: Seq<ImageSourceId>,
    ids: Seq<ImageSourceId>,
) -> Seq<ImageSourceSelectorEntryData>
    decreases ids.len(),
{
    if ids.len() == 0 {
        entries
    } else {
        let e = appended(entries, catalog, used, ids.drop_last());
        match selector_entry(catalog, used, ids.last()) {
            Some(x) => e.push(x),
            None => e,
        }
    }
}

/// The rows after removing, in turn, the row of each of `ids` that is listed.
pub open spec fn removed(entries: Seq<ImageSourceSelectorEntryData>, ids: Seq<ImageSourceId>) -> Seq<
    ImageSourceSelectorEntryData,
>
    decreases ids.len(),
{
    if ids.len() == 0 {
        entries
    } else {
        let e = removed(entries, ids.drop_last());
        let k = entry_index(e, ids.last());
        if k >= 0 {
            e.remove(k)
        } else {
            e
        }
    }
}

/// The sources of a log whose rows are refreshed: those it modified, then
/// those whose use by the session changed.
pub open spec fn refreshed_ids(m: AppBackendModifications) -> Seq<ImageSourceId> {
    ids_of_kind(m.image_sources@, ModificationKind::Modified) + session_source_ids(m.session@)
}

/// The rows after applying a log: refresh, then append, then remove.
pub open spec fn applied(
    entries: Seq<ImageSourceSelectorEntryData>,
    catalog: Seq<ImageSource>,
    used: Seq<ImageSourceId>,
    m: AppBackendModifications,
) -> Seq<ImageSourceSelectorEntryData> {
    removed(
        appended(
            refreshed(entries, catalog, used, refreshed_ids(m)),
            catalog,
            used,
            ids_of_kind(m.image_sources@, ModificationKind::Added),
        ),
        ids_of_kind(m.image_sources@, ModificationKind::Deleted),
    )
}

fn ids_of_kind_exec(log: &Vec<ImageSourceModification>, kind: ModificationKind) -> (r: Vec<
    ImageSourceId,
>)
    ensures
        r@ == ids_of_kind(log@, kind),
{
    let mut r: Vec<ImageSourceId> = Vec::new();
    let mut i: usize = 0;
    while i < log.len()
        invariant
            0 <= i <= log@.len(),
            r@ == ids_of_kind(log@.subrange(0, i as int), kind),
        decreases log@.len() - i,
    {
        assert(log@.subrange(0, i + 1).drop_last() =~= log@.subrange(0, i as int));
        let m = log[i];
        let take = match (m, kind) {
            (ImageSourceModification::Added(_), ModificationKind::Added) => true,
            (ImageSourceModification::Modified(_), ModificationKind::Modified) => true,
            (ImageSourceModification::Deleted(_), ModificationKind::Deleted) => true,
            _ => false,
        };
        if take {
            r.push(m.id());
        }
        i = i + 1;
    }
    assert(log@.subrange(0, i as int) =~= log@);
    r
}

fn session_source_ids_exec(log: &Vec<SessionModification>) -> (r: Vec<ImageSourceId>)
    ensures
        r@ == session_source_ids(log@),
{
    let mut r: Vec<ImageSourceId> = Vec::new();
    let mut i: usize = 0;
    while i < log.len()
        invariant
            0 <= i <= log@.len(),
            r@ == session_source_ids(log@.subrange(0, i as int)),
        decreases log@.len() - i,
    {
        assert(log@.subrange(0, i + 1).drop_last() =~= log@.subrange(0, i as int));
        match log[i] {
            SessionModification::AddedImageSource(id) => r.push(id),
            SessionModification::RemovedImageSource(id) => r.push(id),
            SessionModification::State(_) => {},
        }
        i = i + 1;
    }
    assert(log@.subrange(0, i as int) =~= log@);
    r
}

fn find_entry(entries: &Vec<ImageSourceSelectorEntryData>, id: ImageSourceId) -> (r: Option<usize>)
    ensures
        match r {
            Some(k) => entry_index(entries@, id) == k && k < entries@.len(),
            None => entry_index(entries@, id) == -1,
        },
{
    let mut found: Option<usize> = None;
    let mut i: usize = 0;
    while i < entries.len()
        invariant
            0 <= i <= entries@.len(),
            match found {
                Some(k) => entry_index(entries@.subrange(0, i as int), id) == k && k < i,
                None => entry_index(entries@.subrange(0, i as int), id) == -1,
            },
        decreases entries@.len() - i,
    {
        assert(entries@.subrange(0, i + 1).drop_last() =~= entries@.subrange(0, i as int));
        if entries[i].id == id {
            found = Some(i);
        }
        i = i + 1;
    }
    assert(entries@.subrange(0, i as int) =~= entries@);
    found
}

impl AppBackend {
    /// The row that shows source `id`, if it is catalogued.
    pub fn new_image_source_selector_entry_data(&self, id: ImageSourceId) -> (r: Option<
        ImageSourceSelectorEntryData,
    >)
        ensures
            r == selector_entry(self.catalog(), self.used(), id),
    {
        match self.get_image_source(id) {
            Some(source) => {
                let check = source.check();
                Some(
                    ImageSourceSelectorEntryData {
                        id: source.id(),
                        name: source.name().clone(),
                        image_count: check.image_count,
                        enabled: self.is_image_source_used(id),
                        status: check.status.clone(),
                    },
                )
            },
            None => None,
        }
    }
}

/// The rows of the source list.
pub struct ImageSourceSelectorEntries {
    entries: Vec<ImageSourceSelectorEntryData>,
}

impl View for ImageSourceSelectorEntries {
    type V = Seq<ImageSourceSelectorEntryData>;

    closed spec fn view(&self) -> Seq<ImageSourceSelectorEntryData> {
        self.entries@
    }
}

impl ImageSourceSelectorEntries {
    pub fn new() -> (r: Self)
        ensures
            r@ == Seq::<ImageSourceSelectorEntryData>::empty(),
    {
        ImageSourceSelectorEntries { entries: Vec::new() }
    }

    pub fn entries(&self) -> (r: &Vec<ImageSourceSelectorEntryData>)
        ensures
            r@ == self@,
    {
        &self.entries
    }

    /// Brings the rows in step with `backend` after the changes in
    /// `modifications`: rows of modified sources, and of sources whose use
    /// changed, are refreshed; added sources get a row; rows of deleted
    /// sources go.
    pub fn update_with_backend_modifications(
        &mut self,
        backend: &AppBackend,
        modifications: &AppBackendModifications,
    )
        ensures
            final(self)@ == applied(old(self)@, backend.catalog(), backend.used(), *modifications),
    {
        let ghost catalog = backend.catalog();
        let ghost used = backend.used();
        let mut edits = ids_of_kind_exec(&modifications.image_sources, ModificationKind::Modified);
        let mut session_edits = session_source_ids_exec(&modifications.session);
        edits.append(&mut session_edits);
        let ghost e0 = self@;
        let mut i: usize = 0;
        while i < edits.len()
            invariant
                0 <= i <= edits@.len(),
                edits@ == refreshed_ids(*modifications),
                catalog == backend.catalog(),
                used == backend.used(),
                self@ == refreshed(e0, catalog, used, edits@.subrange(0, i as int)),
            decreases edits@.len() - i,
        {
            assert(edits@.subrange(0, i + 1).drop_last() =~= edits@.subrange(0, i as int));
            let id = edits[i];
            match find_entry(&self.entries, id) {
                Some(k) => match backend.new_image_source_selector_entry_data(id) {
                    Some(x) => {
                        self.entries.set(k, x);
                    },
                    None => {},
                },
                None => {},
            }
            i = i + 1;
        }
        assert(edits@.subrange(0, i as int) =~= edits@);
        let ghost e1 = self@;
        let adds = ids_of_kind_exec(&modifications.image_sources, ModificationKind::Added);
        let mut j: usize = 0;
        while j < adds.len()
            invariant
                0 <= j <= adds@.len(),
                catalog == backend.catalog(),
                used == backend.used(),
                self@ == appended(e1, catalog, used, adds@.subrange(0, j as int)),
            decreases adds@.len() - j,
        {
            assert(adds@.subrange(0, j + 1).drop_last() =~= adds@.subrange(0, j as int));
            match backend.new_image_source_selector_entry_data(adds[j]) {
                Some(x) => {
                    self.entries.push(x);
                },
                None => {},
            }
            j = j + 1;
        }
        assert(adds@.subrange(0, j as int) =~= adds@);
        let ghost e2 = self@;
        let deletes = ids_of_kind_exec(&modifications.image_sources, ModificationKind::Deleted);
        let mut d: usize = 0;
        while d < deletes.len()
            invariant
                0 <= d <= deletes@.len(),
                self@ == removed(e2, deletes@.subrange(0, d as int)),
            decreases deletes@.len() - d,
        {
            assert(deletes@.subrange(0, d + 1).drop_last() =~= deletes@.subrange(0, d as int));
            match find_entry(&self.entries, deletes[d]) {
                Some(k) => {
                    self.entries.remove(k);
                },
                None => {},
            }
            d = d + 1;
        }
        assert(deletes@.subrange(0, d as int) =~= deletes@);
    }
}

/// A status as the summary reads it: the text of an error as characters.
pub enum StatusView {
    Unknown,
    Valid,
    Error(Seq<char>),
}

pub open spec fn status_view(s: ImageSourceStatus) -> StatusView {
    match s {
        ImageSourceStatus::Unknown => StatusView::Unknown,
        ImageSourceStatus::Valid => StatusView::Valid,
        ImageSourceStatus::Error(message) => StatusView::Error(message@),
    }
}

/// Folds one more check into the summary `(count, status)`: the first known
/// status is taken whole; errors win over validity and their texts are
/// joined; valid counts add up, saturating at `usize::MAX`.
pub open spec fn combine(acc: (usize, StatusView), c: ImageSourceCheck) -> (usize, StatusView) {
    match (acc.1, status_view(c.status)) {
        (StatusView::Unknown, v) => (c.image_count, v),
        (StatusView::Error(a), StatusView::Error(b)) => (acc.0, StatusView::Error(a + b)),
        (_, StatusView::Error(b)) => (acc.0, StatusView::Error(b)),
        (StatusView::Error(a), _) => (acc.0, StatusView::Error(a)),
        (StatusView::Valid, StatusView::Valid) => (
            if acc.0 + c.image_count > usize::MAX {
                usize::MAX
            } else {
                (acc.0 + c.image_count) as usize
            },
            StatusView::Valid,
        ),
        (StatusView::Valid, _) => (acc.0, StatusView::Valid),
    }
}

/// The summary of the checks of `sources`, starting from nothing known.
pub open spec fn summary(sources: Seq<ImageSource>) -> (usize, StatusView)
    decreases sources.len(),
{
    if sources.len() == 0 {
        (0, StatusView::Unknown)
    } else {
        combine(summary(sources.drop_last()), sources.last().spec_check())
    }
}

fn combine_exec(acc: ImageSourceCheck, c: &ImageSourceCheck) -> (r: ImageSourceCheck)
    ensures
        (r.image_count, status_view(r.status)) == combine(
            (acc.image_count, status_view(acc.status)),
            *c,
        ),
{
    match (acc.status, &c.status) {
        (ImageSourceStatus::Unknown, _) => c.clone(),
        (ImageSourceStatus::Error(a), ImageSourceStatus::Error(b)) => ImageSourceCheck::new(
            acc.image_count,
            ImageSourceStatus::Error(a.concat(b.as_str())),
        ),
        (ImageSourceStatus::Valid, ImageSourceStatus::Error(b)) => ImageSourceCheck::new(
            acc.image_count,
            ImageSourceStatus::Error(b.clone()),
        ),
        (ImageSourceStatus::Error(a), _) => ImageSourceCheck::new(
            acc.image_count,
            ImageSourceStatus::Error(a),
        ),
        (ImageSourceStatus::Valid, ImageSourceStatus::Valid) => ImageSourceCheck::new(
            acc.image_count.saturating_add(c.image_count),
            ImageSourceStatus::Valid,
        ),
        (ImageSourceStatus::Valid, ImageSourceStatus::Unknown) => ImageSourceCheck::new(
            acc.image_count,
            ImageSourceStatus::Valid,
        ),
    }
}

impl AppBackend {
    /// The summary shown before a session starts: the checks of the chosen,
    /// catalogued sources folded together.
    pub fn used_sources_check(&self) -> (r: ImageSourceCheck)
        ensures
            (r.image_count, status_view(r.status)) == summary(
                used_sources(self.catalog(), self.used()),
            ),
    {
        let sources = self.used_image_source();
        let mut acc = ImageSourceCheck::default();
        let mut i: usize = 0;
        while i < sources.len()
            invariant
                0 <= i <= sources@.len(),
                (acc.image_count, status_view(acc.status)) == summary(
                    sources@.subrange(0, i as int),
                ),
            decreases sources@.len() - i,
        {
            assert(sources@.subrange(0, i + 1).drop_last() =~= sources@.subrange(0, i as int));
            acc = combine_exec(acc, sources[i].check());
            i = i + 1;
        }
        assert(sources@.subrange(0, i as int) =~= sources@);
        acc
    }

    /// Whether a log calls for a new summary: it changed the session, or
    /// touched a source the session uses.
    pub fn summary_needs_update(&self, modifications: &AppBackendModifications) -> (r: bool)
        ensures
            r == (modifications.session@.len() > 0 || exists|k: int|
                0 <= k < modifications.image_sources@.len() && self.used().contains(
                    #[trigger] modifications.image_sources@[k].spec_id(),
                )),
    {
        if modifications.session.len() > 0 {
            return true;
        }
        let log = &modifications.image_sources;
        let mut k: usize = 0;
        while k < log.len()
            invariant
                0 <= k <= log@.len(),
                log@ == modifications.image_sources@,
                forall|j: int| 0 <= j < k ==> !self.used().contains(#[trigger] log@[j].spec_id()),
            decreases log@.len() - k,
        {
            if self.is_image_source_used(log[k].id()) {
                assert(self.used().contains(log@[k as int].spec_id()));
                return true;
            }
            k = k + 1;
        }
        false
    }
}

impl AppBackendModifications {
    /// The last playback state a log reports, if any.
    pub fn last_state(&self) -> (r: Option<PlaybackState>)
        ensures
            r == last_state_of(self.session@),
    {
        let mut found: Option<PlaybackState> = None;
        let mut i: usize = 0;
        while i < self.session.len()
            invariant
                0 <= i <= self.session@.len(),
                found == last_state_of(self.session@.subrange(0, i as int)),
            decreases self.session@.len() - i,
        {
            assert(self.session@.subrange(0, i + 1).drop_last() =~= self.session@.subrange(
                0,
                i as int,
            ));
            match self.session[i] {
                SessionModification::State(s) => {
                    found = Some(s);
                },
                _ => {},
            }
            i = i + 1;
        }
        assert(self.session@.subrange(0, i as int) =~= self.session@);
        found
    }
}

/// The last playback state in a session log, if any.
pub open spec fn last_state_of(log: Seq<SessionModification>) -> Option<PlaybackState>
    decreases log.len(),
{
    if log.len() == 0 {
        None
    } else {
        match log.last() {
            SessionModification::State(s) => Some(s),
            _ => last_state_of(log.drop_last()),
        }
    }
}

} // verus!
