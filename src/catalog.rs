//! The catalog of image sources: at most one source per identifier, in the
//! order they were added, edited through the folder editor.

use vstd::prelude::*;

use crate::modifications::{AppBackendModifications, ImageSourceModification};
use crate::source::{ImageSource, ImageSourceCheck, ImageSourceFolder, ImageSourceId};

verus! {

/// What the UUID parser makes of a text: the 128 bits of the UUID it spells,
/// or `None` when it spells none.
pub uninterp spec fn parsed_uuid(text: Seq<char>) -> Option<u128>;

/// Relies on `uuid::Uuid::parse_str`, read as a `u128`: the result depends on
/// the text alone, and an empty text spells no UUID (the parser accepts only
/// lengths 32, 36, 38 and 45).
#[verifier::external_body]
fn parse_uuid(text: &str) -> (r: Option<u128>)
    ensures
        r == parsed_uuid(text@),
        text@.len() == 0 ==> r is None,
{
    uuid::Uuid::parse_str(text).ok().map(|id| id.as_u128())
}

/// The identifier a text spells, as the folder editor and the source list
/// hand them over; `None` when it spells none.
pub fn parse_source_id(text: &str) -> (r: Option<ImageSourceId>)
    ensures
        match parsed_uuid(text@) {
            Some(v) => r == Some(ImageSourceId { value: v }),
            None => r is None,
        },
        text@.len() == 0 ==> r is None,
{
    match parse_uuid(text) {
        Some(v) => Some(ImageSourceId::new(v)),
        None => None,
    }
}

/// Relies on `uuid::Uuid::new_v4`, read as a `u128`: a random identifier, of
/// which nothing is promised.
#[verifier::external_body]
fn random_uuid() -> (r: u128) {
    uuid::Uuid::new_v4().as_u128()
}

/// Index of the last source of `s` with identifier `id`, or -1.
pub open spec fn index_of(s: Seq<ImageSource>, id: ImageSourceId) -> int
    decreases s.len(),
{
    if s.len() == 0 {
        -1
    } else if s.last().spec_id() == id {
        s.len() - 1
    } else {
        index_of(s.drop_last(), id)
    }
}

pub open spec fn has_id(s: Seq<ImageSource>, id: ImageSourceId) -> bool {
    index_of(s, id) >= 0
}

/// No two sources share an identifier.
pub open spec fn ids_unique(s: Seq<ImageSource>) -> bool {
    forall|i: int, j: int|
        0 <= i < s.len() && 0 <= j < s.len() && i != j ==> s[i].spec_id() != s[j].spec_id()
}

/// The source with identifier `id`, if there is one.
pub open spec fn lookup(s: Seq<ImageSource>, id: ImageSourceId) -> Option<ImageSource> {
    if has_id(s, id) {
        Some(s[index_of(s, id)])
    } else {
        None
    }
}

/// `s` with `x` in place of the source that has its identifier, or with `x`
/// appended when there is none.
pub open spec fn upsert(s: Seq<ImageSource>, x: ImageSource) -> Seq<ImageSource> {
    if has_id(s, x.spec_id()) {
        s.update(index_of(s, x.spec_id()), x)
    } else {
        s.push(x)
    }
}

/// The catalog that results from inserting each of `xs` in turn.
pub open spec fn upsert_all(s: Seq<ImageSource>, xs: Seq<ImageSource>) -> Seq<ImageSource>
    decreases xs.len(),
{
    if xs.len() == 0 {
        s
    } else {
        upsert(upsert_all(s, xs.drop_last()), xs.last())
    }
}

/// The sources of `used`, looked up in `s`, skipping those `s` lacks.
pub open spec fn used_sources(s: Seq<ImageSource>, used: Seq<ImageSourceId>) -> Seq<ImageSource>
    decreases used.len(),
{
    if used.len() == 0 {
        Seq::empty()
    } else {
        let rest = used_sources(s, used.drop_last());
        match lookup(s, used.last()) {
            Some(x) => rest.push(x),
            None => rest,
        }
    }
}

pub open spec fn deleted_all(s: Seq<ImageSource>) -> Seq<ImageSourceModification> {
    s.map_values(|x: ImageSource| ImageSourceModification::Deleted(x.spec_id()))
}

pub open spec fn added_all(s: Seq<ImageSource>) -> Seq<ImageSourceModification> {
    s.map_values(|x: ImageSource| ImageSourceModification::Added(x.spec_id()))
}

pub proof fn lemma_index_of(s: Seq<ImageSource>, id: ImageSourceId)
    ensures
        -1 <= index_of(s, id) < s.len(),
        index_of(s, id) >= 0 ==> s[index_of(s, id)].spec_id() == id,
        forall|j: int| index_of(s, id) < j < s.len() ==> s[j].spec_id() != id,
    decreases s.len(),
{
    if s.len() > 0 && s.last().spec_id() != id {
        lemma_index_of(s.drop_last(), id);
        assert forall|j: int| index_of(s, id) < j < s.len() implies s[j].spec_id() != id by {
            if j < s.len() - 1 {
                assert(s.drop_last()[j] == s[j]);
            }
        }
    }
}

/// In a catalog whose identifiers are unique, the source found for an
/// identifier is the one holding it.
pub proof fn lemma_index_of_unique(s: Seq<ImageSource>, i: int)
    requires
        ids_unique(s),
        0 <= i < s.len(),
    ensures
        index_of(s, s[i].spec_id()) == i,
{
    lemma_index_of(s, s[i].spec_id());
}

pub proof fn lemma_upsert_unique(s: Seq<ImageSource>, x: ImageSource)
    requires
        ids_unique(s),
    ensures
        ids_unique(upsert(s, x)),
        has_id(upsert(s, x), x.spec_id()),
{
    lemma_index_of(s, x.spec_id());
    let r = upsert(s, x);
    if has_id(s, x.spec_id()) {
        lemma_index_of_unique(r, index_of(s, x.spec_id()));
    } else {
        assert forall|j: int| 0 <= j < s.len() implies s[j].spec_id() != x.spec_id() by {
            if s[j].spec_id() == x.spec_id() {
                lemma_index_of_unique(s, j);
            }
        }
        lemma_index_of_unique(r, s.len() as int);
    }
}

pub proof fn lemma_remove_unique(s: Seq<ImageSource>, i: int)
    requires
        ids_unique(s),
        0 <= i < s.len(),
    ensures
        ids_unique(s.remove(i)),
{
    let r = s.remove(i);
    assert forall|a: int, b: int|
        0 <= a < r.len() && 0 <= b < r.len() && a != b implies r[a].spec_id() != r[b].spec_id() by {
        let a2 = if a < i { a } else { a + 1 };
        let b2 = if b < i { b } else { b + 1 };
        assert(r[a] == s[a2]);
        assert(r[b] == s[b2]);
    }
}

/// Searches `sources` for `id`.
fn find_index(sources: &Vec<ImageSource>, id: ImageSourceId) -> (r: Option<usize>)
    ensures
        match r {
            Some(i) => index_of(sources@, id) == i && i < sources@.len(),
            None => index_of(sources@, id) == -1,
        },
{
    let mut found: Option<usize> = None;
    let mut i: usize = 0;
    while i < sources.len()
        invariant
            0 <= i <= sources@.len(),
            match found {
                Some(k) => index_of(sources@.subrange(0, i as int), id) == k && k < i,
                None => index_of(sources@.subrange(0, i as int), id) == -1,
            },
        decreases sources@.len() - i,
    {
        assert(sources@.subrange(0, i + 1).drop_last() =~= sources@.subrange(0, i as int));
        if sources[i].id() == id {
            found = Some(i);
        }
        i = i + 1;
    }
    assert(sources@.subrange(0, i as int) =~= sources@);
    found
}

/// The configured image sources, at most one per identifier, in the order in
/// which they were first added.
pub struct ImageSourceBackend {
    image_sources: Vec<ImageSource>,
}

impl View for ImageSourceBackend {
    type V = Seq<ImageSource>;

    closed spec fn view(&self) -> Seq<ImageSource> {
        self.image_sources@
    }
}

impl ImageSourceBackend {
    pub open spec fn wf(&self) -> bool {
        ids_unique(self@)
    }

    pub fn new() -> (r: Self)
        ensures
            r@ == Seq::<ImageSource>::empty(),
            r.wf(),
    {
        ImageSourceBackend { image_sources: Vec::new() }
    }

    pub fn image_sources(&self) -> (r: &Vec<ImageSource>)
        ensures
            r@ == self@,
    {
        &self.image_sources
    }

    pub fn get_image_source(&self, id: ImageSourceId) -> (r: Option<&ImageSource>)
        ensures
            match r {
                Some(x) => lookup(self@, id) == Some(*x),
                None => lookup(self@, id) is None,
            },
    {
        match find_index(&self.image_sources, id) {
            Some(i) => Some(&self.image_sources[i]),
            None => None,
        }
    }

    /// Inserts `image_source`, in place of the source with the same
    /// identifier if there is one.
    pub fn add_image_source(&mut self, image_source: ImageSource)
        requires
            old(self).wf(),
        ensures
            final(self).wf(),
            final(self)@ == upsert(old(self)@, image_source),
    {
        proof {
            lemma_upsert_unique(self@, image_source);
        }
        match find_index(&self.image_sources, image_source.id()) {
            Some(i) => {
                self.image_sources.set(i, image_source);
            },
            None => {
                self.image_sources.push(image_source);
            },
        }
    }

    /// Removes and returns the source with identifier `id`, if any.
    pub fn remove_image_source(&mut self, id: ImageSourceId) -> (r: Option<ImageSource>)
        requires
            old(self).wf(),
        ensures
            final(self).wf(),
            r == lookup(old(self)@, id),
            has_id(old(self)@, id) ==> final(self)@ == old(self)@.remove(index_of(old(self)@, id)),
            !has_id(old(self)@, id) ==> final(self)@ == old(self)@,
    {
        proof {
            lemma_index_of(self@, id);
        }
        match find_index(&self.image_sources, id) {
            Some(i) => {
                proof {
                    lemma_remove_unique(self@, i as int);
                }
                Some(self.image_sources.remove(i))
            },
            None => None,
        }
    }

    /// Replaces the check of the source with identifier `id`; returns whether
    /// there was such a source.
    pub fn set_check(&mut self, id: ImageSourceId, check: ImageSourceCheck) -> (r: bool)
        requires
            old(self).wf(),
        ensures
            final(self).wf(),
            r == has_id(old(self)@, id),
            r ==> final(self)@ == old(self)@.update(
                index_of(old(self)@, id),
                old(self)@[index_of(old(self)@, id)].checked(check),
            ),
            !r ==> final(self)@ == old(self)@,
    {
        proof {
            lemma_index_of(self@, id);
        }
        match find_index(&self.image_sources, id) {
            Some(i) => {
                let mut source = self.image_sources[i].clone();
                source.set_check(check);
                self.image_sources.set(i, source);
                proof {
                    assert forall|a: int, b: int|
                        0 <= a < self@.len() && 0 <= b < self@.len() && a != b implies self@[a].spec_id()
                        != self@[b].spec_id() by {
                        assert(old(self)@[a].spec_id() == self@[a].spec_id());
                        assert(old(self)@[b].spec_id() == self@[b].spec_id());
                    }
                }
                true
            },
            None => false,
        }
    }

    /// Gives the source with identifier `id` a new name and locator; returns
    /// whether there was such a source.
    pub fn rename(&mut self, id: ImageSourceId, name: String, locator: String) -> (r: bool)
        requires
            old(self).wf(),
        ensures
            final(self).wf(),
            r == has_id(old(self)@, id),
            r ==> final(self)@ == old(self)@.update(
                index_of(old(self)@, id),
                old(self)@[index_of(old(self)@, id)].renamed(name, locator),
            ),
            !r ==> final(self)@ == old(self)@,
    {
        proof {
            lemma_index_of(self@, id);
        }
        match find_index(&self.image_sources, id) {
            Some(i) => {
                let mut source = self.image_sources[i].clone();
                source.set_name_and_locator(name, locator);
                self.image_sources.set(i, source);
                proof {
                    assert forall|a: int, b: int|
                        0 <= a < self@.len() && 0 <= b < self@.len() && a != b implies self@[a].spec_id()
                        != self@[b].spec_id() by {
                        assert(old(self)@[a].spec_id() == self@[a].spec_id());
                        assert(old(self)@[b].spec_id() == self@[b].spec_id());
                    }
                }
                true
            },
            None => false,
        }
    }

    /// Replaces the whole catalog with `image_sources`, a later source
    /// replacing an earlier one with the same identifier. The log deletes
    /// every former source, then adds every new one, each in catalog order.
    pub fn update_from_state(&mut self, image_sources: Vec<ImageSource>) -> (r:
        AppBackendModifications)
        requires
            old(self).wf(),
        ensures
            final(self).wf(),
            final(self)@ == upsert_all(Seq::empty(), image_sources@),
            r.image_sources@ == deleted_all(old(self)@) + added_all(final(self)@),
            r.session@.len() == 0,
    {
        let mut log: Vec<ImageSourceModification> = Vec::new();
        let mut i: usize = 0;
        while i < self.image_sources.len()
            invariant
                0 <= i <= self@.len(),
                self@ == old(self)@,
                log@ == deleted_all(self@.subrange(0, i as int)),
            decreases self@.len() - i,
        {
            log.push(ImageSourceModification::Deleted(self.image_sources[i].id()));
            i = i + 1;
            assert(log@ =~= deleted_all(self@.subrange(0, i as int)));
        }
        assert(self@.subrange(0, i as int) =~= self@);
        let ghost deleted = log@;
        self.image_sources = Vec::new();
        let mut k: usize = 0;
        while k < image_sources.len()
            invariant
                0 <= k <= image_sources@.len(),
                self.wf(),
                self@ == upsert_all(Seq::empty(), image_sources@.subrange(0, k as int)),
            decreases image_sources@.len() - k,
        {
            assert(image_sources@.subrange(0, k + 1).drop_last() =~= image_sources@.subrange(
                0,
                k as int,
            ));
            self.add_image_source(image_sources[k].clone());
            k = k + 1;
        }
        assert(image_sources@.subrange(0, k as int) =~= image_sources@);
        let mut j: usize = 0;
        while j < self.image_sources.len()
            invariant
                0 <= j <= self@.len(),
                log@ == deleted + added_all(self@.subrange(0, j as int)),
            decreases self@.len() - j,
        {
            log.push(ImageSourceModification::Added(self.image_sources[j].id()));
            j = j + 1;
            assert(log@ =~= deleted + added_all(self@.subrange(0, j as int)));
        }
        assert(self@.subrange(0, j as int) =~= self@);
        AppBackendModifications { image_sources: log, session: Vec::new() }
    }

    /// Adds a folder source or edits one, as the folder editor asks. When
    /// `data.id` spells the identifier of a catalogued source, that source
    /// takes `data.name`, and `path` when one was picked; the log holds
    /// `Modified`. Otherwise a folder with a fresh identifier (or the one
    /// `data.id` spells) is appended, located at `path` or else at
    /// `data.path`; the log holds `Added`.
    pub fn add_or_update_image_source_from_edit_folder(
        &mut self,
        data: &EditSourceFolderData,
        path: Option<String>,
    ) -> (r: AppBackendModifications)
        requires
            old(self).wf(),
        ensures
            final(self).wf(),
            r.session@.len() == 0,
            r.image_sources@.len() == 1,
            ({
                let m = r.image_sources@[0];
                let id = m.spec_id();
                &&& (parsed_uuid(data.id@) matches Some(v) ==> id.value == v)
                &&& (m is Modified <==> has_id(old(self)@, id))
                &&& (m is Modified ==> final(self)@ == edited(old(self)@, id, data.name, path))
                &&& (m is Added ==> final(self)@ == old(self)@.push(
                    new_folder(id, data.name, path, data.path),
                ))
                &&& !(m is Deleted)
            }),
    {
        let id = match parse_source_id(data.id.as_str()) {
            Some(id) => id,
            None => ImageSourceId::new(random_uuid()),
        };
        proof {
            lemma_index_of(self@, id);
        }
        match find_index(&self.image_sources, id) {
            Some(i) => {
                let locator = match path {
                    Some(p) => p,
                    None => self.image_sources[i].locator().clone(),
                };
                self.rename(id, data.name.clone(), locator);
                AppBackendModifications::from_image_source(ImageSourceModification::Modified(id))
            },
            None => {
                let locator = match path {
                    Some(p) => p,
                    None => data.path.clone(),
                };
                let folder = ImageSourceFolder::new(
                    id,
                    data.name.clone(),
                    locator,
                    ImageSourceCheck::default(),
                );
                proof {
                    lemma_index_of(self@, id);
                }
                self.add_image_source(ImageSource::Folder(folder));
                AppBackendModifications::from_image_source(ImageSourceModification::Added(id))
            },
        }
    }
}

/// `s` with the source `id` renamed to `name`, and moved to `picked` when a
/// path was picked.
pub open spec fn edited(
    s: Seq<ImageSource>,
    id: ImageSourceId,
    name: String,
    picked: Option<String>,
) -> Seq<ImageSource> {
    let i = index_of(s, id);
    s.update(
        i,
        s[i].renamed(
            name,
            match picked {
                Some(p) => p,
                None => s[i].spec_locator(),
            },
        ),
    )
}

/// Editing a catalogued source a second time with the same name and path
/// changes nothing: the source keeps its place, no identifier is duplicated,
/// and the source stays catalogued, so that each edit logs `Modified`.
pub proof fn lemma_edit_idempotent(
    s: Seq<ImageSource>,
    id: ImageSourceId,
    name: String,
    picked: Option<String>,
)
    requires
        ids_unique(s),
        has_id(s, id),
    ensures
        ids_unique(edited(s, id, name, picked)),
        has_id(edited(s, id, name, picked), id),
        index_of(edited(s, id, name, picked), id) == index_of(s, id),
        edited(s, id, name, picked).len() == s.len(),
        edited(edited(s, id, name, picked), id, name, picked) == edited(s, id, name, picked),
{
    lemma_index_of(s, id);
    let i = index_of(s, id);
    let t = edited(s, id, name, picked);
    assert forall|a: int, b: int|
        0 <= a < t.len() && 0 <= b < t.len() && a != b implies t[a].spec_id() != t[b].spec_id() by {
        assert(t[a].spec_id() == s[a].spec_id());
        assert(t[b].spec_id() == s[b].spec_id());
    }
    lemma_index_of_unique(t, i);
    assert(edited(t, id, name, picked) =~= t);
}

/// A folder source that was never checked, located at the picked path, or
/// else at the typed one.
pub open spec fn new_folder(
    id: ImageSourceId,
    name: String,
    picked: Option<String>,
    typed: String,
) -> ImageSource {
    ImageSource::Folder(
        ImageSourceFolder {
            id,
            name,
            path: match picked {
                Some(p) => p,
                None => typed,
            },
            check: ImageSourceCheck {
                image_count: 0,
                status: crate::source::ImageSourceStatus::Unknown,
            },
        },
    )
}

/// What the folder editor holds: the identifier text of the source being
/// edited (empty for a new one), its name, and the path typed in.
#[derive(Debug)]
pub struct EditSourceFolderData {
    pub id: String,
    pub name: String,
    pub path: String,
}

} // verus!
