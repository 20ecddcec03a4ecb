//! The application backend: the catalog together with the set of sources the
//! next session will use. Every edit returns its modification log.

use vstd::prelude::*;

use crate::catalog::{
    has_id, index_of, lemma_index_of, lookup, used_sources, EditSourceFolderData,
    ImageSourceBackend,
};
use crate::modifications::{AppBackendModifications, ImageSourceModification, SessionModification};
use crate::source::{ImageSource, ImageSourceCheck, ImageSourceId};

verus! {

/// The sources chosen for the next session, each once, in the order chosen.
pub struct SessionBackend {
    used_sources: Vec<ImageSourceId>,
}

impl View for SessionBackend {
    type V = Seq<ImageSourceId>;

    closed spec fn view(&self) -> Seq<ImageSourceId> {
        self.used_sources@
    }
}

impl SessionBackend {
    pub open spec fn wf(&self) -> bool {
        self@.no_duplicates()
    }

    pub fn new() -> (r: Self)
        ensures
            r@ == Seq::<ImageSourceId>::empty(),
            r.wf(),
    {
        SessionBackend { used_sources: Vec::new() }
    }

    fn position(&self, id: ImageSourceId) -> (r: Option<usize>)
        ensures
            match r {
                Some(i) => i < self@.len() && self@[i as int] == id,
                None => !self@.contains(id),
            },
    {
        let mut i: usize = 0;
        while i < self.used_sources.len()
            invariant
                0 <= i <= self@.len(),
                forall|j: int| 0 <= j < i ==> self@[j] != id,
            decreases self@.len() - i,
        {
            if self.used_sources[i] == id {
                return Some(i);
            }
            i = i + 1;
        }
        None
    }

    pub fn is_image_source_used(&self, id: ImageSourceId) -> (r: bool)
        ensures
            r == self@.contains(id),
    {
        self.position(id).is_some()
    }

    pub fn image_source_used(&self) -> (r: &Vec<ImageSourceId>)
        ensures
            r@ == self@,
    {
        &self.used_sources
    }

    /// Marks `id` as used; returns whether it was not used before.
    pub fn add_image_source(&mut self, id: ImageSourceId) -> (r: bool)
        requires
            old(self).wf(),
        ensures
            final(self).wf(),
            r == !old(self)@.contains(id),
            r ==> final(self)@ == old(self)@.push(id),
            !r ==> final(self)@ == old(self)@,
    {
        match self.position(id) {
            Some(_) => false,
            None => {
                self.used_sources.push(id);
                true
            },
        }
    }

    /// Marks `id` as unused; returns whether it was used before.
    pub fn remove_image_source(&mut self, id: ImageSourceId) -> (r: bool)
        requires
            old(self).wf(),
        ensures
            final(self).wf(),
            r == old(self)@.contains(id),
            final(self)@ == old(self)@.remove_value(id),
    {
        match self.position(id) {
            Some(i) => {
                proof {
                    old(self)@.index_of_first_ensures(id);
                    assert(old(self)@.index_of_first(id) == Some(i as int));
                }
                self.used_sources.remove(i);
                true
            },
            None => {
                proof {
                    old(self)@.index_of_first_ensures(id);
                }
                false
            },
        }
    }
}

/// Source of truth of the application: the catalog of image sources and the
/// sources chosen for the next session.
pub struct AppBackend {
    image_sources: ImageSourceBackend,
    session: SessionBackend,
}

impl AppBackend {
    pub closed spec fn catalog(&self) -> Seq<ImageSource> {
        self.image_sources@
    }

    pub closed spec fn used(&self) -> Seq<ImageSourceId> {
        self.session@
    }

    pub closed spec fn wf(&self) -> bool {
        self.image_sources.wf() && self.session.wf()
    }

    pub fn new() -> (r: Self)
        ensures
            r.wf(),
            r.catalog() == Seq::<ImageSource>::empty(),
            r.used() == Seq::<ImageSourceId>::empty(),
    {
        AppBackend { image_sources: ImageSourceBackend::new(), session: SessionBackend::new() }
    }

    pub fn image_sources(&self) -> (r: &ImageSourceBackend)
        ensures
            r@ == self.catalog(),
            self.wf() ==> r.wf(),
    {
        &self.image_sources
    }

    pub fn session(&self) -> (r: &SessionBackend)
        ensures
            r@ == self.used(),
            self.wf() ==> r.wf(),
    {
        &self.session
    }

    /// Replaces the catalog with sources read back from storage.
    pub fn update_from_state(&mut self, image_sources: Vec<ImageSource>) -> (r:
        AppBackendModifications)
        requires
            old(self).wf(),
        ensures
            final(self).wf(),
            final(self).catalog() == crate::catalog::upsert_all(Seq::empty(), image_sources@),
            final(self).used() == old(self).used(),
            r.image_sources@ == crate::catalog::deleted_all(old(self).catalog())
                + crate::catalog::added_all(final(self).catalog()),
            r.session@.len() == 0,
    {
        self.image_sources.update_from_state(image_sources)
    }

    /// Adds or edits a folder source; see
    /// `ImageSourceBackend::add_or_update_image_source_from_edit_folder`.
    pub fn add_or_update_image_source_from_edit_folder(
        &mut self,
        data: &EditSourceFolderData,
        path: Option<String>,
    ) -> (r: AppBackendModifications)
        requires
            old(self).wf(),
        ensures
            final(self).wf(),
            final(self).used() == old(self).used(),
            r.session@.len() == 0,
            r.image_sources@.len() == 1,
            ({
                let m = r.image_sources@[0];
                let id = m.spec_id();
                &&& (crate::catalog::parsed_uuid(data.id@) matches Some(v) ==> id.value == v)
                &&& (m is Modified <==> has_id(old(self).catalog(), id))
                &&& (m is Modified ==> final(self).catalog() == crate::catalog::edited(
                    old(self).catalog(),
                    id,
                    data.name,
                    path,
                ))
                &&& (m is Added ==> final(self).catalog() == old(self).catalog().push(
                    crate::catalog::new_folder(id, data.name, path, data.path),
                ))
                &&& !(m is Deleted)
            }),
    {
        self.image_sources.add_or_update_image_source_from_edit_folder(data, path)
    }

    /// Deletes a source from the catalog: the log holds `Deleted` when there
    /// was such a source, and nothing otherwise.
    pub fn remove_image_source(&mut self, id: ImageSourceId) -> (r: AppBackendModifications)
        requires
            old(self).wf(),
        ensures
            final(self).wf(),
            final(self).used() == old(self).used(),
            has_id(old(self).catalog(), id) ==> final(self).catalog() == old(self).catalog().remove(
                index_of(old(self).catalog(), id),
            ) && r.is_single_source_change(ImageSourceModification::Deleted(id)),
            !has_id(old(self).catalog(), id) ==> final(self).catalog() == old(self).catalog()
                && r.is_empty_log(),
    {
        match self.image_sources.remove_image_source(id) {
            Some(_) => AppBackendModifications::from_image_source(
                ImageSourceModification::Deleted(id),
            ),
            None => AppBackendModifications::new(),
        }
    }

    /// Records the result of validating source `id`. A result for a source
    /// that is no longer catalogued is dropped: the log is then empty.
    pub fn apply_image_source_check(&mut self, id: ImageSourceId, check: ImageSourceCheck) -> (r:
        AppBackendModifications)
        requires
            old(self).wf(),
        ensures
            final(self).wf(),
            final(self).used() == old(self).used(),
            has_id(old(self).catalog(), id) ==> final(self).catalog() == old(self).catalog().update(
                index_of(old(self).catalog(), id),
                old(self).catalog()[index_of(old(self).catalog(), id)].checked(check),
            ) && r.is_single_source_change(ImageSourceModification::Modified(id)),
            !has_id(old(self).catalog(), id) ==> final(self).catalog() == old(self).catalog()
                && r.is_empty_log(),
    {
        if self.image_sources.set_check(id, check) {
            AppBackendModifications::from_image_source(ImageSourceModification::Modified(id))
        } else {
            AppBackendModifications::new()
        }
    }

    /// Chooses a catalogued source for the next session. The log holds
    /// `AddedImageSource` when the source exists and was not chosen yet.
    pub fn add_image_source_to_session(&mut self, id: ImageSourceId) -> (r:
        AppBackendModifications)
        requires
            old(self).wf(),
        ensures
            final(self).wf(),
            final(self).catalog() == old(self).catalog(),
            has_id(old(self).catalog(), id) && !old(self).used().contains(id) ==> final(self).used()
                == old(self).used().push(id) && r.is_single_session_change(
                SessionModification::AddedImageSource(id),
            ),
            !(has_id(old(self).catalog(), id) && !old(self).used().contains(id)) ==> final(self).used() == old(self).used() && r.is_empty_log(),
    {
        proof {
            lemma_index_of(self.image_sources@, id);
        }
        if self.image_sources.get_image_source(id).is_some() && self.session.add_image_source(id) {
            AppBackendModifications::from_session(SessionModification::AddedImageSource(id))
        } else {
            AppBackendModifications::new()
        }
    }

    /// Removes a source from the next session. The log holds
    /// `RemovedImageSource` when the source was chosen.
    pub fn remove_image_source_from_session(&mut self, id: ImageSourceId) -> (r:
        AppBackendModifications)
        requires
            old(self).wf(),
        ensures
            final(self).wf(),
            final(self).catalog() == old(self).catalog(),
            final(self).used() == old(self).used().remove_value(id),
            old(self).used().contains(id) ==> r.is_single_session_change(
                SessionModification::RemovedImageSource(id),
            ),
            !old(self).used().contains(id) ==> r.is_empty_log(),
    {
        if self.session.remove_image_source(id) {
            AppBackendModifications::from_session(SessionModification::RemovedImageSource(id))
        } else {
            AppBackendModifications::new()
        }
    }

    /// The sources chosen for the next session that are still catalogued, in
    /// the order they were chosen.
    pub fn used_image_source(&self) -> (r: Vec<ImageSource>)
        ensures
            r@ == used_sources(self.catalog(), self.used()),
    {
        let used = self.session.image_source_used();
        let mut out: Vec<ImageSource> = Vec::new();
        let mut i: usize = 0;
        while i < used.len()
            invariant
                0 <= i <= used@.len(),
                used@ == self.used(),
                out@ == used_sources(self.catalog(), used@.subrange(0, i as int)),
            decreases used@.len() - i,
        {
            assert(used@.subrange(0, i + 1).drop_last() =~= used@.subrange(0, i as int));
            match self.image_sources.get_image_source(used[i]) {
                Some(source) => {
                    out.push(source.clone());
                },
                None => {},
            }
            i = i + 1;
        }
        assert(used@.subrange(0, i as int) =~= used@);
        out
    }

    /// Whether source `id` is chosen for the next session.
    pub fn is_image_source_used(&self, id: ImageSourceId) -> (r: bool)
        ensures
            r == self.used().contains(id),
    {
        self.session.is_image_source_used(id)
    }

    /// The catalogued source with identifier `id`, if any.
    pub fn get_image_source(&self, id: ImageSourceId) -> (r: Option<&ImageSource>)
        ensures
            match r {
                Some(x) => lookup(self.catalog(), id) == Some(*x),
                None => lookup(self.catalog(), id) is None,
            },
    {
        self.image_sources.get_image_source(id)
    }
}

} // verus!
