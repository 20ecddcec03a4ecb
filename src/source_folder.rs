//! The folder editor's state: the path being edited, and the counter that
//! tags each request for a picked path so that only the latest answer counts.

use vstd::prelude::*;

verus! {

/// The counter value after `id`; it wraps around as an atomic counter does.
pub open spec fn next_request_id(id: isize) -> isize {
    if id == isize::MAX {
        isize::MIN
    } else {
        (id + 1) as isize
    }
}

pub struct AppSourceFolder {
    request_ask_path_id: isize,
    currently_edited_path: Option<String>,
}

impl AppSourceFolder {
    /// The identifier the next path request will get.
    pub closed spec fn next_id(&self) -> isize {
        self.request_ask_path_id
    }

    /// The path currently edited, if any.
    pub closed spec fn edited(&self) -> Option<String> {
        self.currently_edited_path
    }

    pub fn new() -> (r: Self)
        ensures
            r.next_id() == 0,
            r.edited() is None,
    {
        AppSourceFolder { request_ask_path_id: 0, currently_edited_path: None }
    }

    /// Hands out the identifier of a new path request, superseding every
    /// earlier one.
    pub fn next_request_ask_path_id(&mut self) -> (r: isize)
        ensures
            r == old(self).next_id(),
            final(self).next_id() == next_request_id(old(self).next_id()),
            final(self).edited() == old(self).edited(),
    {
        let id = self.request_ask_path_id;
        self.request_ask_path_id = if id == isize::MAX {
            isize::MIN
        } else {
            id + 1
        };
        id
    }

    /// Whether `id` names the latest path request.
    pub open spec fn is_latest(&self, id: isize) -> bool {
        next_request_id(id) == self.next_id()
    }

    /// Takes the path picked for request `id`: it becomes the edited path only
    /// when `id` is the latest request; returns whether it did.
    pub fn complete_request_ask_path(&mut self, id: isize, path: String) -> (r: bool)
        ensures
            r == old(self).is_latest(id),
            final(self).next_id() == old(self).next_id(),
            r ==> final(self).edited() == Some(path),
            !r ==> final(self).edited() == old(self).edited(),
    {
        let next = if id == isize::MAX {
            isize::MIN
        } else {
            id + 1
        };
        if next == self.request_ask_path_id {
            self.currently_edited_path = Some(path);
            true
        } else {
            false
        }
    }

    pub fn set_edited_path(&mut self, path: String)
        ensures
            final(self).edited() == Some(path),
            final(self).next_id() == old(self).next_id(),
    {
        self.currently_edited_path = Some(path);
    }

    pub fn clear_edited_path(&mut self)
        ensures
            final(self).edited() is None,
            final(self).next_id() == old(self).next_id(),
    {
        self.currently_edited_path = None;
    }

    pub fn edited_path(&self) -> (r: Option<&String>)
        ensures
            match self.edited() {
                Some(p) => r == Some(&p),
                None => r is None,
            },
    {
        match &self.currently_edited_path {
            Some(p) => Some(p),
            None => None,
        }
    }
}

} // verus!
