//! Image sources: their identifiers, their last validation result, and the
//! folder kind, the one kind of source there is today.

use vstd::prelude::*;

verus! {

/// Stable identifier of an image source: the 128 bits of a UUID.
#[derive(Clone, Copy, Debug, PartialEq, Eq, Hash, Structural)]
pub struct ImageSourceId {
    pub value: u128,
}

impl ImageSourceId {
    pub fn new(value: u128) -> (r: Self)
        ensures
            r.value == value,
    {
        ImageSourceId { value }
    }

    pub fn value(&self) -> (r: u128)
        ensures
            r == self.value,
    {
        self.value
    }
}

/// Outcome of the last validation of a source.
#[derive(Debug)]
pub enum ImageSourceStatus {
    Unknown,
    Valid,
    Error(String),
}

impl Clone for ImageSourceStatus {
    fn clone(&self) -> (r: Self)
        ensures
            r == *self,
    {
        match self {
            ImageSourceStatus::Unknown => ImageSourceStatus::Unknown,
            ImageSourceStatus::Valid => ImageSourceStatus::Valid,
            ImageSourceStatus::Error(message) => ImageSourceStatus::Error(message.clone()),
        }
    }
}

impl Default for ImageSourceStatus {
    fn default() -> (r: Self)
        ensures
            r is Unknown,
    {
        ImageSourceStatus::Unknown
    }
}

/// The last validation result of a source: how many images it held and
/// whether the scan succeeded.
#[derive(Debug)]
pub struct ImageSourceCheck {
    pub image_count: usize,
    pub status: ImageSourceStatus,
}

impl Clone for ImageSourceCheck {
    fn clone(&self) -> (r: Self)
        ensures
            r == *self,
    {
        ImageSourceCheck { image_count: self.image_count, status: self.status.clone() }
    }
}

impl Default for ImageSourceCheck {
    /// A source that was never checked.
    fn default() -> (r: Self)
        ensures
            r.image_count == 0,
            r.status is Unknown,
    {
        ImageSourceCheck { image_count: 0, status: ImageSourceStatus::Unknown }
    }
}

impl ImageSourceCheck {
    /// The number of images the draw may pick from: the count when the last
    /// check succeeded, and zero otherwise.
    pub open spec fn usable_count(&self) -> nat {
        if self.status is Valid {
            self.image_count as nat
        } else {
            0
        }
    }

    pub fn new(image_count: usize, status: ImageSourceStatus) -> (r: Self)
        ensures
            r.image_count == image_count,
            r.status == status,
    {
        ImageSourceCheck { image_count, status }
    }

    pub fn image_count(&self) -> (r: usize)
        ensures
            r == self.image_count,
    {
        self.image_count
    }

    pub fn status(&self) -> (r: &ImageSourceStatus)
        ensures
            *r == self.status,
    {
        &self.status
    }

    pub fn usable_image_count(&self) -> (r: usize)
        ensures
            r == self.usable_count(),
    {
        match self.status {
            ImageSourceStatus::Valid => self.image_count,
            _ => 0,
        }
    }

    /// The check that a scan of a source yields: `Valid` with the number of
    /// image files found, or `Error` with the scan's message.
    pub fn from_scan(scan: Result<usize, String>) -> (r: Self)
        ensures
            match scan {
                Ok(count) => r.image_count == count && r.status is Valid,
                Err(message) => r.image_count == 0 && r.status == ImageSourceStatus::Error(
                    message,
                ),
            },
    {
        match scan {
            Ok(count) => ImageSourceCheck { image_count: count, status: ImageSourceStatus::Valid },
            Err(message) => ImageSourceCheck {
                image_count: 0,
                status: ImageSourceStatus::Error(message),
            },
        }
    }
}

/// A folder whose image files, searched recursively, make up the source.
#[derive(Debug)]
pub struct ImageSourceFolder {
    pub id: ImageSourceId,
    pub name: String,
    pub path: String,
    pub check: ImageSourceCheck,
}

impl Clone for ImageSourceFolder {
    fn clone(&self) -> (r: Self)
        ensures
            r == *self,
    {
        ImageSourceFolder {
            id: self.id,
            name: self.name.clone(),
            path: self.path.clone(),
            check: self.check.clone(),
        }
    }
}

impl ImageSourceFolder {
    pub fn new(id: ImageSourceId, name: String, path: String, check: ImageSourceCheck) -> (r: Self)
        ensures
            r.id == id,
            r.name == name,
            r.path == path,
            r.check == check,
    {
        ImageSourceFolder { id, name, path, check }
    }
}

/// A configured provider of images.
#[derive(Debug)]
pub enum ImageSource {
    Folder(ImageSourceFolder),
}

impl Clone for ImageSource {
    fn clone(&self) -> (r: Self)
        ensures
            r == *self,
    {
        match self {
            ImageSource::Folder(folder) => ImageSource::Folder(folder.clone()),
        }
    }
}

impl ImageSource {
    pub open spec fn spec_id(&self) -> ImageSourceId {
        match self {
            ImageSource::Folder(folder) => folder.id,
        }
    }

    pub open spec fn spec_name(&self) -> String {
        match self {
            ImageSource::Folder(folder) => folder.name,
        }
    }

    pub open spec fn spec_locator(&self) -> String {
        match self {
            ImageSource::Folder(folder) => folder.path,
        }
    }

    pub open spec fn spec_check(&self) -> ImageSourceCheck {
        match self {
            ImageSource::Folder(folder) => folder.check,
        }
    }

    /// The same source with its name and locator replaced.
    pub open spec fn renamed(&self, name: String, locator: String) -> ImageSource {
        match self {
            ImageSource::Folder(folder) => ImageSource::Folder(
                ImageSourceFolder { name, path: locator, ..*folder },
            ),
        }
    }

    /// The same source with its check replaced.
    pub open spec fn checked(&self, check: ImageSourceCheck) -> ImageSource {
        match self {
            ImageSource::Folder(folder) => ImageSource::Folder(ImageSourceFolder { check, ..*folder }),
        }
    }

    pub fn id(&self) -> (r: ImageSourceId)
        ensures
            r == self.spec_id(),
    {
        match self {
            ImageSource::Folder(folder) => folder.id,
        }
    }

    pub fn name(&self) -> (r: &String)
        ensures
            *r == self.spec_name(),
    {
        match self {
            ImageSource::Folder(folder) => &folder.name,
        }
    }

    /// Where the images are found: for a folder, its path.
    pub fn locator(&self) -> (r: &String)
        ensures
            *r == self.spec_locator(),
    {
        match self {
            ImageSource::Folder(folder) => &folder.path,
        }
    }

    pub fn check(&self) -> (r: &ImageSourceCheck)
        ensures
            *r == self.spec_check(),
    {
        match self {
            ImageSource::Folder(folder) => &folder.check,
        }
    }

    pub fn set_check(&mut self, check: ImageSourceCheck)
        ensures
            *final(self) == old(self).checked(check),
    {
        match self {
            ImageSource::Folder(folder) => {
                folder.check = check;
            },
        }
    }

    pub fn set_name_and_locator(&mut self, name: String, locator: String)
        ensures
            *final(self) == old(self).renamed(name, locator),
    {
        match self {
            ImageSource::Folder(folder) => {
                folder.name = name;
                folder.path = locator;
            },
        }
    }
}

/// The file at position `index` of a source's listing, or `None` when the
/// listing holds no such position.
pub fn image_path_at(listing: &Vec<String>, index: usize) -> (r: Option<String>)
    ensures
        index < listing@.len() ==> r == Some(listing@[index as int]),
        index >= listing@.len() ==> r is None,
{
    if index < listing.len() {
        Some(listing[index].clone())
    } else {
        None
    }
}

} // verus!
