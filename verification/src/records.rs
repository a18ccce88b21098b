//! Plain records exchanged with the front end.
use vstd::prelude::*;

verus! {

/// Size, position and mode of the main window.
#[derive(Clone, Copy, Debug, PartialEq, Eq)]
pub struct WindowState {
    pub width: u32,
    pub height: u32,
    pub x: i32,
    pub y: i32,
    pub maximized: bool,
    pub fullscreen: bool,
}

/// Progress of a batch of thumbnails.
#[derive(Clone, Copy, Debug, PartialEq, Eq)]
pub struct ThumbnailProgressTracker {
    pub total: usize,
    pub completed: usize,
}

/// The place a photo was taken, as reverse geocoding names it.
#[derive(Clone, Debug, PartialEq, Eq)]
pub struct GeoLocationResult {
    path: String,
    name: String,
    admin1: String,
    admin2: String,
    country_code: String,
}

impl GeoLocationResult {
    /// The photo's path.
    pub closed spec fn path_spec(self) -> Seq<char> {
        self.path@
    }

    /// The place name.
    pub closed spec fn name_spec(self) -> Seq<char> {
        self.name@
    }

    /// The first-level administrative area.
    pub closed spec fn admin1_spec(self) -> Seq<char> {
        self.admin1@
    }

    /// The second-level administrative area.
    pub closed spec fn admin2_spec(self) -> Seq<char> {
        self.admin2@
    }

    /// The country code.
    pub closed spec fn country_code_spec(self) -> Seq<char> {
        self.country_code@
    }

    /// The location of the photo at `path`.
    pub fn new(path: String, name: String, admin1: String, admin2: String, country_code: String) -> (r:
        Self)
        ensures
            r.path_spec() == path@,
            r.name_spec() == name@,
            r.admin1_spec() == admin1@,
            r.admin2_spec() == admin2@,
            r.country_code_spec() == country_code@,
    {
        GeoLocationResult { path, name, admin1, admin2, country_code }
    }

    /// The photo's path.
    pub fn path(&self) -> (s: &str)
        ensures
            s@ == self.path_spec(),
    {
        self.path.as_str()
    }

    /// The place name.
    pub fn name(&self) -> (s: &str)
        ensures
            s@ == self.name_spec(),
    {
        self.name.as_str()
    }

    /// The first-level administrative area.
    pub fn admin1(&self) -> (s: &str)
        ensures
            s@ == self.admin1_spec(),
    {
        self.admin1.as_str()
    }

    /// The second-level administrative area.
    pub fn admin2(&self) -> (s: &str)
        ensures
            s@ == self.admin2_spec(),
    {
        self.admin2.as_str()
    }

    /// The country code.
    pub fn country_code(&self) -> (s: &str)
        ensures
            s@ == self.country_code_spec(),
    {
        self.country_code.as_str()
    }
}

} // verus!
