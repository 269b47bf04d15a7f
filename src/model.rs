use vstd::prelude::*;

verus! {

/// An entity whose identifier, assigned by the catalog, is stable and unique
/// within one result set.
pub trait Identified: Sized {
    /// The entity's identifier.
    spec fn key(&self) -> Seq<char>;

    fn id(&self) -> (r: &String)
        ensures
            r@ == self.key(),
    ;
}

/// The result of asking the image service for an entity's cover art.
#[derive(Debug, Clone, PartialEq, Eq)]
pub enum CoverartOutcome {
    /// The image, as raw bytes.
    Image(Vec<u8>),
    /// The service answered that the entity has no image.
    NoImage,
    /// The call failed: transport error, malformed or unexpected answer.
    Failed,
}

/// The outcome that an answer of the image service stands for: `status` is
/// the HTTP status, `body` the bytes read, if reading them succeeded.
pub open spec fn outcome_of_response(status: u16, body: Option<Vec<u8>>) -> CoverartOutcome {
    if status == 404 {
        CoverartOutcome::NoImage
    } else if 200 <= status < 300 && body is Some {
        CoverartOutcome::Image(body->0)
    } else {
        CoverartOutcome::Failed
    }
}

impl CoverartOutcome {
    /// Classifies an answer of the image service: a success with its bytes is
    /// an image, "not found" means the entity has no image, anything else is a
    /// failure.
    pub fn from_response(status: u16, body: Option<Vec<u8>>) -> (r: CoverartOutcome)
        ensures
            r == outcome_of_response(status, body),
    {
        if status == 404 {
            CoverartOutcome::NoImage
        } else if 200 <= status && status < 300 {
            match body {
                Some(bytes) => CoverartOutcome::Image(bytes),
                None => CoverartOutcome::Failed,
            }
        } else {
            CoverartOutcome::Failed
        }
    }
}

/// A release as listed by the catalog, with its cover art once fetched.
#[derive(Debug, Clone, PartialEq, Eq)]
pub struct Release {
    pub id: String,
    pub title: String,
    pub disambiguation: Option<String>,
    pub coverart: Option<Vec<u8>>,
}

/// A release group as listed by the catalog, with its cover art once fetched.
#[derive(Debug, Clone, PartialEq, Eq)]
pub struct ReleaseGroup {
    pub id: String,
    pub title: String,
    pub disambiguation: Option<String>,
    pub coverart: Option<Vec<u8>>,
}

/// An artist as listed by the catalog. Artists get no cover art.
#[derive(Debug, Clone, PartialEq, Eq)]
pub struct Artist {
    pub id: String,
    pub name: String,
}

/// The entity that an enrichment produces from `e` and the image service's
/// answer: the same entity with its image on success, the entity unchanged
/// when there is no image, nothing when the call failed.
pub open spec fn release_enriched(e: Release, outcome: CoverartOutcome) -> Option<Release> {
    match outcome {
        CoverartOutcome::Image(bytes) => Some(
            Release { id: e.id, title: e.title, disambiguation: e.disambiguation, coverart: Some(bytes) },
        ),
        CoverartOutcome::NoImage => Some(e),
        CoverartOutcome::Failed => None,
    }
}

/// As [`release_enriched`], for a release group.
pub open spec fn release_group_enriched(e: ReleaseGroup, outcome: CoverartOutcome) -> Option<ReleaseGroup> {
    match outcome {
        CoverartOutcome::Image(bytes) => Some(
            ReleaseGroup { id: e.id, title: e.title, disambiguation: e.disambiguation, coverart: Some(bytes) },
        ),
        CoverartOutcome::NoImage => Some(e),
        CoverartOutcome::Failed => None,
    }
}

fn copy_text(s: &Option<String>) -> (r: Option<String>)
    ensures
        r == *s,
{
    match s {
        Some(t) => Some(t.clone()),
        None => None,
    }
}

impl Release {
    /// A release as the catalog lists it: no cover art yet.
    pub fn new(id: String, title: String, disambiguation: Option<String>) -> (r: Release)
        ensures
            r == (Release { id, title, disambiguation, coverart: None }),
    {
        Release { id, title, disambiguation, coverart: None }
    }

    /// This release without its cover art.
    pub open spec fn base(self) -> Release {
        Release { id: self.id, title: self.title, disambiguation: self.disambiguation, coverart: None }
    }

    /// A copy of this release without its cover art, as handed to an
    /// enrichment task.
    pub fn base_copy(&self) -> (r: Release)
        ensures
            r == self.base(),
    {
        Release {
            id: self.id.clone(),
            title: self.title.clone(),
            disambiguation: copy_text(&self.disambiguation),
            coverart: None,
        }
    }

    /// Applies the image service's answer to this release.
    pub fn with_coverart(self, outcome: CoverartOutcome) -> (r: Option<Release>)
        ensures
            r == release_enriched(self, outcome),
    {
        match outcome {
            CoverartOutcome::Image(bytes) => Some(
                Release {
                    id: self.id,
                    title: self.title,
                    disambiguation: self.disambiguation,
                    coverart: Some(bytes),
                },
            ),
            CoverartOutcome::NoImage => Some(self),
            CoverartOutcome::Failed => None,
        }
    }
}

impl ReleaseGroup {
    /// A release group as the catalog lists it: no cover art yet.
    pub fn new(id: String, title: String, disambiguation: Option<String>) -> (r: ReleaseGroup)
        ensures
            r == (ReleaseGroup { id, title, disambiguation, coverart: None }),
    {
        ReleaseGroup { id, title, disambiguation, coverart: None }
    }

    /// This release group without its cover art.
    pub open spec fn base(self) -> ReleaseGroup {
        ReleaseGroup { id: self.id, title: self.title, disambiguation: self.disambiguation, coverart: None }
    }

    /// A copy of this release group without its cover art, as handed to an
    /// enrichment task.
    pub fn base_copy(&self) -> (r: ReleaseGroup)
        ensures
            r == self.base(),
    {
        ReleaseGroup {
            id: self.id.clone(),
            title: self.title.clone(),
            disambiguation: copy_text(&self.disambiguation),
            coverart: None,
        }
    }

    /// Applies the image service's answer to this release group.
    pub fn with_coverart(self, outcome: CoverartOutcome) -> (r: Option<ReleaseGroup>)
        ensures
            r == release_group_enriched(self, outcome),
    {
        match outcome {
            CoverartOutcome::Image(bytes) => Some(
                ReleaseGroup {
                    id: self.id,
                    title: self.title,
                    disambiguation: self.disambiguation,
                    coverart: Some(bytes),
                },
            ),
            CoverartOutcome::NoImage => Some(self),
            CoverartOutcome::Failed => None,
        }
    }
}

impl Artist {
    pub fn new(id: String, name: String) -> (r: Artist)
        ensures
            r == (Artist { id, name }),
    {
        Artist { id, name }
    }
}

impl Identified for Release {
    open spec fn key(&self) -> Seq<char> {
        self.id@
    }

    fn id(&self) -> (r: &String) {
        &self.id
    }
}

impl Identified for ReleaseGroup {
    open spec fn key(&self) -> Seq<char> {
        self.id@
    }

    fn id(&self) -> (r: &String) {
        &self.id
    }
}

impl Identified for Artist {
    open spec fn key(&self) -> Seq<char> {
        self.id@
    }

    fn id(&self) -> (r: &String) {
        &self.id
    }
}

} // verus!
