use vstd::prelude::*;
use vstd::string::StringExecFns;

verus! {

/// The kind of entity a search is run against.
#[derive(Debug, Clone, Copy, PartialEq, Eq, Structural)]
pub enum SearchSelection {
    Artist,
    ReleaseGroup,
    Release,
}

impl SearchSelection {
    /// The text shown for a kind in a selection list.
    pub open spec fn label_spec(self) -> Seq<char> {
        match self {
            SearchSelection::Artist => "Artist"@,
            SearchSelection::ReleaseGroup => "Release group"@,
            SearchSelection::Release => "Release"@,
        }
    }

    /// Whether results of this kind get a cover-art enrichment phase.
    pub open spec fn is_enrichable(self) -> bool {
        self != SearchSelection::Artist
    }

    /// Every kind, in the order a selection list shows them.
    pub fn all() -> (r: [SearchSelection; 3])
        ensures
            r@ == seq![SearchSelection::Artist, SearchSelection::ReleaseGroup, SearchSelection::Release],
    {
        [SearchSelection::Artist, SearchSelection::ReleaseGroup, SearchSelection::Release]
    }

    /// The display text of this kind.
    pub fn label(&self) -> (r: String)
        ensures
            r@ == self.label_spec(),
    {
        match self {
            SearchSelection::Artist => String::from_str("Artist"),
            SearchSelection::ReleaseGroup => String::from_str("Release group"),
            SearchSelection::Release => String::from_str("Release"),
        }
    }
}

impl Default for SearchSelection {
    fn default() -> (r: SearchSelection)
        ensures
            r == SearchSelection::Artist,
    {
        SearchSelection::Artist
    }
}

} // verus!
