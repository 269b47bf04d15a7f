use vstd::prelude::*;
use crate::keyed::{
    dedup_by_key, first_by_key, has_key, lemma_first_by_key_unique, lemma_replace_idempotent,
    lemma_replaced_all_permutation, replace_by_key, replaced_all, replaced_by_key, unique_keys,
};
use crate::model::{
    release_enriched, release_group_enriched, Artist, CoverartOutcome, Identified, Release, ReleaseGroup,
};
use crate::search::SearchSelection;

verus! {

/// The entities a search returned, tagged by the kind searched for.
#[derive(Debug, PartialEq, Eq)]
pub enum SearchResultState {
    ArtistResult(Vec<Artist>),
    ReleaseResult(Vec<Release>),
    ReleaseGroupResult(Vec<ReleaseGroup>),
}

/// An entity of an enrichable kind, as an enrichment task carries it.
#[derive(Debug, Clone, PartialEq, Eq)]
pub enum EnrichedEntity {
    Release(Release),
    ReleaseGroup(ReleaseGroup),
}

/// What a result set holds.
pub enum ResultSetView {
    Empty,
    Artists(Seq<Artist>),
    Releases(Seq<Release>),
    ReleaseGroups(Seq<ReleaseGroup>),
}

impl SearchResultState {
    pub open spec fn kind(self) -> SearchSelection {
        match self {
            SearchResultState::ArtistResult(_) => SearchSelection::Artist,
            SearchResultState::ReleaseResult(_) => SearchSelection::Release,
            SearchResultState::ReleaseGroupResult(_) => SearchSelection::ReleaseGroup,
        }
    }

    /// What a result set holds once these results are installed: the list in
    /// order, each identifier at its first occurrence only.
    pub open spec fn installed(self) -> ResultSetView {
        match self {
            SearchResultState::ArtistResult(v) => ResultSetView::Artists(first_by_key(v@)),
            SearchResultState::ReleaseResult(v) => ResultSetView::Releases(first_by_key(v@)),
            SearchResultState::ReleaseGroupResult(v) => ResultSetView::ReleaseGroups(first_by_key(v@)),
        }
    }
}

/// What a result set holds when its contents are `results`.
pub open spec fn view_of(results: Option<SearchResultState>) -> ResultSetView {
    match results {
        None => ResultSetView::Empty,
        Some(SearchResultState::ArtistResult(v)) => ResultSetView::Artists(v@),
        Some(SearchResultState::ReleaseResult(v)) => ResultSetView::Releases(v@),
        Some(SearchResultState::ReleaseGroupResult(v)) => ResultSetView::ReleaseGroups(v@),
    }
}

impl EnrichedEntity {
    pub open spec fn kind(self) -> SearchSelection {
        match self {
            EnrichedEntity::Release(_) => SearchSelection::Release,
            EnrichedEntity::ReleaseGroup(_) => SearchSelection::ReleaseGroup,
        }
    }

    pub open spec fn key(self) -> Seq<char> {
        match self {
            EnrichedEntity::Release(r) => r.key(),
            EnrichedEntity::ReleaseGroup(g) => g.key(),
        }
    }

    /// The entity that the image service's answer turns this one into, if any.
    pub open spec fn enriched(self, outcome: CoverartOutcome) -> Option<EnrichedEntity> {
        match self {
            EnrichedEntity::Release(r) => match release_enriched(r, outcome) {
                Some(x) => Some(EnrichedEntity::Release(x)),
                None => None,
            },
            EnrichedEntity::ReleaseGroup(g) => match release_group_enriched(g, outcome) {
                Some(x) => Some(EnrichedEntity::ReleaseGroup(x)),
                None => None,
            },
        }
    }

    pub fn id(&self) -> (r: &String)
        ensures
            r@ == self.key(),
    {
        match self {
            EnrichedEntity::Release(r) => r.id(),
            EnrichedEntity::ReleaseGroup(g) => g.id(),
        }
    }

    /// Applies the image service's answer: the entity with its image, the
    /// entity unchanged when it has none, nothing when the call failed.
    pub fn with_coverart(self, outcome: CoverartOutcome) -> (r: Option<EnrichedEntity>)
        ensures
            r == self.enriched(outcome),
    {
        match self {
            EnrichedEntity::Release(r) => match r.with_coverart(outcome) {
                Some(x) => Some(EnrichedEntity::Release(x)),
                None => None,
            },
            EnrichedEntity::ReleaseGroup(g) => match g.with_coverart(outcome) {
                Some(x) => Some(EnrichedEntity::ReleaseGroup(x)),
                None => None,
            },
        }
    }
}

impl ResultSetView {
    /// The kind of the live list, if there is one.
    pub open spec fn kind(self) -> Option<SearchSelection> {
        match self {
            ResultSetView::Empty => None,
            ResultSetView::Artists(_) => Some(SearchSelection::Artist),
            ResultSetView::Releases(_) => Some(SearchSelection::Release),
            ResultSetView::ReleaseGroups(_) => Some(SearchSelection::ReleaseGroup),
        }
    }

    /// No two entities of the live list share an identifier.
    pub open spec fn wf(self) -> bool {
        match self {
            ResultSetView::Empty => true,
            ResultSetView::Artists(v) => unique_keys(v),
            ResultSetView::Releases(v) => unique_keys(v),
            ResultSetView::ReleaseGroups(v) => unique_keys(v),
        }
    }

    /// Whether the live list is of `e`'s kind and holds an entity with
    /// `e`'s identifier.
    pub open spec fn holds_key_of(self, e: EnrichedEntity) -> bool {
        match (self, e) {
            (ResultSetView::Releases(v), EnrichedEntity::Release(r)) => has_key(v, r.key()),
            (ResultSetView::ReleaseGroups(v), EnrichedEntity::ReleaseGroup(g)) => has_key(v, g.key()),
            _ => false,
        }
    }

    /// The result set after merging `e`: where the live list is of `e`'s kind,
    /// the entity with `e`'s identifier is replaced by `e` in its place;
    /// otherwise nothing changes.
    pub open spec fn merged(self, e: EnrichedEntity) -> ResultSetView {
        match (self, e) {
            (ResultSetView::Releases(v), EnrichedEntity::Release(r)) => ResultSetView::Releases(
                replaced_by_key(v, r),
            ),
            (ResultSetView::ReleaseGroups(v), EnrichedEntity::ReleaseGroup(g)) => ResultSetView::ReleaseGroups(
                replaced_by_key(v, g),
            ),
            _ => self,
        }
    }

    /// The result set after merging each entity of `es`, in order.
    pub open spec fn merged_all(self, es: Seq<EnrichedEntity>) -> ResultSetView
        decreases es.len(),
    {
        if es.len() == 0 {
            self
        } else {
            self.merged_all(es.drop_last()).merged(es.last())
        }
    }

    /// One enrichment task per entity of the live list, in order, each
    /// carrying the entity without cover art; none for artists.
    pub open spec fn tasks(self) -> Seq<EnrichedEntity> {
        match self {
            ResultSetView::Releases(v) => v.map_values(|r: Release| EnrichedEntity::Release(r.base())),
            ResultSetView::ReleaseGroups(v) => v.map_values(
                |g: ReleaseGroup| EnrichedEntity::ReleaseGroup(g.base()),
            ),
            _ => Seq::empty(),
        }
    }
}

/// The results of the current search, if any, for exactly one kind at a
/// time.
#[derive(Debug)]
pub struct ResultSet {
    results: Option<SearchResultState>,
}

impl View for ResultSet {
    type V = ResultSetView;

    closed spec fn view(&self) -> ResultSetView {
        view_of(self.results)
    }
}

impl ResultSet {
    pub open spec fn wf(&self) -> bool {
        self@.wf()
    }

    pub fn new() -> (r: ResultSet)
        ensures
            r@ == ResultSetView::Empty,
    {
        ResultSet { results: None }
    }

    /// Discards whatever was held and installs `results`, keeping the first
    /// entity of each identifier.
    pub fn replace_with(&mut self, results: SearchResultState)
        ensures
            final(self)@ == results.installed(),
            final(self).wf(),
    {
        let installed = match results {
            SearchResultState::ArtistResult(v) => SearchResultState::ArtistResult(dedup_by_key(v)),
            SearchResultState::ReleaseResult(v) => SearchResultState::ReleaseResult(dedup_by_key(v)),
            SearchResultState::ReleaseGroupResult(v) => SearchResultState::ReleaseGroupResult(
                dedup_by_key(v),
            ),
        };
        self.results = Some(installed);
    }

    /// Discards whatever was held.
    pub fn clear(&mut self)
        ensures
            final(self)@ == ResultSetView::Empty,
    {
        self.results = None;
    }

    /// Replaces the entity with `entity`'s identifier by `entity`, where the
    /// live list is of its kind and holds one; otherwise does nothing. Returns
    /// whether it replaced one.
    pub fn merge_by_id(&mut self, entity: EnrichedEntity) -> (merged: bool)
        requires
            old(self).wf(),
        ensures
            final(self)@ == old(self)@.merged(entity),
            merged == old(self)@.holds_key_of(entity),
            final(self).wf(),
    {
        match (&mut self.results, entity) {
            (Some(SearchResultState::ReleaseResult(v)), EnrichedEntity::Release(r)) => replace_by_key(v, r),
            (Some(SearchResultState::ReleaseGroupResult(v)), EnrichedEntity::ReleaseGroup(g)) => {
                replace_by_key(v, g)
            },
            _ => false,
        }
    }

    /// The current contents, for rendering.
    pub fn snapshot(&self) -> (r: &Option<SearchResultState>)
        ensures
            view_of(*r) == self@,
    {
        &self.results
    }

    /// One enrichment task per held entity of an enrichable kind, in list
    /// order, each carrying the entity without its cover art.
    pub fn enrichment_tasks(&self) -> (r: Vec<EnrichedEntity>)
        ensures
            r@ == self@.tasks(),
    {
        let mut out: Vec<EnrichedEntity> = Vec::new();
        match &self.results {
            Some(SearchResultState::ReleaseResult(v)) => {
                let mut i: usize = 0;
                while i < v.len()
                    invariant
                        i <= v.len(),
                        out@ =~= v@.subrange(0, i as int).map_values(
                            |r: Release| EnrichedEntity::Release(r.base()),
                        ),
                    decreases v.len() - i,
                {
                    out.push(EnrichedEntity::Release(v[i].base_copy()));
                    i = i + 1;
                }
                assert(v@.subrange(0, v.len() as int) =~= v@);
            },
            Some(SearchResultState::ReleaseGroupResult(v)) => {
                let mut i: usize = 0;
                while i < v.len()
                    invariant
                        i <= v.len(),
                        out@ =~= v@.subrange(0, i as int).map_values(
                            |g: ReleaseGroup| EnrichedEntity::ReleaseGroup(g.base()),
                        ),
                    decreases v.len() - i,
                {
                    out.push(EnrichedEntity::ReleaseGroup(v[i].base_copy()));
                    i = i + 1;
                }
                assert(v@.subrange(0, v.len() as int) =~= v@);
            },
            _ => {},
        }
        out
    }
}

/// Installing results never leaves two entities with the same identifier.
pub proof fn lemma_installed_unique_ids(results: SearchResultState)
    ensures
        results.installed().wf(),
{
    match results {
        SearchResultState::ArtistResult(v) => lemma_first_by_key_unique(v@),
        SearchResultState::ReleaseResult(v) => lemma_first_by_key_unique(v@),
        SearchResultState::ReleaseGroupResult(v) => lemma_first_by_key_unique(v@),
    }
}

/// Merging the same enriched entity twice leaves what merging it once
/// leaves.
pub proof fn lemma_merge_idempotent(s: ResultSetView, e: EnrichedEntity)
    ensures
        s.merged(e).merged(e) == s.merged(e),
{
    match (s, e) {
        (ResultSetView::Releases(v), EnrichedEntity::Release(r)) => lemma_replace_idempotent(v, r),
        (ResultSetView::ReleaseGroups(v), EnrichedEntity::ReleaseGroup(g)) => lemma_replace_idempotent(v, g),
        _ => {},
    }
}

/// A merge of one kind that arrives after results of another kind were
/// installed changes nothing.
pub proof fn lemma_stale_merge_is_noop(results: SearchResultState, e: EnrichedEntity)
    requires
        e.kind() != results.kind(),
    ensures
        results.installed().merged(e) == results.installed(),
        !results.installed().holds_key_of(e),
{
}

proof fn lemma_merged_all_releases(s: ResultSetView, es: Seq<Release>)
    ensures
        s.merged_all(es.map_values(|r: Release| EnrichedEntity::Release(r))) == match s {
            ResultSetView::Releases(v) => ResultSetView::Releases(replaced_all(v, es)),
            _ => s,
        },
    decreases es.len(),
{
    if es.len() > 0 {
        let m = es.map_values(|r: Release| EnrichedEntity::Release(r));
        assert(m.drop_last() =~= es.drop_last().map_values(|r: Release| EnrichedEntity::Release(r)));
        lemma_merged_all_releases(s, es.drop_last());
    }
}

proof fn lemma_merged_all_release_groups(s: ResultSetView, es: Seq<ReleaseGroup>)
    ensures
        s.merged_all(es.map_values(|g: ReleaseGroup| EnrichedEntity::ReleaseGroup(g))) == match s {
            ResultSetView::ReleaseGroups(v) => ResultSetView::ReleaseGroups(replaced_all(v, es)),
            _ => s,
        },
    decreases es.len(),
{
    if es.len() > 0 {
        let m = es.map_values(|g: ReleaseGroup| EnrichedEntity::ReleaseGroup(g));
        assert(m.drop_last() =~= es.drop_last().map_values(|g: ReleaseGroup| EnrichedEntity::ReleaseGroup(g)));
        lemma_merged_all_release_groups(s, es.drop_last());
    }
}

/// Enriched releases of one search, one per identifier, give the same result
/// set in whatever order they are merged.
pub proof fn lemma_release_merges_any_order(s: ResultSetView, es1: Seq<Release>, es2: Seq<Release>)
    requires
        unique_keys(es1),
        es1.to_multiset() == es2.to_multiset(),
        unique_keys(es2),
    ensures
        s.merged_all(es1.map_values(|r: Release| EnrichedEntity::Release(r))) == s.merged_all(
            es2.map_values(|r: Release| EnrichedEntity::Release(r)),
        ),
{
    lemma_merged_all_releases(s, es1);
    lemma_merged_all_releases(s, es2);
    if let ResultSetView::Releases(v) = s {
        lemma_replaced_all_permutation(v, es1, es2);
    }
}

/// Enriched release groups of one search, one per identifier, give the same
/// result set in whatever order they are merged.
pub proof fn lemma_release_group_merges_any_order(
    s: ResultSetView,
    es1: Seq<ReleaseGroup>,
    es2: Seq<ReleaseGroup>,
)
    requires
        unique_keys(es1),
        es1.to_multiset() == es2.to_multiset(),
        unique_keys(es2),
    ensures
        s.merged_all(es1.map_values(|g: ReleaseGroup| EnrichedEntity::ReleaseGroup(g))) == s.merged_all(
            es2.map_values(|g: ReleaseGroup| EnrichedEntity::ReleaseGroup(g)),
        ),
{
    lemma_merged_all_release_groups(s, es1);
    lemma_merged_all_release_groups(s, es2);
    if let ResultSetView::ReleaseGroups(v) = s {
        lemma_replaced_all_permutation(v, es1, es2);
    }
}

} // verus!
