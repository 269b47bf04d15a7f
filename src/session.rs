use vstd::prelude::*;
use vstd::string::StringExecFns;
use crate::catalog::{catalog_query, field_query, search_field};
use crate::keyed::{lemma_replaced_keys, replaced_by_key};
use crate::model::{CoverartOutcome, Identified, Release};
use crate::result_set::{lemma_merge_idempotent, EnrichedEntity, ResultSet, ResultSetView, SearchResultState};
use crate::search::SearchSelection;

verus! {

/// An event for the session: a user intent, or the completion of a
/// background call, tagged with the generation of the search it belongs to.
#[derive(Debug, PartialEq, Eq)]
pub enum Message {
    InputChanged(String),
    Selection(SearchSelection),
    Search,
    SearchCompleted { generation: u64, results: SearchResultState },
    SearchFailed { generation: u64, error: String },
    CoverartFetched { generation: u64, entity: EnrichedEntity, outcome: CoverartOutcome },
}

/// Work the session asks its caller to start.
#[derive(Debug, PartialEq, Eq)]
pub enum Command {
    Nothing,
    /// Query the catalog for `kind` with the search parameter `query`; answer
    /// with `SearchCompleted` or `SearchFailed`.
    Search { generation: u64, kind: SearchSelection, query: String },
    /// Fetch the cover art of each entity, each on its own; answer each with
    /// `CoverartFetched`.
    FetchCoverart { generation: u64, entities: Vec<EnrichedEntity> },
}

/// The search intent, the result set and the bookkeeping of one session.
#[derive(Debug)]
pub struct State {
    input_value: String,
    search_kind: SearchSelection,
    search_results: ResultSet,
    generation: u64,
    notice: Option<String>,
}

/// A search session: receives events one at a time and says what to start.
#[derive(Debug)]
pub struct App {
    state: State,
}

/// What a session holds.
pub struct AppView {
    /// The query text of the search intent.
    pub input: Seq<char>,
    /// The kind of the search intent.
    pub kind: SearchSelection,
    pub results: ResultSetView,
    /// The generation of the latest search started.
    pub generation: u64,
    /// A notice for the user about the latest search, if it failed.
    pub notice: Option<Seq<char>>,
}

pub open spec fn text_view(t: Option<String>) -> Option<Seq<char>> {
    match t {
        Some(s) => Some(s@),
        None => None,
    }
}

/// The generation after `g`; it differs from `g`.
pub open spec fn next_generation(g: u64) -> u64 {
    if g == u64::MAX {
        0
    } else {
        (g + 1) as u64
    }
}

/// Whether `m` answers a background call that belongs to generation `g`.
pub open spec fn completes(m: Message, g: u64) -> bool {
    match m {
        Message::SearchCompleted { generation, .. } => generation == g,
        Message::SearchFailed { generation, .. } => generation == g,
        Message::CoverartFetched { generation, .. } => generation == g,
        _ => false,
    }
}

/// What the session holds after event `m`.
pub open spec fn step(s: AppView, m: Message) -> AppView {
    match m {
        Message::InputChanged(v) => AppView { input: v@, ..s },
        Message::Selection(k) => AppView { kind: k, ..s },
        Message::Search => AppView { generation: next_generation(s.generation), notice: None, ..s },
        Message::SearchCompleted { generation, results } => if generation == s.generation {
            AppView { results: results.installed(), ..s }
        } else {
            s
        },
        Message::SearchFailed { generation, error } => if generation == s.generation {
            AppView { results: ResultSetView::Empty, notice: Some(error@), ..s }
        } else {
            s
        },
        Message::CoverartFetched { generation, entity, outcome } => if generation == s.generation {
            match entity.enriched(outcome) {
                Some(e) => AppView { results: s.results.merged(e), ..s },
                None => s,
            }
        } else {
            s
        },
    }
}

/// What the session asks to start on event `m`, from state `s`.
pub open spec fn command_of(s: AppView, m: Message, c: Command) -> bool {
    match m {
        Message::Search => c matches Command::Search { generation, kind, query } && generation
            == next_generation(s.generation) && kind == s.kind && query@ == field_query(search_field(s.kind), s.input),
        Message::SearchCompleted { generation, results } => if generation == s.generation
            && results.kind().is_enrichable() {
            c matches Command::FetchCoverart { generation: g, entities } && g == generation
                && entities@ == results.installed().tasks()
        } else {
            c is Nothing
        },
        _ => c is Nothing,
    }
}

impl View for App {
    type V = AppView;

    closed spec fn view(&self) -> AppView {
        AppView {
            input: self.state.input_value@,
            kind: self.state.search_kind,
            results: self.state.search_results@,
            generation: self.state.generation,
            notice: text_view(self.state.notice),
        }
    }
}

fn next_generation_of(g: u64) -> (r: u64)
    ensures
        r == next_generation(g),
{
    if g == u64::MAX {
        0
    } else {
        g + 1
    }
}

impl App {
    pub open spec fn wf(&self) -> bool {
        self@.results.wf()
    }

    /// A session with an empty query of the default kind and no results.
    pub fn new() -> (r: App)
        ensures
            r@ == (AppView {
                input: Seq::empty(),
                kind: SearchSelection::Artist,
                results: ResultSetView::Empty,
                generation: 0,
                notice: None,
            }),
            r.wf(),
    {
        App {
            state: State {
                input_value: String::new(),
                search_kind: SearchSelection::default(),
                search_results: ResultSet::new(),
                generation: 0,
                notice: None,
            },
        }
    }

    pub fn title(&self) -> (r: String)
        ensures
            r@ == "Musicbrainz Browser"@,
    {
        String::from_str("Musicbrainz Browser")
    }

    /// Applies one event and says what to start.
    pub fn update(&mut self, message: Message) -> (cmd: Command)
        requires
            old(self).wf(),
        ensures
            final(self)@ == step(old(self)@, message),
            command_of(old(self)@, message, cmd),
            final(self).wf(),
    {
        match message {
            Message::InputChanged(value) => self.on_input_changed(value),
            Message::Selection(kind) => self.on_selection_changed(kind),
            Message::Search => self.on_search_selection_changed(),
            Message::SearchCompleted { generation, results } => self.on_search_completed(generation, results),
            Message::SearchFailed { generation, error } => self.on_search_failed(generation, error),
            Message::CoverartFetched { generation, entity, outcome } => self.on_coverart_fetched(
                generation,
                entity,
                outcome,
            ),
        }
    }

    /// The query text changed.
    pub fn on_input_changed(&mut self, value: String) -> (cmd: Command)
        requires
            old(self).wf(),
        ensures
            final(self)@ == step(old(self)@, Message::InputChanged(value)),
            cmd is Nothing,
            final(self).wf(),
    {
        self.state.input_value = value;
        Command::Nothing
    }

    /// The kind changed; no search is run.
    pub fn on_selection_changed(&mut self, kind: SearchSelection) -> (cmd: Command)
        requires
            old(self).wf(),
        ensures
            final(self)@ == step(old(self)@, Message::Selection(kind)),
            cmd is Nothing,
            final(self).wf(),
    {
        self.state.search_kind = kind;
        Command::Nothing
    }

    /// A search was asked for: starts a new generation, which makes every
    /// answer still outstanding stale, and asks for the catalog query built
    /// from the search intent.
    pub fn on_search_selection_changed(&mut self) -> (cmd: Command)
        requires
            old(self).wf(),
        ensures
            final(self)@ == step(old(self)@, Message::Search),
            command_of(old(self)@, Message::Search, cmd),
            final(self).wf(),
    {
        let generation = next_generation_of(self.state.generation);
        self.state.generation = generation;
        self.state.notice = None;
        let kind = self.state.search_kind;
        Command::Search { generation, kind, query: catalog_query(kind, &self.state.input_value) }
    }

    /// The catalog answered. Answers to the latest search replace the result
    /// set and, for an enrichable kind, ask for one cover-art fetch per entity.
    pub fn on_search_completed(&mut self, generation: u64, results: SearchResultState) -> (cmd: Command)
        requires
            old(self).wf(),
        ensures
            final(self)@ == step(old(self)@, Message::SearchCompleted { generation, results }),
            command_of(old(self)@, Message::SearchCompleted { generation, results }, cmd),
            final(self).wf(),
    {
        if generation != self.state.generation {
            return Command::Nothing;
        }
        let enrichable = match &results {
            SearchResultState::ArtistResult(_) => false,
            _ => true,
        };
        self.state.search_results.replace_with(results);
        if enrichable {
            Command::FetchCoverart { generation, entities: self.state.search_results.enrichment_tasks() }
        } else {
            Command::Nothing
        }
    }

    /// The catalog call failed. For the latest search, the result set is
    /// emptied and the error kept as a notice; the search intent stays.
    pub fn on_search_failed(&mut self, generation: u64, error: String) -> (cmd: Command)
        requires
            old(self).wf(),
        ensures
            final(self)@ == step(old(self)@, Message::SearchFailed { generation, error }),
            cmd is Nothing,
            final(self).wf(),
    {
        if generation == self.state.generation {
            self.state.search_results.clear();
            self.state.notice = Some(error);
        }
        Command::Nothing
    }

    /// The image service answered for one entity. For the latest search, the
    /// enriched entity is merged into the result set by identifier; a failed
    /// call leaves the entity as it was.
    pub fn on_coverart_fetched(&mut self, generation: u64, entity: EnrichedEntity, outcome: CoverartOutcome) -> (cmd: Command)
        requires
            old(self).wf(),
        ensures
            final(self)@ == step(old(self)@, Message::CoverartFetched { generation, entity, outcome }),
            cmd is Nothing,
            final(self).wf(),
    {
        if generation == self.state.generation {
            match entity.with_coverart(outcome) {
                Some(e) => {
                    self.state.search_results.merge_by_id(e);
                },
                None => {},
            }
        }
        Command::Nothing
    }

    /// The query text of the search intent.
    pub fn input_value(&self) -> (r: &String)
        ensures
            r@ == self@.input,
    {
        &self.state.input_value
    }

    /// The kind of the search intent.
    pub fn search_kind(&self) -> (r: SearchSelection)
        ensures
            r == self@.kind,
    {
        self.state.search_kind
    }

    /// The generation of the latest search started.
    pub fn generation(&self) -> (r: u64)
        ensures
            r == self@.generation,
    {
        self.state.generation
    }

    /// The notice about the latest search, if it failed.
    pub fn notice(&self) -> (r: &Option<String>)
        ensures
            text_view(*r) == self@.notice,
    {
        &self.state.notice
    }

    /// The current results, for rendering.
    pub fn results(&self) -> (r: &Option<SearchResultState>)
        ensures
            crate::result_set::view_of(*r) == self@.results,
    {
        self.state.search_results.snapshot()
    }
}

/// Once a new search has started, every answer that belongs to the one
/// before, of whatever kind, leaves the session as it is.
pub proof fn lemma_superseded_answers_ignored(s: AppView, m: Message)
    requires
        completes(m, s.generation),
    ensures
        step(step(s, Message::Search), m) == step(s, Message::Search),
{
}

/// Applying the same cover-art answer twice leaves what applying it once
/// leaves.
pub proof fn lemma_coverart_answer_idempotent(s: AppView, m: Message)
    requires
        m is CoverartFetched,
    ensures
        step(step(s, m), m) == step(s, m),
{
    if let Message::CoverartFetched { generation, entity, outcome } = m {
        if generation == s.generation {
            if let Some(e) = entity.enriched(outcome) {
                lemma_merge_idempotent(s.results, e);
            }
        }
    }
}

/// An answer of "no image" for a listed release keeps the release in its
/// place, without an image.
pub proof fn lemma_no_image_keeps_release(s: AppView, r: Release, k: int)
    requires
        s.results matches ResultSetView::Releases(v) && 0 <= k < v.len() && v[k].key() == r.key(),
        r.coverart is None,
    ensures
        step(
            s,
            Message::CoverartFetched {
                generation: s.generation,
                entity: EnrichedEntity::Release(r),
                outcome: CoverartOutcome::NoImage,
            },
        ).results matches ResultSetView::Releases(w) && w.len() == s.results->Releases_0.len()
            && w[k] == r && w[k].coverart is None,
{
    let v = s.results->Releases_0;
    lemma_replaced_keys(v, r);
    assert(replaced_by_key(v, r)[k] == r);
}

/// Artist results get no enrichment: their completion asks for no fetch, and
/// no event but the answer to a later search changes them.
pub proof fn lemma_artist_results_not_enriched(s: AppView, m: Message, c: Command)
    requires
        s.results is Artists,
    ensures
        !(m is SearchCompleted || m is SearchFailed) ==> step(s, m).results == s.results,
        (m matches Message::SearchCompleted { results, .. } && results is ArtistResult && command_of(s, m, c))
            ==> c is Nothing,
{
}

} // verus!
