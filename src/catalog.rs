use vstd::prelude::*;
use musicbrainz_rs::entity::artist::ArtistSearchQuery;
use musicbrainz_rs::entity::release::ReleaseSearchQuery;
use musicbrainz_rs::entity::release_group::ReleaseGroupSearchQuery;
use crate::search::SearchSelection;

verus! {

/// A search value as a Lucene term: quoted when it holds a space.
pub open spec fn lucene_term(v: Seq<char>) -> Seq<char> {
    if v.contains(' ') {
        seq!['"'] + v + seq!['"']
    } else {
        v
    }
}

/// The catalog's search parameter for one field and value.
pub open spec fn field_query(field: Seq<char>, v: Seq<char>) -> Seq<char> {
    "query="@ + field + ":"@ + lucene_term(v)
}

/// The field that the free-text query of a search of `kind` is matched
/// against: artist names, or release titles for both release kinds.
pub open spec fn search_field(kind: SearchSelection) -> Seq<char> {
    match kind {
        SearchSelection::Artist => "artist"@,
        SearchSelection::Release => "release"@,
        SearchSelection::ReleaseGroup => "release"@,
    }
}

/// Relies on musicbrainz_rs's `ArtistSearchQuery::query_builder().artist(v).build()`,
/// generated by lucene_query_builder: `query=artist:` and the value, quoted
/// when it holds a space.
#[verifier::external_body]
fn artist_query(value: &str) -> (r: String)
    ensures
        r@ == field_query("artist"@, value@),
{
    ArtistSearchQuery::query_builder().artist(value).build()
}

/// Relies on musicbrainz_rs's `ReleaseSearchQuery::query_builder().release(v).build()`,
/// generated by lucene_query_builder: `query=release:` and the value, quoted
/// when it holds a space.
#[verifier::external_body]
fn release_query(value: &str) -> (r: String)
    ensures
        r@ == field_query("release"@, value@),
{
    ReleaseSearchQuery::query_builder().release(value).build()
}

/// Relies on musicbrainz_rs's `ReleaseGroupSearchQuery::query_builder().release(v).build()`,
/// generated by lucene_query_builder: `query=release:` and the value, quoted
/// when it holds a space.
#[verifier::external_body]
fn release_group_query(value: &str) -> (r: String)
    ensures
        r@ == field_query("release"@, value@),
{
    ReleaseGroupSearchQuery::query_builder().release(value).build()
}

/// The search parameter that the catalog is queried with for `input` under
/// `kind`.
pub fn catalog_query(kind: SearchSelection, input: &String) -> (r: String)
    ensures
        r@ == field_query(search_field(kind), input@),
{
    match kind {
        SearchSelection::Artist => artist_query(input.as_str()),
        SearchSelection::Release => release_query(input.as_str()),
        SearchSelection::ReleaseGroup => release_group_query(input.as_str()),
    }
}

} // verus!
