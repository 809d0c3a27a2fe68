//! The guarantees that relate creation and resolution, stated over the
//! mapping model that the executable contracts use.

use vstd::prelude::*;
use crate::identifier::{lemma_identifier_well_formed, spec_identifier};
use crate::resolve::{resolution_of, url_parse_ok, ResolutionModel};
use crate::store::RecordModel;

verus! {

/// Round trip: creating a mapping for a non-empty destination URL and then
/// resolving the identifier it was filed under — with no intervening write
/// to that identifier — yields a redirect to exactly that URL whenever the
/// stored string parses as a URL, and a server fault when it does not.
pub proof fn lemma_create_then_resolve(
    m: Map<Seq<char>, RecordModel>,
    destination_url: Seq<char>,
    created_by: Seq<char>,
    timestamp_ms: u64,
)
    requires
        destination_url.len() > 0,
    ensures
        ({
            let id = spec_identifier(timestamp_ms);
            let record = (RecordModel {
                destination_url,
                created_by,
                created_at_ms: timestamp_ms,
            });
            let written = m.insert(id, record);
            &&& url_parse_ok(destination_url) ==> resolution_of(written, id)
                == ResolutionModel::Redirect(destination_url)
            &&& !url_parse_ok(destination_url) ==> resolution_of(written, id)
                == ResolutionModel::StoredUrlInvalid
        }),
{
    lemma_identifier_well_formed(timestamp_ms);
}

/// An identifier that was never written resolves to not-found.
pub proof fn lemma_unknown_identifier_not_found(
    m: Map<Seq<char>, RecordModel>,
    identifier: Seq<char>,
)
    requires
        !m.contains_key(identifier),
    ensures
        resolution_of(m, identifier) == ResolutionModel::NotFound,
{
}

/// Two creations whose underlying millisecond timestamp is identical file
/// their records under the same identifier, so the second write overwrites
/// the first and every later resolution sees only the second record: the
/// accepted collision weakness of the identifier scheme.
pub proof fn lemma_identical_timestamp_overwrites(
    m: Map<Seq<char>, RecordModel>,
    timestamp_ms: u64,
    first: RecordModel,
    second: RecordModel,
)
    ensures
        ({
            let id = spec_identifier(timestamp_ms);
            &&& m.insert(id, first).insert(id, second) == m.insert(id, second)
            &&& resolution_of(m.insert(id, first).insert(id, second), id) == resolution_of(
                m.insert(id, second),
                id,
            )
        }),
{
    let id = spec_identifier(timestamp_ms);
    assert(m.insert(id, first).insert(id, second) =~= m.insert(id, second));
}

} // verus!
