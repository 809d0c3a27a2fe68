//! The redirect resolver: turns an identifier into a redirect target or a
//! not-found signal with a single point lookup.

use vstd::prelude::*;
use crate::store::{MappingStore, RecordModel};

verus! {

/// Whether a string parses as an absolute URL: a function of the string
/// alone.
pub uninterp spec fn url_parse_ok(s: Seq<char>) -> bool;

/// Relies on `url::Url::parse`: parsing is deterministic, so whether a
/// string parses as an absolute URL depends on the string alone.
#[verifier::external_body]
fn destination_parses(s: &str) -> (r: bool)
    ensures
        r == url_parse_ok(s@),
{
    url::Url::parse(s).is_ok()
}

/// What resolving an identifier yields.
#[derive(Debug)]
pub enum Resolution {
    /// The stored destination URL, to redirect to.
    Redirect(String),
    /// The identifier is empty or no record carries it.
    NotFound,
    /// A record exists but its stored value does not parse as a URL: a
    /// server fault, not a not-found.
    StoredUrlInvalid,
}

/// The mathematical value of a resolution.
pub enum ResolutionModel {
    Redirect(Seq<char>),
    NotFound,
    StoredUrlInvalid,
}

impl View for Resolution {
    type V = ResolutionModel;

    open spec fn view(&self) -> ResolutionModel {
        match self {
            Resolution::Redirect(u) => ResolutionModel::Redirect(u@),
            Resolution::NotFound => ResolutionModel::NotFound,
            Resolution::StoredUrlInvalid => ResolutionModel::StoredUrlInvalid,
        }
    }
}

/// What resolving `identifier` against the mapping `m` yields: not-found for
/// an empty or unknown identifier; otherwise the stored destination URL when
/// it parses as a URL, and a server fault when it does not.
pub open spec fn resolution_of(m: Map<Seq<char>, RecordModel>, identifier: Seq<char>)
    -> ResolutionModel {
    if identifier.len() == 0 {
        ResolutionModel::NotFound
    } else if !m.contains_key(identifier) {
        ResolutionModel::NotFound
    } else if url_parse_ok(m[identifier].destination_url) {
        ResolutionModel::Redirect(m[identifier].destination_url)
    } else {
        ResolutionModel::StoredUrlInvalid
    }
}

/// The resolution a store read decides: a redirect to the stored value when
/// it parses as a URL, a server fault when it does not, and not-found when
/// no record carried the key. This is the whole redirect decision from the
/// read value onward, for use wherever the records are kept — `resolve`
/// applies it to the in-memory store, and a boundary that reads a hosted
/// key-value service hands its read result here.
pub fn resolution_from_read(read: Option<String>) -> (r: Resolution)
    ensures
        r@ == (match read {
            Some(stored) => if url_parse_ok(stored@) {
                ResolutionModel::Redirect(stored@)
            } else {
                ResolutionModel::StoredUrlInvalid
            },
            None => ResolutionModel::NotFound,
        }),
{
    match read {
        Some(stored) => {
            if destination_parses(stored.as_str()) {
                Resolution::Redirect(stored)
            } else {
                Resolution::StoredUrlInvalid
            }
        },
        None => Resolution::NotFound,
    }
}

/// Resolves `identifier`: an empty identifier is not-found without a store
/// read; otherwise exactly one point lookup is performed, and the store is
/// never written.
pub fn resolve(store: &mut MappingStore, identifier: &str) -> (r: Resolution)
    requires
        old(store).wf(),
        old(store).spec_reads() < u64::MAX,
    ensures
        final(store).wf(),
        final(store)@ == old(store)@,
        final(store).spec_writes() == old(store).spec_writes(),
        r@ == resolution_of(old(store)@, identifier@),
        identifier@.len() == 0 ==> final(store).spec_reads() == old(store).spec_reads(),
        identifier@.len() > 0 ==> final(store).spec_reads() == old(store).spec_reads() + 1,
{
    if identifier.is_empty() {
        return Resolution::NotFound;
    }
    resolution_from_read(store.get(identifier))
}

} // verus!
