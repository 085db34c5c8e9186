//! The JSON API's index: the staged drafts, for the administrator only.
use vstd::prelude::*;
use crate::drafts::{summarizes, DraftStore, IndexResponse};
use crate::session::Session;

verus! {

/// The answer of the API's index.
pub enum ApiIndex {
    /// The staged drafts.
    Drafts(IndexResponse),
    /// The session is not logged in.
    Unauthorized,
}

/// A logged-in session sees the full-size and thumbnail file of each staged
/// draft, in staging order; any other is told it is unauthorized.
pub fn index_api(session: &Session, drafts: &DraftStore) -> (r: ApiIndex)
    ensures
        r is Drafts <==> session.logged_in,
        r is Drafts ==> summarizes(r->Drafts_0, drafts@),
{
    if session.logged_in {
        ApiIndex::Drafts(drafts.summaries())
    } else {
        ApiIndex::Unauthorized
    }
}

} // verus!
