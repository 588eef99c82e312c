//! The filter that selects the metric aggregate of one client.

use bson::Document;
use vstd::prelude::*;

verus! {

/// An ordered BSON document of `bson`.
#[verifier::external_type_specification]
#[verifier::external_body]
pub struct ExDocument(Document);

/// The entries of a document in insertion order: each key, and the text of
/// its value where the value is a string, `None` where it is of another kind.
pub uninterp spec fn document_entries(document: Document) -> Seq<(Seq<char>, Option<Seq<char>>)>;

/// Whether some entry of `entries` has the key `key`.
pub open spec fn has_key(entries: Seq<(Seq<char>, Option<Seq<char>>)>, key: Seq<char>) -> bool {
    exists|i: int| 0 <= i < entries.len() && (#[trigger] entries[i]).0 == key
}

/// The entries of the filter that selects the aggregate of `client_id`: the
/// one field `clientId`, equal to it.
pub open spec fn client_filter_entries(client_id: Seq<char>) -> Seq<(Seq<char>, Option<Seq<char>>)> {
    seq![("clientId"@, Some(client_id))]
}

/// Calls `bson::Document::new`, which makes a document without entries.
#[verifier::external_body]
fn empty_document() -> (document: Document)
    ensures
        document_entries(document) == Seq::<(Seq<char>, Option<Seq<char>>)>::empty(),
{
    Document::new()
}

/// Calls `bson::Document::insert` with a string value. Under a key that the
/// document does not hold yet, the entry is added after the others. Of a key
/// that it holds already nothing is claimed.
#[verifier::external_body]
fn insert_text(document: &mut Document, key: &str, value: &str)
    ensures
        !has_key(document_entries(*old(document)), key@) ==> document_entries(*final(document))
            == document_entries(*old(document)).push((key@, Some(value@))),
{
    document.insert(key, value);
}

/// The filter that selects the metric aggregate of `client_id`.
pub fn client_filter(client_id: &str) -> (filter: Document)
    ensures
        document_entries(filter) == client_filter_entries(client_id@),
{
    let mut filter = empty_document();
    insert_text(&mut filter, "clientId", client_id);
    proof {
        assert(document_entries(filter) =~= client_filter_entries(client_id@));
    }
    filter
}

} // verus!
