//! The stored data as the service sees it: notes, and the items a read of the
//! whole collection yields one by one.

use vstd::prelude::*;

verus! {

/// A note: a single text field, nothing else is stored or returned.
#[derive(Debug)]
pub struct Note {
    pub text: String,
}

/// One step of reading the stored collection in storage order: either a
/// document, carrying its `text` field when the document has a readable
/// string one, or a failure while advancing the read, carrying the error's
/// description.
pub enum CursorItem {
    Doc(Option<String>),
    Fault(String),
}

/// The texts of a sequence of notes, in order.
pub open spec fn note_texts(notes: Seq<Note>) -> Seq<Seq<char>> {
    notes.map_values(|n: Note| n.text@)
}

/// What reading the collection yields: the texts of the documents that carry
/// a readable string `text` field, in storage order, documents without one
/// silently skipped — unless a failure occurs, in which case the outcome is
/// the first failure's description and everything gathered so far is
/// discarded.
pub open spec fn scan(items: Seq<CursorItem>) -> Result<Seq<Seq<char>>, Seq<char>>
    decreases items.len(),
{
    if items.len() == 0 {
        Ok(Seq::empty())
    } else {
        match scan(items.drop_last()) {
            Err(m) => Err(m),
            Ok(ts) => match items.last() {
                CursorItem::Doc(Some(t)) => Ok(ts.push(t@)),
                CursorItem::Doc(None) => Ok(ts),
                CursorItem::Fault(m) => Err(m@),
            },
        }
    }
}

/// Once a prefix of the items has failed, the whole read has failed with the
/// same description: the items after the failure play no part.
pub proof fn lemma_scan_err_persists(items: Seq<CursorItem>, i: int)
    requires
        0 <= i <= items.len(),
        scan(items.take(i)) is Err,
    ensures
        scan(items) == scan(items.take(i)),
    decreases items.len() - i,
{
    if i < items.len() {
        assert(items.take(i + 1).drop_last() =~= items.take(i));
        lemma_scan_err_persists(items, i + 1);
    } else {
        assert(items.take(i) =~= items);
    }
}

} // verus!
