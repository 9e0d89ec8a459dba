//! Properties that relate the routes to one another, stated over the same
//! spec functions the handlers' contracts use.

use vstd::prelude::*;
use crate::handlers::{cursor_error_body, find_error_body, insert_error_body};
use crate::json::spec_notes_json;
use crate::notes::{CursorItem, scan};

verus! {

/// Creating a note and then listing: when the stored items read back cleanly,
/// appending a document that carries the new text makes the listing read back
/// cleanly too, as the old texts with the new text at the end — in particular
/// the listing now includes the new text.
pub proof fn law_create_then_list(text: String, items: Seq<CursorItem>)
    requires
        scan(items) is Ok,
    ensures
        ({
            let after = items.push(CursorItem::Doc(Some(text)));
            &&& scan(after) is Ok
            &&& scan(after)->Ok_0 == scan(items)->Ok_0.push(text@)
            &&& scan(after)->Ok_0.contains(text@)
        }),
{
    let after = items.push(CursorItem::Doc(Some(text)));
    assert(after.drop_last() =~= items);
    let ts = scan(after)->Ok_0;
    assert(ts[ts.len() - 1] == text@);
}

/// Listing an empty collection: the read yields no texts, and the body they
/// render to is the empty JSON array.
pub proof fn law_list_empty()
    ensures
        scan(Seq::<CursorItem>::empty()) == Ok::<Seq<Seq<char>>, Seq<char>>(
            Seq::<Seq<char>>::empty(),
        ),
        spec_notes_json(Seq::<Seq<char>>::empty()) == "[]"@,
{
    reveal_strlit("[]");
    assert(spec_notes_json(Seq::<Seq<char>>::empty()) =~= "[]"@);
}

/// Listing is a pure function of the stored items: two reads over the same
/// items, with no write in between, yield the same outcome, and equal
/// outcomes render as the same body.
pub proof fn law_list_idempotent(items1: Seq<CursorItem>, items2: Seq<CursorItem>)
    requires
        items1 == items2,
    ensures
        scan(items1) == scan(items2),
        scan(items1) is Ok ==> spec_notes_json(scan(items1)->Ok_0) == spec_notes_json(
            scan(items2)->Ok_0,
        ),
{
}

/// Posting a sequence of texts and then listing once: a collection holding
/// exactly those texts' documents, in insertion order, lists as exactly those
/// texts in the same order — in particular, as many entries as texts posted.
pub proof fn law_round_trip(texts: Seq<String>)
    ensures
        ({
            let items = texts.map_values(|t: String| CursorItem::Doc(Some(t)));
            &&& scan(items) is Ok
            &&& scan(items)->Ok_0 == texts.map_values(|t: String| t@)
            &&& scan(items)->Ok_0.len() == texts.len()
        }),
    decreases texts.len(),
{
    let items = texts.map_values(|t: String| CursorItem::Doc(Some(t)));
    let views = texts.map_values(|t: String| t@);
    if texts.len() == 0 {
        assert(scan(items)->Ok_0 =~= views);
    } else {
        let prefix = texts.drop_last();
        law_round_trip(prefix);
        let pitems = prefix.map_values(|t: String| CursorItem::Doc(Some(t)));
        assert(items.drop_last() =~= pitems);
        assert(items.last() == CursorItem::Doc(Some(texts.last())));
        assert(views =~= prefix.map_values(|t: String| t@).push(texts.last()@));
        assert(scan(items)->Ok_0 =~= views);
    }
}

/// A database fault reported for an insert, for the listing query or for a
/// cursor step always carries a non-empty plain-text body, whatever the
/// underlying description — even an empty one.
pub proof fn law_fault_body_nonempty(e: Seq<char>)
    ensures
        insert_error_body(e).len() > 0,
        find_error_body(e).len() > 0,
        cursor_error_body(e).len() > 0,
{
    reveal_strlit("DB insert error: ");
    reveal_strlit("DB find error: ");
    reveal_strlit("Cursor error: ");
}

} // verus!
