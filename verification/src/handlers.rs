//! The three routes' logic, each a function from plain values to a reply.
//! The caller performs the database round trip and hands its outcome in; the
//! handler decides status and content. A reply is a status code with either
//! the structured success value or a plain-text error body.

use vstd::prelude::*;
use crate::notes::{CursorItem, Note, note_texts, scan, lemma_scan_err_persists};

verus! {

/// The fixed confirmation the root route answers with.
pub open spec fn root_text() -> Seq<char> {
    "Notes service is running"@
}

/// The plain-text body reported when an insert fails, the underlying error's
/// description appended to a fixed prefix.
pub open spec fn insert_error_body(e: Seq<char>) -> Seq<char> {
    "DB insert error: "@ + e
}

/// The plain-text body reported when opening the listing query fails.
pub open spec fn find_error_body(e: Seq<char>) -> Seq<char> {
    "DB find error: "@ + e
}

/// The plain-text body reported when advancing the listing's cursor fails.
pub open spec fn cursor_error_body(e: Seq<char>) -> Seq<char> {
    "Cursor error: "@ + e
}

/// The root route: always status 200 with the fixed confirmation text. It
/// takes nothing, in particular no database state, so its answer cannot
/// depend on one.
pub fn root() -> (r: (u16, String))
    ensures
        r.0 == 200,
        r.1@ == root_text(),
{
    (200, String::from_str("Notes service is running"))
}

/// The create route's decision, given the text to store and the outcome of
/// the one insert the caller performed for it: on success, status 201 with
/// the note echoed back; on a database failure, status 500 with a non-empty
/// plain-text body naming the error.
pub fn create_note(text: String, insert: Result<(), String>) -> (r: Result<(u16, Note), (u16, String)>)
    ensures
        r is Ok <==> insert is Ok,
        r matches Ok(ok) ==> ok.0 == 201 && ok.1.text@ == text@,
        insert matches Err(e) ==> (r matches Err(err)
            && err.0 == 500
            && err.1@ == insert_error_body(e@)
            && err.1@.len() > 0),
{
    match insert {
        Ok(()) => Ok((201, Note { text })),
        Err(e) => {
            let mut msg = String::from_str("DB insert error: ");
            msg.append(e.as_str());
            proof {
                reveal_strlit("DB insert error: ");
            }
            Err((500, msg))
        },
    }
}

/// The list route's decision, given the outcome of the one find-all query the
/// caller performed: the whole cursor, consumed in storage order, or the
/// failure that opening it gave. On a clean read, status 200 with the notes
/// whose documents carry a readable string `text` field, in order, the rest
/// silently skipped; on a failure at the query or at any cursor step, status
/// 500 with a plain-text body naming the first error, everything gathered so
/// far discarded.
pub fn get_notes(find: Result<Vec<CursorItem>, String>) -> (r: Result<(u16, Vec<Note>), (u16, String)>)
    ensures
        (match find {
            Ok(items) => match scan(items@) {
                Ok(ts) => r matches Ok(ok) && ok.0 == 200 && note_texts(ok.1@) == ts,
                Err(m) => r matches Err(err) && err.0 == 500 && err.1@ == cursor_error_body(m)
                    && err.1@.len() > 0,
            },
            Err(e) => r matches Err(err) && err.0 == 500 && err.1@ == find_error_body(e@)
                && err.1@.len() > 0,
        }),
{
    match find {
        Err(e) => {
            let mut msg = String::from_str("DB find error: ");
            msg.append(e.as_str());
            proof {
                reveal_strlit("DB find error: ");
            }
            Err((500, msg))
        },
        Ok(items) => {
            let mut notes: Vec<Note> = Vec::new();
            let mut i: usize = 0;
            proof {
                assert(note_texts(notes@) =~= Seq::<Seq<char>>::empty());
                assert(scan(items@.take(0)) == Ok::<Seq<Seq<char>>, Seq<char>>(note_texts(notes@)));
            }
            while i < items.len()
                invariant
                    find == Ok::<Vec<CursorItem>, String>(items),
                    i <= items@.len(),
                    scan(items@.take(i as int)) == Ok::<Seq<Seq<char>>, Seq<char>>(note_texts(notes@)),
                decreases items@.len() - i,
            {
                proof {
                    assert(items@.take(i as int + 1).drop_last() =~= items@.take(i as int));
                    assert(items@.take(i as int + 1).last() == items@[i as int]);
                }
                match &items[i] {
                    CursorItem::Doc(opt) => {
                        match opt {
                            Some(t) => {
                                let ghost before = notes@;
                                let note = Note { text: t.clone() };
                                notes.push(note);
                                proof {
                                    assert(note_texts(notes@) =~= note_texts(before).push(t@));
                                }
                            },
                            None => {},
                        }
                    },
                    CursorItem::Fault(m) => {
                        let mut msg = String::from_str("Cursor error: ");
                        msg.append(m.as_str());
                        proof {
                            reveal_strlit("Cursor error: ");
                            assert(scan(items@.take(i as int + 1)) == Err::<Seq<Seq<char>>, Seq<char>>(m@));
                            lemma_scan_err_persists(items@, i as int + 1);
                            assert(scan(items@) == Err::<Seq<Seq<char>>, Seq<char>>(m@));
                        }
                        return Err((500, msg));
                    },
                }
                i += 1;
            }
            proof {
                assert(items@.take(items@.len() as int) =~= items@);
            }
            Ok((200, notes))
        },
    }
}

} // verus!
