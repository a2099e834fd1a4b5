//! The note record that a finished transcription is saved as, and the
//! newest-first ordering the note list is presented in.  Persistence (one
//! JSON file per note under the notes directory) is plain file I/O and is
//! done by the runtime; the record and the ordering are defined here.

use vstd::prelude::*;

use vstd::string::StrSliceExecFns;

verus! {

/// One saved note: its identifier, title, body text and creation timestamp.
#[derive(Clone, Debug)]
pub struct Note {
    pub id: i64,
    pub title: String,
    pub content: String,
    pub timestamp: String,
}

impl Note {
    /// Build a note from its parts.
    pub fn new(id: i64, title: String, content: String, timestamp: String) -> (r: Note)
        ensures
            r.id == id,
            r.title == title,
            r.content == content,
            r.timestamp == timestamp,
    {
        Note { id, title, content, timestamp }
    }
}

/// Code-point order on character sequences: `a` sorts no later than `b`.
pub open spec fn lex_le(a: Seq<char>, b: Seq<char>) -> bool
    decreases a.len(),
{
    if a.len() == 0 {
        true
    } else if b.len() == 0 {
        false
    } else if (a[0] as u32) < (b[0] as u32) {
        true
    } else if (a[0] as u32) > (b[0] as u32) {
        false
    } else {
        lex_le(a.drop_first(), b.drop_first())
    }
}

/// Any two texts are ordered one way or the other.
pub proof fn lemma_lex_le_total(a: Seq<char>, b: Seq<char>)
    ensures
        lex_le(a, b) || lex_le(b, a),
    decreases a.len(),
{
    if a.len() > 0 && b.len() > 0 && (a[0] as u32) == (b[0] as u32) {
        lemma_lex_le_total(a.drop_first(), b.drop_first());
    }
}

/// The order is transitive.
pub proof fn lemma_lex_le_trans(a: Seq<char>, b: Seq<char>, c: Seq<char>)
    requires
        lex_le(a, b),
        lex_le(b, c),
    ensures
        lex_le(a, c),
    decreases a.len(),
{
    if a.len() > 0 && (a[0] as u32) == (b[0] as u32) && (b[0] as u32) == (c[0] as u32) {
        lemma_lex_le_trans(a.drop_first(), b.drop_first(), c.drop_first());
    }
}

/// Whether `a` sorts no later than `b` in code-point order.
pub fn timestamp_le(a: &str, b: &str) -> (r: bool)
    ensures
        r == lex_le(a@, b@),
{
    let an: usize = a.unicode_len();
    let bn: usize = b.unicode_len();
    let mut i: usize = 0;
    proof {
        assert(a@.skip(0) =~= a@);
        assert(b@.skip(0) =~= b@);
    }
    while i < an && i < bn
        invariant
            i <= an == a@.len(),
            i <= bn == b@.len(),
            lex_le(a@, b@) == lex_le(a@.skip(i as int), b@.skip(i as int)),
        decreases an - i,
    {
        let ca: char = a.get_char(i);
        let cb: char = b.get_char(i);
        if (ca as u32) < (cb as u32) {
            return true;
        }
        if (ca as u32) > (cb as u32) {
            return false;
        }
        proof {
            assert(a@.skip(i as int).drop_first() =~= a@.skip(i as int + 1));
            assert(b@.skip(i as int).drop_first() =~= b@.skip(i as int + 1));
        }
        i += 1;
    }
    i >= an
}

/// Notes ordered newest first: every later note's timestamp sorts no later
/// than every earlier one's.
pub open spec fn newest_first(s: Seq<Note>) -> bool {
    forall|i: int, j: int|
        0 <= i < j < s.len() ==> lex_le(#[trigger] s[j].timestamp@, #[trigger] s[i].timestamp@)
}

/// Sort the notes by timestamp, newest first, keeping exactly the same
/// notes.
pub fn sort_notes_newest_first(notes: &mut Vec<Note>)
    ensures
        newest_first(final(notes)@),
        final(notes)@.to_multiset() == old(notes)@.to_multiset(),
{
    broadcast use vstd::seq_lib::group_to_multiset_ensures;
    broadcast use vstd::multiset::group_multiset_axioms;

    let n: usize = notes.len();
    if n == 0 {
        return ;
    }
    let mut i: usize = 1;
    while i < n
        invariant
            n == notes@.len(),
            1 <= i <= n,
            forall|a: int, b: int|
                0 <= a < b < i as int ==> lex_le(
                    #[trigger] notes@[b].timestamp@,
                    #[trigger] notes@[a].timestamp@,
                ),
            notes@.to_multiset() == old(notes)@.to_multiset(),
        decreases n - i,
    {
        let mut p: usize = 0;
        while p < i && !timestamp_le(notes[p].timestamp.as_str(), notes[i].timestamp.as_str())
            invariant
                p <= i < n == notes@.len(),
                forall|a: int|
                    0 <= a < p ==> !lex_le(
                        #[trigger] notes@[a].timestamp@,
                        notes@[i as int].timestamp@,
                    ),
            decreases i - p,
        {
            p += 1;
        }
        let ghost s0 = notes@;
        let x: Note = notes.remove(i);
        notes.insert(p, x);
        proof {
            let t = notes@;
            assert(t == s0.remove(i as int).insert(p as int, s0[i as int]));
            s0.remove_ensures(i as int);
            s0.remove(i as int).insert_ensures(p as int, s0[i as int]);
            // the moved note keeps the same multiset of notes
            vstd::seq_lib::to_multiset_contains(s0, s0[i as int]);
            vstd::seq_lib::to_multiset_remove(s0, i as int);
            vstd::seq_lib::to_multiset_insert(s0.remove(i as int), p as int, s0[i as int]);
            assert(s0.contains(s0[i as int]));
            assert(s0.to_multiset().count(s0[i as int]) > 0);
            assert(s0.to_multiset().remove(s0[i as int]).insert(s0[i as int]) =~= s0.to_multiset());
            assert(t.to_multiset() == s0.to_multiset());
            // the prefix up to and including the moved note is ordered
            assert forall|a: int, b: int| 0 <= a < b < i as int + 1 implies lex_le(
                t[b].timestamp@,
                t[a].timestamp@,
            ) by {
                if b < p {
                    assert(t[a] == s0[a] && t[b] == s0[b]);
                    assert(lex_le(s0[b].timestamp@, s0[a].timestamp@));
                } else if a < p && b == p {
                    assert(t[a] == s0[a] && t[b] == s0[i as int]);
                    lemma_lex_le_total(s0[a].timestamp@, s0[i as int].timestamp@);
                } else if a < p && b > p {
                    assert(t[a] == s0[a] && t[b] == s0[b - 1]);
                    assert(lex_le(s0[b - 1].timestamp@, s0[a].timestamp@));
                } else if a == p && b > p {
                    assert(t[a] == s0[i as int] && t[b] == s0[b - 1]);
                    assert(lex_le(s0[p as int].timestamp@, s0[i as int].timestamp@));
                    if b - 1 > p {
                        assert(lex_le(s0[b - 1].timestamp@, s0[p as int].timestamp@));
                        lemma_lex_le_trans(
                            s0[b - 1].timestamp@,
                            s0[p as int].timestamp@,
                            s0[i as int].timestamp@,
                        );
                    }
                } else {
                    assert(t[a] == s0[a - 1] && t[b] == s0[b - 1]);
                    assert(lex_le(s0[b - 1].timestamp@, s0[a - 1].timestamp@));
                }
            }
        }
        i += 1;
    }
    proof {
        assert(newest_first(notes@));
    }
}

} // verus!
