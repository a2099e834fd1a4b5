//! Assembly of the transcription output: the engine's text segments are
//! concatenated in index order, each followed by a single space, and the
//! trailing whitespace of the result is trimmed away.

use vstd::prelude::*;

use vstd::string::StrSliceExecFns;
use vstd::string::StringExecFns;

verus! {

/// The whitespace characters that trailing trim removes.
pub open spec fn is_ws_char(c: char) -> bool {
    c == ' ' || c == '\t' || c == '\n' || c == '\r'
}

/// A text made of whitespace alone (the empty text included).
pub open spec fn blank(s: Seq<char>) -> bool {
    forall|i: int| 0 <= i < s.len() ==> is_ws_char(s[i])
}

/// All segments in order, each followed by a single space.
pub open spec fn joined(segs: Seq<Seq<char>>) -> Seq<char>
    decreases segs.len(),
{
    if segs.len() == 0 {
        Seq::empty()
    } else {
        joined(segs.drop_last()) + segs.last() + seq![' ']
    }
}

/// The text with its trailing whitespace removed.
pub open spec fn trim_end(s: Seq<char>) -> Seq<char>
    decreases s.len(),
{
    if s.len() == 0 {
        s
    } else if is_ws_char(s.last()) {
        trim_end(s.drop_last())
    } else {
        s
    }
}

/// The finished transcript of a segment sequence.
pub open spec fn transcript(segs: Seq<Seq<char>>) -> Seq<char> {
    trim_end(joined(segs))
}

/// The character sequences of a sequence of strings.
pub open spec fn seg_views(segs: Seq<String>) -> Seq<Seq<char>> {
    segs.map_values(|s: String| s@)
}

/// Trimming cuts the text at `cut` when everything from `cut` on is
/// whitespace and the character just before `cut`, if any, is not.
proof fn lemma_trim_end_at_cut(s: Seq<char>, cut: int)
    requires
        0 <= cut <= s.len(),
        forall|j: int| cut <= j < s.len() ==> is_ws_char(s[j]),
        cut > 0 ==> !is_ws_char(s[cut - 1]),
    ensures
        trim_end(s) == s.subrange(0, cut),
    decreases s.len(),
{
    if s.len() == 0 {
        assert(s.subrange(0, 0) =~= s);
    } else if cut == s.len() {
        assert(!is_ws_char(s.last()));
        assert(s.subrange(0, cut) =~= s);
    } else {
        lemma_trim_end_at_cut(s.drop_last(), cut);
        assert(s.drop_last().subrange(0, cut) =~= s.subrange(0, cut));
    }
}

/// The index after the last non-whitespace character of `s`.
fn trimmed_len(s: &String) -> (cut: usize)
    ensures
        cut <= s@.len(),
        forall|j: int| cut <= j < s@.len() ==> is_ws_char(s@[j]),
        cut > 0 ==> !is_ws_char(s@[cut - 1]),
{
    let n: usize = s.as_str().unicode_len();
    let mut cut: usize = n;
    while cut > 0
        invariant
            cut <= n == s@.len(),
            forall|j: int| cut <= j < s@.len() ==> is_ws_char(s@[j]),
        ensures
            cut <= s@.len(),
            forall|j: int| cut <= j < s@.len() ==> is_ws_char(s@[j]),
            cut > 0 ==> !is_ws_char(s@[cut - 1]),
        decreases cut,
    {
        let c: char = s.as_str().get_char(cut - 1);
        if c != ' ' && c != '\t' && c != '\n' && c != '\r' {
            break;
        }
        cut -= 1;
    }
    cut
}

/// Concatenate the segments in index order, a single space after each, and
/// trim the trailing whitespace of the result.
pub fn assemble_transcript(segments: &Vec<String>) -> (r: String)
    ensures
        r@ == transcript(seg_views(segments@)),
{
    let mut out: String = String::new();
    let n: usize = segments.len();
    let mut i: usize = 0;
    while i < n
        invariant
            n == segments@.len(),
            i <= n,
            out@ == joined(seg_views(segments@).take(i as int)),
        decreases n - i,
    {
        let seg: &String = &segments[i];
        out.append(seg.as_str());
        out.append(" ");
        proof {
            reveal_strlit(" ");
            let views = seg_views(segments@);
            assert(views.take(i as int + 1).drop_last() =~= views.take(i as int));
            assert(views.take(i as int + 1).last() == segments@[i as int]@);
            assert(out@ =~= joined(views.take(i as int + 1)));
        }
        i += 1;
    }
    proof {
        assert(seg_views(segments@).take(n as int) =~= seg_views(segments@));
    }
    let cut: usize = trimmed_len(&out);
    proof {
        lemma_trim_end_at_cut(out@, cut as int);
    }
    let trimmed: &str = out.as_str().substring_char(0, cut);
    String::from_str(trimmed)
}

/// Joining whitespace-only segments yields a whitespace-only text.
proof fn lemma_joined_blank(segs: Seq<Seq<char>>)
    requires
        forall|i: int| 0 <= i < segs.len() ==> blank(#[trigger] segs[i]),
    ensures
        blank(joined(segs)),
    decreases segs.len(),
{
    if segs.len() > 0 {
        lemma_joined_blank(segs.drop_last());
        let left = joined(segs.drop_last());
        let mid = segs.last();
        assert(blank(mid));
        assert forall|j: int| 0 <= j < joined(segs).len() implies is_ws_char(joined(segs)[j]) by {
            if j < left.len() {
                assert(joined(segs)[j] == left[j]);
            } else if j < left.len() + mid.len() {
                assert(joined(segs)[j] == mid[j - left.len()]);
            } else {
                assert(joined(segs)[j] == ' ');
            }
        }
    }
}

/// Trimming a whitespace-only text leaves nothing.
proof fn lemma_trim_end_blank(s: Seq<char>)
    requires
        blank(s),
    ensures
        trim_end(s) == Seq::<char>::empty(),
    decreases s.len(),
{
    if s.len() > 0 {
        lemma_trim_end_blank(s.drop_last());
    }
}

/// Segments that hold only whitespace assemble to the empty transcript: a
/// silent decode, whose segments are empty or whitespace, yields empty text.
pub proof fn lemma_blank_segments_empty_transcript(segs: Seq<Seq<char>>)
    requires
        forall|i: int| 0 <= i < segs.len() ==> blank(#[trigger] segs[i]),
    ensures
        transcript(segs) == Seq::<char>::empty(),
{
    lemma_joined_blank(segs);
    lemma_trim_end_blank(joined(segs));
}

} // verus!
