//! Reasons of flagged sessions: the text stored with a session joins its
//! reasons, and the leaderboard of suspicious users splits the stored texts
//! again and merges them.

use crate::text::{contains_text, text_eq};
use vstd::prelude::*;
use vstd::string::StringExecFns;

verus! {

/// `sep` occurs in `s` at index `i`.
pub open spec fn occurs_at(s: Seq<char>, sep: Seq<char>, i: int) -> bool {
    0 <= i && i + sep.len() <= s.len() && s.subrange(i, i + sep.len()) == sep
}

/// The pieces of `s[start..]` between the non-overlapping occurrences of
/// `sep`, searching from index `i` on and taking the leftmost occurrence
/// each time.
pub open spec fn split_from(s: Seq<char>, sep: Seq<char>, start: int, i: int) -> Seq<Seq<char>>
    decreases s.len() - i,
{
    if sep.len() == 0 || i < start || start < 0 || i + sep.len() > s.len() {
        seq![s.subrange(start, s.len() as int)]
    } else if occurs_at(s, sep, i) {
        seq![s.subrange(start, i)] + split_from(s, sep, i + sep.len(), i + sep.len())
    } else {
        split_from(s, sep, start, i + 1)
    }
}

/// The pieces of `s` between the occurrences of the non-empty separator
/// `sep`, as `str::split` yields them.
pub open spec fn split_on(s: Seq<char>, sep: Seq<char>) -> Seq<Seq<char>> {
    split_from(s, sep, 0, 0)
}

/// `c` has the Unicode White_Space property.
pub open spec fn is_white_space(c: char) -> bool {
    let u = c as u32;
    ||| 0x09 <= u <= 0x0D
    ||| u == 0x20
    ||| u == 0x85
    ||| u == 0xA0
    ||| u == 0x1680
    ||| 0x2000 <= u <= 0x200A
    ||| u == 0x2028
    ||| u == 0x2029
    ||| u == 0x202F
    ||| u == 0x205F
    ||| u == 0x3000
}

/// `s` without its leading white space.
pub open spec fn trim_start(s: Seq<char>) -> Seq<char>
    decreases s.len(),
{
    if s.len() > 0 && is_white_space(s[0]) {
        trim_start(s.drop_first())
    } else {
        s
    }
}

/// `s` without its trailing white space.
pub open spec fn trim_end(s: Seq<char>) -> Seq<char>
    decreases s.len(),
{
    if s.len() > 0 && is_white_space(s.last()) {
        trim_end(s.drop_last())
    } else {
        s
    }
}

/// `s` without leading and trailing white space.
pub open spec fn trimmed(s: Seq<char>) -> Seq<char> {
    trim_end(trim_start(s))
}

/// Wraps std's `str::split` with a string pattern, each piece turned into a
/// `String`: the pieces of `s` between the leftmost non-overlapping
/// occurrences of `sep`, in order.
#[verifier::external_body]
fn split_text(s: &str, sep: &str) -> (pieces: Vec<String>)
    requires
        sep@.len() > 0,
    ensures
        pieces@.map_values(|p: String| p@) == split_on(s@, sep@),
{
    let mut pieces = Vec::new();
    for piece in s.split(sep) {
        pieces.push(piece.to_string());
    }
    pieces
}

/// Wraps std's `str::trim`, the result turned into a `String`: `s` without
/// leading and trailing characters of the Unicode White_Space property.
#[verifier::external_body]
fn trim_text(s: &str) -> (t: String)
    ensures
        t@ == trimmed(s@),
{
    s.trim().to_string()
}

/// One reason joins the list, trimmed, unless it is empty or already there.
pub open spec fn add_reason(acc: Seq<Seq<char>>, piece: Seq<char>) -> Seq<Seq<char>> {
    let t = trimmed(piece);
    if t.len() > 0 && !acc.contains(t) {
        acc.push(t)
    } else {
        acc
    }
}

/// The reasons of `pieces` join the list one after the other.
pub open spec fn add_reasons(acc: Seq<Seq<char>>, pieces: Seq<Seq<char>>) -> Seq<Seq<char>>
    decreases pieces.len(),
{
    if pieces.len() == 0 {
        acc
    } else {
        add_reason(add_reasons(acc, pieces.drop_last()), pieces.last())
    }
}

/// The distinct non-empty reasons found in the stored reason texts, which
/// separate single reasons by `"; "`, in the order they first appear.
pub open spec fn merged_reasons(stored: Seq<Option<String>>) -> Seq<Seq<char>>
    decreases stored.len(),
{
    if stored.len() == 0 {
        seq![]
    } else {
        let acc = merged_reasons(stored.drop_last());
        match stored.last() {
            Some(r) => add_reasons(acc, split_on(r@, "; "@)),
            None => acc,
        }
    }
}

/// No reason is empty and none occurs twice.
pub open spec fn distinct_non_empty(rs: Seq<Seq<char>>) -> bool {
    &&& forall|i: int| 0 <= i < rs.len() ==> (#[trigger] rs[i]).len() > 0
    &&& forall|i: int, j: int| 0 <= i < j < rs.len() ==> rs[i] != rs[j]
}

proof fn lemma_add_reason_distinct(acc: Seq<Seq<char>>, piece: Seq<char>)
    requires
        distinct_non_empty(acc),
    ensures
        distinct_non_empty(add_reason(acc, piece)),
{
    let t = trimmed(piece);
    if t.len() > 0 && !acc.contains(t) {
        let r = acc.push(t);
        assert forall|i: int, j: int| 0 <= i < j < r.len() implies r[i] != r[j] by {
            if j == acc.len() {
                assert(r[i] == acc[i]);
            }
        }
    }
}

proof fn lemma_add_reasons_distinct(acc: Seq<Seq<char>>, pieces: Seq<Seq<char>>)
    requires
        distinct_non_empty(acc),
    ensures
        distinct_non_empty(add_reasons(acc, pieces)),
    decreases pieces.len(),
{
    if pieces.len() > 0 {
        lemma_add_reasons_distinct(acc, pieces.drop_last());
        lemma_add_reason_distinct(add_reasons(acc, pieces.drop_last()), pieces.last());
    }
}

/// The merged reasons are never empty and never repeat.
pub proof fn lemma_merged_reasons_distinct(stored: Seq<Option<String>>)
    ensures
        distinct_non_empty(merged_reasons(stored)),
    decreases stored.len(),
{
    if stored.len() > 0 {
        lemma_merged_reasons_distinct(stored.drop_last());
        match stored.last() {
            Some(r) => lemma_add_reasons_distinct(
                merged_reasons(stored.drop_last()),
                split_on(r@, "; "@),
            ),
            None => {},
        }
    }
}

/// The parts joined into one text, with `sep` between neighbours.
pub open spec fn joined(parts: Seq<Seq<char>>, sep: Seq<char>) -> Seq<char>
    decreases parts.len(),
{
    if parts.len() == 0 {
        seq![]
    } else if parts.len() == 1 {
        parts[0]
    } else {
        parts[0] + sep + joined(parts.drop_first(), sep)
    }
}

/// The text stored with a flagged session: its reasons joined by `"; "`.
pub fn join_reasons(reasons: &Vec<String>) -> (s: String)
    ensures
        s@ == joined(reasons@.map_values(|r: String| r@), "; "@),
{
    let ghost views = reasons@.map_values(|r: String| r@);
    let mut s = String::new();
    let n = reasons.len();
    if n == 0 {
        return s;
    }
    // Joining from the back keeps the text equal to a join of a suffix.
    s.append(reasons[n - 1].as_str());
    let mut i: usize = n - 1;
    proof {
        assert(views.subrange(n - 1, n as int) =~= seq![views[n - 1]]);
    }
    while i > 0
        invariant
            n == reasons@.len(),
            views == reasons@.map_values(|r: String| r@),
            0 <= i < n,
            s@ == joined(views.subrange(i as int, n as int), "; "@),
        decreases i,
    {
        let ghost rest = views.subrange(i as int, n as int);
        let mut piece = String::from_str(reasons[i - 1].as_str());
        piece.append("; ");
        piece.append(s.as_str());
        s = piece;
        proof {
            let longer = views.subrange(i - 1, n as int);
            assert(longer.drop_first() =~= rest);
            assert(longer[0] == views[i - 1]);
        }
        i = i - 1;
    }
    proof {
        assert(views.subrange(0, n as int) =~= views);
    }
    s
}

/// Splitting is unchanged by text in front of the part being scanned.
proof fn lemma_split_from_shift(a: Seq<char>, b: Seq<char>, sep: Seq<char>, start: int, j: int)
    requires
        sep.len() > 0,
        0 <= start <= j <= b.len(),
    ensures
        split_from(a + b, sep, a.len() + start, a.len() + j) == split_from(b, sep, start, j),
    decreases b.len() - j,
{
    let s = a + b;
    let k = a.len() + j;
    if k + sep.len() <= s.len() {
        assert(s.subrange(k, k + sep.len()) =~= b.subrange(j, j + sep.len()));
        if occurs_at(b, sep, j) {
            lemma_split_from_shift(a, b, sep, j + sep.len(), j + sep.len());
            assert(s.subrange(a.len() + start, k) =~= b.subrange(start, j));
        } else {
            lemma_split_from_shift(a, b, sep, start, j + 1);
        }
    } else {
        assert(s.subrange(a.len() + start, s.len() as int) =~= b.subrange(start, b.len() as int));
    }
}

/// Scanning past indices where `sep` does not occur changes nothing.
proof fn lemma_split_from_skip(s: Seq<char>, sep: Seq<char>, start: int, i: int, j: int)
    requires
        sep.len() > 0,
        0 <= start <= i <= j,
        j + sep.len() <= s.len(),
        forall|k: int| i <= k < j ==> !occurs_at(s, sep, k),
    ensures
        split_from(s, sep, start, i) == split_from(s, sep, start, j),
    decreases j - i,
{
    if i < j {
        lemma_split_from_skip(s, sep, start, i + 1, j);
    }
}

/// Scanning to the end of a text without `sep` gives the rest of it.
proof fn lemma_split_from_tail(s: Seq<char>, sep: Seq<char>, start: int, i: int)
    requires
        sep.len() > 0,
        0 <= start <= i <= s.len(),
        forall|k: int| i <= k ==> !occurs_at(s, sep, k),
    ensures
        split_from(s, sep, start, i) == seq![s.subrange(start, s.len() as int)],
    decreases s.len() - i,
{
    if i + sep.len() <= s.len() {
        lemma_split_from_tail(s, sep, start, i + 1);
    }
}

/// A stored reason text gives back the reasons it was joined from: splitting
/// the reasons joined by `"; "` at `"; "` yields them again, provided there
/// is at least one and none holds `"; "` itself.
pub proof fn lemma_split_joined_reasons(parts: Seq<Seq<char>>)
    requires
        parts.len() > 0,
        forall|i: int| 0 <= i < parts.len() ==> !contains_text(#[trigger] parts[i], "; "@),
    ensures
        split_on(joined(parts, "; "@), "; "@) == parts,
    decreases parts.len(),
{
    let sep = "; "@;
    reveal_strlit("; ");
    let p = parts[0];
    assert forall|k: int| 0 <= k && k + 2 <= p.len() implies !occurs_at(p, sep, k) by {
        if occurs_at(p, sep, k) {
            assert(contains_text(p, sep));
        }
    }
    if parts.len() == 1 {
        lemma_split_from_tail(p, sep, 0, 0);
        assert(p.subrange(0, p.len() as int) =~= p);
        assert(seq![p] =~= parts);
    } else {
        let rest = parts.drop_first();
        assert forall|i: int| 0 <= i < rest.len() implies !contains_text(#[trigger] rest[i], "; "@) by {
            assert(rest[i] == parts[i + 1]);
        }
        lemma_split_joined_reasons(rest);
        let tail = joined(rest, sep);
        let s = p + sep + tail;
        assert(joined(parts, sep) == s);
        // no occurrence inside the first reason, nor one that starts in its
        // last character, since the separator does not begin with a space
        assert forall|k: int| 0 <= k < p.len() implies !occurs_at(s, sep, k) by {
            if k + 2 <= p.len() {
                assert(s.subrange(k, k + 2) =~= p.subrange(k, k + 2));
            } else {
                assert(s[k + 1] == sep[0]);
                if occurs_at(s, sep, k) {
                    assert(s.subrange(k, k + 2)[1] == s[k + 1]);
                }
            }
        }
        lemma_split_from_skip(s, sep, 0, 0, p.len() as int);
        assert(occurs_at(s, sep, p.len() as int)) by {
            assert(s.subrange(p.len() as int, p.len() + 2int) =~= sep);
        }
        assert(s.subrange(0, p.len() as int) =~= p);
        assert(p + sep + tail =~= (p + sep) + tail);
        lemma_split_from_shift(p + sep, tail, sep, 0, 0);
        assert(seq![p] + rest =~= parts);
    }
}

/// Whether `list` holds a string with the same characters as `text`.
fn holds_text(list: &Vec<String>, text: &str) -> (r: bool)
    ensures
        r == list@.map_values(|s: String| s@).contains(text@),
{
    let ghost views = list@.map_values(|s: String| s@);
    let mut k: usize = 0;
    while k < list.len()
        invariant
            k <= list@.len(),
            views == list@.map_values(|s: String| s@),
            forall|j: int| 0 <= j < k ==> views[j] != text@,
        decreases list@.len() - k,
    {
        if text_eq(list[k].as_str(), text) {
            assert(views[k as int] == text@);
            return true;
        }
        k += 1;
    }
    false
}

/// The distinct non-empty single reasons of a user's flagged sessions, in
/// the order they first appear; each stored reason text separates single
/// reasons by `"; "`, and surrounding white space is dropped.
pub fn merge_suspicion_reasons(stored: &Vec<Option<String>>) -> (r: Vec<String>)
    ensures
        r@.map_values(|s: String| s@) == merged_reasons(stored@),
{
    let mut all_reasons: Vec<String> = Vec::new();
    let mut i: usize = 0;
    while i < stored.len()
        invariant
            i <= stored@.len(),
            all_reasons@.map_values(|s: String| s@) == merged_reasons(stored@.take(i as int)),
        decreases stored@.len() - i,
    {
        proof {
            assert(stored@.take(i + 1).drop_last() =~= stored@.take(i as int));
        }
        if let Some(reason) = &stored[i] {
            proof {
                reveal_strlit("; ");
            }
            let pieces = split_text(reason.as_str(), "; ");
            let ghost base = all_reasons@.map_values(|s: String| s@);
            let ghost piece_views = pieces@.map_values(|p: String| p@);
            let mut p: usize = 0;
            while p < pieces.len()
                invariant
                    p <= pieces@.len(),
                    piece_views == pieces@.map_values(|q: String| q@),
                    all_reasons@.map_values(|s: String| s@) == add_reasons(
                        base,
                        piece_views.take(p as int),
                    ),
                decreases pieces@.len() - p,
            {
                proof {
                    assert(piece_views.take(p + 1).drop_last() =~= piece_views.take(p as int));
                }
                let trimmed_piece = trim_text(pieces[p].as_str());
                if !trimmed_piece.as_str().is_empty() && !holds_text(
                    &all_reasons,
                    trimmed_piece.as_str(),
                ) {
                    let ghost before = all_reasons@;
                    all_reasons.push(trimmed_piece);
                    assert(all_reasons@.map_values(|s: String| s@) =~= before.map_values(
                        |s: String| s@,
                    ).push(trimmed(piece_views[p as int])));
                }
                p += 1;
            }
            proof {
                assert(piece_views.take(pieces@.len() as int) =~= piece_views);
            }
        }
        i += 1;
    }
    proof {
        assert(stored@.take(stored@.len() as int) =~= stored@);
    }
    all_reasons
}

} // verus!
