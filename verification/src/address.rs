use crate::text::{chars_of, is_space, lemma_trimmed, trim_range, trimmed};
use vstd::prelude::*;
use vstd::string::*;

verus! {

/// The pieces of `s` between occurrences of `sep`, in order.
///
/// A string without `sep` is one piece; each `sep` closes a piece and opens the next, which may
/// be empty.
pub open spec fn segments(s: Seq<char>, sep: char) -> Seq<Seq<char>>
    decreases s.len(),
{
    if s.len() == 0 {
        seq![Seq::<char>::empty()]
    } else {
        let before = segments(s.drop_last(), sep);
        if s.last() == sep {
            before.push(Seq::<char>::empty())
        } else {
            before.drop_last().push(before.last().push(s.last()))
        }
    }
}

/// The recipient addresses that a comma separated list names: each piece trimmed, empty pieces
/// dropped.
pub open spec fn address_list(s: Seq<char>) -> Seq<Seq<char>> {
    segments(s, ',').map_values(|piece: Seq<char>| trimmed(piece)).filter(
        |piece: Seq<char>| piece.len() > 0,
    )
}

/// `pieces` put together again, with `sep` between each two.
pub open spec fn joined(pieces: Seq<Seq<char>>, sep: char) -> Seq<char>
    decreases pieces.len(),
{
    if pieces.len() == 0 {
        Seq::<char>::empty()
    } else if pieces.len() == 1 {
        pieces[0]
    } else {
        joined(pieces.drop_last(), sep).push(sep) + pieces.last()
    }
}

/// Splitting loses nothing and cuts at every `sep`: there is at least one piece, no piece
/// holds `sep`, and the pieces joined with `sep` are the text again.
pub proof fn lemma_segments(s: Seq<char>, sep: char)
    ensures
        segments(s, sep).len() > 0,
        forall|i: int| 0 <= i < segments(s, sep).len() ==> !(#[trigger] segments(s, sep)[i]).contains(sep),
        joined(segments(s, sep), sep) == s,
    decreases s.len(),
{
    if s.len() == 0 {
        assert(joined(segments(s, sep), sep) =~= s);
    } else {
        let before = segments(s.drop_last(), sep);
        lemma_segments(s.drop_last(), sep);
        let pieces = segments(s, sep);
        if s.last() == sep {
            assert(pieces.drop_last() =~= before);
            assert(joined(pieces, sep) =~= s);
        } else {
            let grown = before.last().push(s.last());
            assert forall|k: int| 0 <= k < grown.len() implies grown[k] != sep by {
                if k < before.last().len() {
                    assert(before.last()[k] == grown[k]);
                }
            }
            assert(pieces.drop_last() =~= before.drop_last());
            if before.len() == 1 {
                assert(joined(pieces, sep) =~= s);
            } else {
                assert(joined(pieces, sep) =~= joined(before, sep).push(s.last()));
                assert(joined(pieces, sep) =~= s);
            }
        }
    }
}

/// Every address of a list is a piece of the text between commas, trimmed: it is not empty,
/// holds no comma, and neither starts nor ends with white space.
pub proof fn law_addresses_are_clean(s: Seq<char>, i: int)
    requires
        0 <= i < address_list(s).len(),
    ensures
        address_list(s)[i].len() > 0,
        !address_list(s)[i].contains(','),
        !is_space(address_list(s)[i].first()),
        !is_space(address_list(s)[i].last()),
{
    let trim_piece = |piece: Seq<char>| trimmed(piece);
    let keep = |piece: Seq<char>| piece.len() > 0;
    let pieces = segments(s, ',');
    let cut = pieces.map_values(trim_piece);
    let address = address_list(s)[i];
    cut.lemma_filter_pred(keep, i);
    assert(cut.filter(keep).contains(address));
    cut.lemma_filter_contains_rev(keep, address);
    let j = choose|j: int| 0 <= j < cut.len() && cut[j] == address;
    lemma_segments(s, ',');
    let bounds = lemma_trimmed(pieces[j]);
    assert(!pieces[j].contains(','));
    if address.contains(',') {
        let k = choose|k: int| 0 <= k < address.len() && address[k] == ',';
        assert(pieces[j][bounds.0 + k] == ',');
    }
}

/// Splits a comma separated list of addresses.
pub fn parse_to_vec(s: &str) -> (r: Vec<String>)
    ensures
        r.deep_view() == address_list(s@),
{
    let chars = chars_of(s);
    let n = chars.len();
    let mut out: Vec<String> = Vec::new();
    let ghost mut closed: Seq<Seq<char>> = Seq::empty();
    let ghost keep = |piece: Seq<char>| piece.len() > 0;
    let ghost trim_piece = |piece: Seq<char>| trimmed(piece);
    let mut start: usize = 0;
    let mut i: usize = 0;
    assert(chars@.take(0) =~= Seq::<char>::empty());
    assert(segments(chars@.take(0), ',') =~= closed.push(chars@.subrange(0, 0)));
    assert(closed.map_values(trim_piece).filter(keep) =~= Seq::<Seq<char>>::empty()) by {
        reveal(Seq::filter);
    }
    assert(out.deep_view() =~= Seq::<Seq<char>>::empty());
    while i < n
        invariant
            n == chars.len(),
            chars@ == s@,
            start <= i <= n,
            keep == |piece: Seq<char>| piece.len() > 0,
            trim_piece == |piece: Seq<char>| trimmed(piece),
            segments(chars@.take(i as int), ',') == closed.push(
                chars@.subrange(start as int, i as int),
            ),
            out.deep_view() == closed.map_values(trim_piece).filter(keep),
        decreases n - i,
    {
        let ghost open_piece = chars@.subrange(start as int, i as int);
        assert(chars@.take(i + 1).drop_last() =~= chars@.take(i as int));
        assert(chars@.take(i + 1).last() == chars@[i as int]);
        if chars[i] == ',' {
            push_trimmed(s, &chars, start, i, &mut out);
            proof {
                lemma_extend(closed, open_piece);
                closed = closed.push(open_piece);
                assert(chars@.subrange(i + 1, i + 1) =~= Seq::<char>::empty());
            }
            start = i + 1;
        } else {
            assert(closed.push(open_piece).drop_last() =~= closed);
            assert(open_piece.push(chars@[i as int]) =~= chars@.subrange(start as int, i + 1));
        }
        i = i + 1;
    }
    push_trimmed(s, &chars, start, n, &mut out);
    proof {
        lemma_extend(closed, chars@.subrange(start as int, n as int));
        assert(chars@.take(n as int) =~= chars@);
    }
    out
}

/// Trimming and filtering a list of pieces after one more piece is the same as doing so before
/// and then adding the trimmed piece if it is not empty.
proof fn lemma_extend(closed: Seq<Seq<char>>, piece: Seq<char>)
    ensures
        closed.push(piece).map_values(|p: Seq<char>| trimmed(p)).filter(
            |p: Seq<char>| p.len() > 0,
        ) == if trimmed(piece).len() > 0 {
            closed.map_values(|p: Seq<char>| trimmed(p)).filter(|p: Seq<char>| p.len() > 0).push(
                trimmed(piece),
            )
        } else {
            closed.map_values(|p: Seq<char>| trimmed(p)).filter(|p: Seq<char>| p.len() > 0)
        },
{
    let trim_piece = |p: Seq<char>| trimmed(p);
    let keep = |p: Seq<char>| p.len() > 0;
    assert(closed.push(piece).map_values(trim_piece) =~= closed.map_values(trim_piece).push(
        trimmed(piece),
    ));
    closed.map_values(trim_piece).lemma_filter_push(trimmed(piece), keep);
}

/// Appends `chars[lo..hi]`, trimmed, to `out` unless nothing is left of it.
fn push_trimmed(s: &str, chars: &Vec<char>, lo: usize, hi: usize, out: &mut Vec<String>)
    requires
        chars@ == s@,
        lo <= hi <= chars.len(),
    ensures
        final(out).deep_view() == if trimmed(chars@.subrange(lo as int, hi as int)).len() > 0 {
            old(out).deep_view().push(trimmed(chars@.subrange(lo as int, hi as int)))
        } else {
            old(out).deep_view()
        },
{
    let (a, b) = trim_range(chars, lo, hi);
    if a < b {
        let piece = s.substring_char(a, b).to_owned();
        let ghost before = out.deep_view();
        out.push(piece);
        assert(out.deep_view() =~= before.push(piece@));
    }
}

} // verus!
