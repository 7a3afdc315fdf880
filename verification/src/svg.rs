//! Assembly of the exported SVG document: a fixed viewport declaration
//! around one black polyline whose points attribute lists the already
//! formatted `x,y` coordinate pairs separated by single spaces.
//!
//! The exporter front end integrates the trajectory, formats each position
//! to five decimal digits, and hands the finished pair strings to
//! [`svg_document`]; only the printing of the returned text is left to it.

use vstd::prelude::*;
use vstd::string::*;

verus! {

/// The coordinate pairs joined with single spaces, exactly as they stand
/// between the quotes of the polyline's points attribute.
pub open spec fn joined_pairs(pairs: Seq<Seq<char>>) -> Seq<char>
    decreases pairs.len(),
{
    if pairs.len() == 0 {
        Seq::empty()
    } else if pairs.len() == 1 {
        pairs[0]
    } else {
        joined_pairs(pairs.drop_last()) + seq![' '] + pairs.last()
    }
}

/// The character sequences of a vector of strings, in order.
pub open spec fn views_of(pairs: Seq<String>) -> Seq<Seq<char>> {
    pairs.map_values(|s: String| s@)
}

/// Everything the document holds before the coordinate pairs: the viewport
/// declaration and the opening of the polyline with black stroke, no fill
/// and stroke width 0.1.
pub open spec fn svg_head() -> Seq<char> {
    "<svg viewBox=\"-20 -20 40 40\" xmlns=\"http://www.w3.org/2000/svg\">\n  <polyline stroke=\"black\" fill=\"none\" stroke-width=\"0.1\" points=\""@
}

/// Everything the document holds after the coordinate pairs: the closing of
/// the polyline and of the root element.
pub open spec fn svg_tail() -> Seq<char> {
    "\"/>\n</svg>\n"@
}

/// The complete exported document for the given coordinate pairs.
pub open spec fn svg_document_model(pairs: Seq<Seq<char>>) -> Seq<char> {
    svg_head() + joined_pairs(pairs) + svg_tail()
}

/// Whether a coordinate pair is free of the separating character.
pub open spec fn space_free(p: Seq<char>) -> bool {
    forall|j: int| 0 <= j < p.len() ==> p[j] != ' '
}

/// How many separating spaces a piece of text holds.
pub open spec fn space_count(s: Seq<char>) -> nat
    decreases s.len(),
{
    if s.len() == 0 {
        0
    } else {
        space_count(s.drop_last()) + if s.last() == ' ' {
            1nat
        } else {
            0nat
        }
    }
}

proof fn lemma_space_count_add(a: Seq<char>, b: Seq<char>)
    ensures
        space_count(a + b) == space_count(a) + space_count(b),
    decreases b.len(),
{
    if b.len() == 0 {
        assert(a + b =~= a);
    } else {
        lemma_space_count_add(a, b.drop_last());
        assert((a + b).drop_last() =~= a + b.drop_last());
    }
}

proof fn lemma_space_count_free(p: Seq<char>)
    requires
        space_free(p),
    ensures
        space_count(p) == 0,
    decreases p.len(),
{
    if p.len() > 0 {
        lemma_space_count_free(p.drop_last());
    }
}

/// The pairs can be counted back from the points attribute: when no pair
/// holds a space of its own, joining `n` pairs leaves exactly `n - 1`
/// separating spaces in the text, so the attribute lists exactly `n` pairs.
pub proof fn lemma_joined_pairs_count(pairs: Seq<Seq<char>>)
    requires
        pairs.len() >= 1,
        forall|i: int| 0 <= i < pairs.len() ==> space_free(#[trigger] pairs[i]),
    ensures
        space_count(joined_pairs(pairs)) == pairs.len() - 1,
    decreases pairs.len(),
{
    if pairs.len() == 1 {
        lemma_space_count_free(pairs[0]);
    } else {
        lemma_joined_pairs_count(pairs.drop_last());
        lemma_space_count_free(pairs.last());
        lemma_space_count_add(joined_pairs(pairs.drop_last()), seq![' ']);
        lemma_space_count_add(joined_pairs(pairs.drop_last()) + seq![' '], pairs.last());
        assert(seq![' '].drop_last() =~= Seq::<char>::empty());
        assert(space_count(Seq::<char>::empty()) == 0);
        assert(space_count(seq![' ']) == 1);
    }
}

/// Joins the formatted coordinate pairs with single spaces, in order, as the
/// value of the polyline's points attribute.
pub fn polyline_points(pairs: &Vec<String>) -> (r: String)
    ensures
        r@ == joined_pairs(views_of(pairs@)),
{
    let ghost vs = views_of(pairs@);
    let mut out = String::new();
    let n = pairs.len();
    let mut i: usize = 0;
    while i < n
        invariant
            i <= n,
            n == pairs@.len(),
            vs == views_of(pairs@),
            out@ == joined_pairs(vs.take(i as int)),
        decreases n - i,
    {
        if i > 0 {
            out.append(" ");
        }
        out.append(pairs[i].as_str());
        proof {
            reveal_strlit(" ");
            assert(vs[i as int] == pairs@[i as int]@);
            assert(vs.take(i as int + 1).drop_last() =~= vs.take(i as int));
            assert(vs.take(i as int + 1).last() == vs[i as int]);
            if i == 0 {
                assert(out@ =~= joined_pairs(vs.take(i as int + 1)));
            } else {
                assert(" "@ =~= seq![' ']);
                assert(out@ =~= joined_pairs(vs.take(i as int + 1)));
            }
        }
        i = i + 1;
    }
    proof {
        assert(vs.take(n as int) =~= vs);
    }
    out
}

/// Builds the complete exported SVG document: the fixed head, the pairs
/// joined with spaces, and the fixed tail, with nothing else in between.
pub fn svg_document(pairs: &Vec<String>) -> (r: String)
    ensures
        r@ == svg_document_model(views_of(pairs@)),
{
    let mut out = String::new();
    out.append(
        "<svg viewBox=\"-20 -20 40 40\" xmlns=\"http://www.w3.org/2000/svg\">\n  <polyline stroke=\"black\" fill=\"none\" stroke-width=\"0.1\" points=\"",
    );
    let points = polyline_points(pairs);
    out.append(points.as_str());
    out.append("\"/>\n</svg>\n");
    proof {
        assert(out@ =~= svg_document_model(views_of(pairs@)));
    }
    out
}

} // verus!
