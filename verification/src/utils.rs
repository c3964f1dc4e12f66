//! Joining of grapheme clusters and string slices back into contiguous text.

use crate::segment::cluster_views;
use vstd::prelude::*;
use vstd::slice::slice_index_get;

verus! {

/// The characters of clusters `[i, i + n)` of `cs`, joined in order.
pub open spec fn join_clusters(cs: Seq<Seq<char>>, i: int, n: int) -> Seq<char>
    decreases n,
{
    if n <= 0 {
        Seq::empty()
    } else {
        cs[i] + join_clusters(cs, i + 1, n - 1)
    }
}

/// Extending a join by one more cluster appends that cluster's characters.
pub proof fn lemma_join_snoc(cs: Seq<Seq<char>>, i: int, n: int)
    requires
        n >= 0,
    ensures
        join_clusters(cs, i, n + 1) =~= join_clusters(cs, i, n) + cs[i + n],
    decreases n,
{
    if n == 0 {
        assert(join_clusters(cs, i, 1) =~= cs[i] + join_clusters(cs, i + 1, 0));
        assert(join_clusters(cs, i, 0) + cs[i] =~= cs[i]);
    } else {
        lemma_join_snoc(cs, i + 1, n - 1);
        assert(join_clusters(cs, i, n + 1) == cs[i] + join_clusters(cs, i + 1, n));
        assert(cs[i] + (join_clusters(cs, i + 1, n - 1) + cs[i + n]) =~= (cs[i]
            + join_clusters(cs, i + 1, n - 1)) + cs[i + n]);
    }
}

/// The characters of the clusters `[from, to)` of the source, joined into one
/// lexeme.
pub fn take_slice(source: &Vec<Vec<char>>, from: usize, to: usize) -> (r: Vec<char>)
    requires
        from <= to <= source@.len(),
    ensures
        r@ == join_clusters(cluster_views(source@), from as int, to - from),
{
    let ghost cs = cluster_views(source@);
    let mut r: Vec<char> = Vec::new();
    let mut i: usize = from;
    while i < to
        invariant
            from <= i <= to <= source@.len(),
            cs == cluster_views(source@),
            r@ == join_clusters(cs, from as int, i - from),
        decreases to - i,
    {
        let cluster = &source[i];
        let mut j: usize = 0;
        while j < cluster.len()
            invariant
                from <= i < to <= source@.len(),
                cs == cluster_views(source@),
                j <= cluster@.len(),
                cluster@ == source@[i as int]@,
                r@ == join_clusters(cs, from as int, i - from) + cluster@.take(j as int),
            decreases cluster@.len() - j,
        {
            r.push(cluster[j]);
            proof {
                assert(cluster@.take(j + 1) =~= cluster@.take(j as int).push(cluster@[j as int]));
                assert(r@ =~= join_clusters(cs, from as int, i - from) + cluster@.take(j + 1));
            }
            j = j + 1;
        }
        proof {
            lemma_join_snoc(cs, from as int, i - from);
            assert(cs[from + (i - from)] == cluster@);
            assert(cluster@.take(j as int) =~= cluster@);
            assert(r@ =~= join_clusters(cs, from as int, i + 1 - from));
        }
        i = i + 1;
    }
    r
}

/// The views of a sequence of string slices.
pub open spec fn str_views(vs: Seq<&str>) -> Seq<Seq<char>> {
    Seq::new(vs.len(), |i: int| vs[i]@)
}

/// Joins a run of string slices into one owned string holding exactly their
/// characters in order.
pub fn concat_contiguous_strs(slices: &[&str]) -> (r: String)
    ensures
        r@ == join_clusters(str_views(slices@), 0, slices@.len() as int),
{
    let ghost vs = str_views(slices@);
    let mut r = String::new();
    let n = slices.len();
    let mut i: usize = 0;
    while i < n
        invariant
            i <= n == slices@.len(),
            vs == str_views(slices@),
            r@ == join_clusters(vs, 0, i as int),
        decreases n - i,
    {
        let piece: &str = *slice_index_get(slices, i);
        r.append(piece);
        proof {
            lemma_join_snoc(vs, 0, i as int);
            assert(r@ =~= join_clusters(vs, 0, i + 1));
        }
        i = i + 1;
    }
    r
}

/// Whether a character vector holds exactly the characters of a string.
pub fn vec_eq_str(v: &Vec<char>, s: &str) -> (r: bool)
    ensures
        r == (v@ == s@),
{
    let n = s.unicode_len();
    if v.len() != n {
        return false;
    }
    let mut i: usize = 0;
    while i < n
        invariant
            i <= n,
            n == s@.len(),
            n == v@.len(),
            forall|j: int| 0 <= j < i ==> v@[j] == s@[j],
        decreases n - i,
    {
        if v[i] != s.get_char(i) {
            return false;
        }
        i = i + 1;
    }
    proof {
        assert(v@ =~= s@);
    }
    true
}

/// Relies on `String`'s `FromIterator`: collecting characters yields the
/// string of exactly those characters.
#[verifier::external_body]
pub(crate) fn string_of_chars(v: &Vec<char>) -> (r: String)
    ensures
        r@ == v@,
{
    v.iter().collect()
}

} // verus!
