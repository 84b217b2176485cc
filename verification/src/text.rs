//! Building message text out of string pieces.

use vstd::prelude::*;

verus! {

/// The pieces written one after the other with `sep` between each two.
pub open spec fn joined(pieces: Seq<Seq<char>>, sep: Seq<char>) -> Seq<char>
    decreases pieces.len(),
{
    if pieces.len() == 0 {
        Seq::empty()
    } else if pieces.len() == 1 {
        pieces[0]
    } else {
        joined(pieces.drop_last(), sep) + sep + pieces.last()
    }
}

/// The texts of a sequence of strings.
pub open spec fn texts(items: Seq<String>) -> Seq<Seq<char>> {
    items.map_values(|s: String| s@)
}

/// Joins strings with a separator, as `[String]::join` does.
pub fn join_strings(items: &Vec<String>, sep: &str) -> (r: String)
    ensures
        r@ == joined(texts(items@), sep@),
{
    let mut r = String::new();
    let n: usize = items.len();
    let mut i: usize = 0;
    while i < n
        invariant
            n == items.len(),
            i <= n,
            r@ == joined(texts(items@).take(i as int), sep@),
        decreases n - i,
    {
        let ghost before = r@;
        if i > 0 {
            r.append(sep);
        }
        r.append(items[i].as_str());
        proof {
            let pieces = texts(items@).take(i + 1);
            assert(pieces.drop_last() =~= texts(items@).take(i as int));
            assert(pieces.last() == items@[i as int]@);
            if i == 0 {
                assert(r@ =~= pieces[0]);
            } else {
                assert(r@ =~= before + sep@ + items@[i as int]@);
            }
        }
        i = i + 1;
    }
    assert(texts(items@).take(n as int) =~= texts(items@));
    r
}

} // verus!
