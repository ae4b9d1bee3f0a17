//! Joining a sequence of strings with a separator.

use vstd::prelude::*;

verus! {

/// The items joined with `sep` between consecutive items: nothing for no
/// items, the item itself for one, and no leading or trailing separator.
pub open spec fn spec_join(items: Seq<Seq<char>>, sep: Seq<char>) -> Seq<char>
    decreases items.len(),
{
    if items.len() == 0 {
        Seq::empty()
    } else if items.len() == 1 {
        items[0]
    } else {
        spec_join(items.drop_last(), sep) + sep + items.last()
    }
}

/// Joins the views of `items` with `sep`, matching `spec_join`.
pub fn join_all(items: &Vec<String>, sep: &str) -> (r: String)
    ensures
        r@ == spec_join(items@.map_values(|s: String| s@), sep@),
{
    let ghost views = items@.map_values(|s: String| s@);
    let mut r = String::new();
    let mut i: usize = 0;
    while i < items.len()
        invariant
            i <= items.len(),
            views == items@.map_values(|s: String| s@),
            r@ == spec_join(views.take(i as int), sep@),
        decreases items.len() - i,
    {
        if i > 0 {
            r.append(sep);
        }
        r.append(items[i].as_str());
        proof {
            assert(views.take(i + 1).drop_last() =~= views.take(i as int));
            assert(views.take(i + 1).last() == views[i as int]);
            if i == 0 {
                assert(r@ =~= spec_join(views.take(1), sep@));
            }
        }
        i += 1;
    }
    proof {
        assert(views.take(items@.len() as int) =~= views);
    }
    r
}

} // verus!
