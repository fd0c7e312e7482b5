//! The order in which templates are listed: built-in templates first, each group by
//! name.
use vstd::prelude::*;

use crate::sorting::{ascending_order, is_arrangement, is_ascending, lex_less};
use crate::text::{append_chars, chars_of};

verus! {

/// The key a template is listed by: `0` for a built-in template and `1` for another,
/// then its name; ascending keys list built-in templates first, each group by name.
pub open spec fn listing_key(is_builtin: bool, name: Seq<char>) -> Seq<char> {
    seq![if is_builtin { '0' } else { '1' }] + name
}

/// The positions of templates, given as (built-in, name), in the order they are
/// listed: built-in templates before the others, and names ascending within each group
/// (templates with the same name keep their order).
pub fn template_listing_order(templates: &Vec<(bool, String)>) -> (order: Vec<usize>)
    ensures
        is_arrangement(order@, templates@.len() as int),
        forall|i: int, j: int|
            0 <= i < j < order@.len() && templates@[order@[j] as int].0 ==> #[trigger] templates@[order@[i] as int].0
                && #[trigger] templates@[order@[j] as int].0,
        forall|i: int, j: int|
            0 <= i < j < order@.len() && templates@[order@[i] as int].0 == templates@[order@[j] as int].0
                ==> !lex_less(
                #[trigger] templates@[order@[j] as int].1@,
                #[trigger] templates@[order@[i] as int].1@,
            ),
{
    let mut keys: Vec<Vec<char>> = Vec::new();
    let mut k: usize = 0;
    while k < templates.len()
        invariant
            k <= templates@.len(),
            keys@.len() == k,
            forall|m: int|
                0 <= m < k ==> (#[trigger] keys@[m])@ == listing_key(
                    templates@[m].0,
                    templates@[m].1@,
                ),
        decreases templates.len() - k,
    {
        let mut key = if templates[k].0 {
            vec!['0']
        } else {
            vec!['1']
        };
        append_chars(&mut key, &chars_of(templates[k].1.as_str()));
        proof {
            assert(key@ =~= listing_key(templates@[k as int].0, templates@[k as int].1@));
        }
        keys.push(key);
        k += 1;
    }
    let order = ascending_order(&keys);
    proof {
        let ks = keys@.map_values(|x: Vec<char>| x@);
        assert forall|i: int, j: int|
            0 <= i < j < order@.len() && templates@[order@[j] as int].0 implies #[trigger] templates@[order@[i] as int].0
                && #[trigger] templates@[order@[j] as int].0 by {
            let a = ks[order@[i] as int];
            let b = ks[order@[j] as int];
            assert(!lex_less(b, a));
            assert(b[0] == '0');
            if !templates@[order@[i] as int].0 {
                assert(a[0] == '1');
                assert(lex_less(b, a));
            }
        }
        assert forall|i: int, j: int|
            0 <= i < j < order@.len() && templates@[order@[i] as int].0 == templates@[order@[j] as int].0
                implies !lex_less(
                #[trigger] templates@[order@[j] as int].1@,
                #[trigger] templates@[order@[i] as int].1@,
            ) by {
            let a = ks[order@[i] as int];
            let b = ks[order@[j] as int];
            assert(!lex_less(b, a));
            assert(a.drop_first() =~= templates@[order@[i] as int].1@);
            assert(b.drop_first() =~= templates@[order@[j] as int].1@);
            assert(a[0] == b[0]);
        }
    }
    order
}

} // verus!
