//! Optional query parameters, kept as a list of pairs with unique names.
use vstd::prelude::*;

use crate::opt_view;
use crate::encoding::{form_decode, form_decoded, form_encode, form_encoded, form_plain, lemma_form_encoded_plain, joined_pairs, pairs_view, plain_pairs, Pairs};

verus! {

/// No two pairs share a name.
pub open spec fn unique_names(p: Pairs) -> bool {
    forall|i: int, j: int| 0 <= i < j < p.len() ==> (#[trigger] p[i]).0 != (#[trigger] p[j]).0
}

pub open spec fn has_name(p: Pairs, k: Seq<char>) -> bool {
    exists|i: int| 0 <= i < p.len() && (#[trigger] p[i]).0 == k
}

/// The pairs after setting `k` to `v`: an existing pair of that name takes
/// the new value in place; otherwise the pair is added at the end.
pub open spec fn inserted(p: Pairs, k: Seq<char>, v: Seq<char>) -> Pairs {
    if has_name(p, k) {
        p.update(choose|i: int| 0 <= i < p.len() && (#[trigger] p[i]).0 == k, (k, v))
    } else {
        p.push((k, v))
    }
}

/// The text of a boolean parameter.
pub open spec fn bool_text(b: bool) -> Seq<char> {
    if b {
        "true"@
    } else {
        "false"@
    }
}

pub(crate) fn bool_string(b: bool) -> (r: String)
    ensures
        r@ == bool_text(b),
{
    if b {
        String::from_str("true")
    } else {
        String::from_str("false")
    }
}

/// Set parameter `key` to `value`.
pub(crate) fn insert_param(params: &mut Vec<(String, String)>, key: &str, value: String)
    requires
        unique_names(pairs_view(old(params)@)),
    ensures
        pairs_view(final(params)@) == inserted(pairs_view(old(params)@), key@, value@),
        unique_names(pairs_view(final(params)@)),
{
    let ghost p0 = pairs_view(params@);
    let k = String::from_str(key);
    let mut i: usize = 0;
    while i < params.len()
        invariant
            0 <= i <= params.len(),
            params@ == old(params)@,
            p0 == pairs_view(params@),
            unique_names(p0),
            k@ == key@,
            forall|j: int| 0 <= j < i ==> (#[trigger] p0[j]).0 != key@,
        decreases params.len() - i,
    {
        if params[i].0 == k {
            proof {
                assert(p0[i as int].0 == key@);
                assert(has_name(p0, key@));
                let c = choose|c: int| 0 <= c < p0.len() && (#[trigger] p0[c]).0 == key@;
                assert(c == i);
            }
            params.set(i, (k, value));
            assert(pairs_view(params@) =~= inserted(p0, key@, value@));
            return;
        }
        i += 1;
    }
    assert(!has_name(p0, key@));
    params.push((k, value));
    assert(pairs_view(params@) =~= inserted(p0, key@, value@));
}

/// A copy of the pairs.
pub(crate) fn copy_pairs(params: &Vec<(String, String)>) -> (r: Vec<(String, String)>)
    ensures
        pairs_view(r@) == pairs_view(params@),
{
    let mut r: Vec<(String, String)> = Vec::new();
    let mut i: usize = 0;
    while i < params.len()
        invariant
            0 <= i <= params.len(),
            r@.len() == i,
            pairs_view(r@) == pairs_view(params@).subrange(0, i as int),
        decreases params.len() - i,
    {
        let k = params[i].0.clone();
        let v = params[i].1.clone();
        assert(k@ == params@[i as int].0@ && v@ == params@[i as int].1@);
        let ghost r0 = r@;
        r.push((k, v));
        proof {
            assert(r@ == r0.push((k, v)));
            assert forall|j: int| 0 <= j <= i implies #[trigger] pairs_view(r@)[j] == pairs_view(
                params@,
            )[j] by {
                if j < i {
                    assert(r@[j] == r0[j]);
                    assert(pairs_view(r0)[j] == pairs_view(params@).subrange(0, i as int)[j]);
                }
            }
        }
        i += 1;
        assert(pairs_view(r@) =~= pairs_view(params@).subrange(0, i as int));
    }
    assert(pairs_view(params@).subrange(0, i as int) =~= pairs_view(params@));
    r
}

/// The query string of a list of parameters: none when the list is empty.
pub open spec fn query_of(p: Pairs) -> Option<Seq<char>> {
    if p.len() == 0 {
        None
    } else {
        Some(form_encoded(p))
    }
}

/// The form-encoded query string of the parameters, if there are any.
pub(crate) fn query_string(params: &Vec<(String, String)>) -> (r: Option<String>)
    ensures
        opt_view(r) == query_of(pairs_view(params@)),
        plain_pairs(pairs_view(params@)) && params@.len() > 0 ==> opt_view(r) == Some(
            joined_pairs(pairs_view(params@)),
        ),
{
    if params.len() == 0 {
        None
    } else {
        proof {
            if plain_pairs(pairs_view(params@)) {
                lemma_form_encoded_plain(pairs_view(params@));
            }
        }
        Some(form_encode(params))
    }
}

/// The pairs that a form-encoded query string holds, in order.
pub fn parse_query_string(query: &str) -> (r: Vec<(String, String)>)
    ensures
        pairs_view(r@) == form_decoded(query@),
        forall|p: Pairs| plain_pairs(p) && query@ == #[trigger] joined_pairs(p) ==> pairs_view(r@) == p,
        forall|p: Pairs| query@ == #[trigger] form_encoded(p) ==> pairs_view(r@) == p,
{
    let r = form_decode(query);
    assert forall|p: Pairs| plain_pairs(p) && query@ == #[trigger] joined_pairs(p) implies pairs_view(
        r@,
    ) == p by {
        lemma_form_encoded_plain(p);
    }
    r
}

/// Setting `statistics` on no parameters gives the one pair
/// `statistics=<value>`, which is written as it is.
pub proof fn lemma_statistics_query(b: bool)
    ensures
        ({
            let p = inserted(Seq::empty(), "statistics"@, bool_text(b));
            &&& p == seq![("statistics"@, bool_text(b))]
            &&& plain_pairs(p)
            &&& joined_pairs(p) == "statistics"@ + seq!['='] + bool_text(b)
        }),
{
    reveal_strlit("statistics");
    reveal_strlit("true");
    reveal_strlit("false");
    let p = inserted(Seq::empty(), "statistics"@, bool_text(b));
    assert(!has_name(Seq::empty(), "statistics"@));
    assert(p =~= seq![("statistics"@, bool_text(b))]);
    assert(form_plain("statistics"@));
    assert(form_plain(bool_text(b)));
}

} // verus!
