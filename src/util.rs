//! Small text helpers.
use vstd::prelude::*;
use vstd::string::*;

verus! {

/// `key=value`.
pub open spec fn query_pair(p: (Seq<char>, Seq<char>)) -> Seq<char> {
    p.0 + "="@ + p.1
}

/// The pairs joined as `k1=v1&k2=v2...`, with no leading `?` and no trailing `&`.
pub open spec fn query_spec(params: Seq<(Seq<char>, Seq<char>)>) -> Seq<char>
    decreases params.len(),
{
    if params.len() == 0 {
        Seq::empty()
    } else if params.len() == 1 {
        query_pair(params[0])
    } else {
        query_spec(params.drop_last()) + "&"@ + query_pair(params.last())
    }
}

/// The texts of a list of string pairs.
pub open spec fn pair_texts(params: Seq<(&str, &str)>) -> Seq<(Seq<char>, Seq<char>)> {
    params.map_values(|p: (&str, &str)| (p.0@, p.1@))
}

/// Builds a URL query string from `params`, without the leading `?`. Names and values are
/// taken as they are: nothing is escaped.
pub fn build_query_string(params: &[(&str, &str)]) -> (r: String)
    ensures
        r@ == query_spec(pair_texts(params@)),
{
    let mut query = String::new();
    let mut i: usize = 0;
    while i < params.len()
        invariant
            0 <= i <= params@.len(),
            query@ == query_spec(pair_texts(params@).take(i as int)),
        decreases params@.len() - i,
    {
        let (k, v) = params[i];
        let ghost before = query@;
        if i > 0 {
            query.append("&");
        }
        query.append(k);
        query.append("=");
        query.append(v);
        proof {
            let ps = pair_texts(params@);
            let t = ps.take(i + 1);
            assert(t.drop_last() =~= ps.take(i as int));
            assert(t.last() == (k@, v@));
            if i == 0 {
                assert(before =~= Seq::<char>::empty());
                assert(query@ =~= query_pair((k@, v@)));
            } else {
                assert(query@ =~= before + "&"@ + query_pair((k@, v@)));
            }
        }
        i = i + 1;
    }
    proof {
        assert(pair_texts(params@).take(params@.len() as int) =~= pair_texts(params@));
    }
    query
}

} // verus!
