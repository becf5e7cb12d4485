use vstd::prelude::*;

verus! {

/// Request parameters as the transport delivered them, in order.
pub type Params = Vec<(String, String)>;

/// The value of parameter `name`; where it is given more than once, the last
/// occurrence counts.
pub open spec fn param_spec(ps: Seq<(String, String)>, name: Seq<char>) -> Option<Seq<char>>
    decreases ps.len(),
{
    if ps.len() == 0 {
        None
    } else if ps.last().0@ == name {
        Some(ps.last().1@)
    } else {
        param_spec(ps.drop_last(), name)
    }
}

/// The value of parameter `name`, or `default` where it is absent.
pub open spec fn param_or_spec(ps: Seq<(String, String)>, name: Seq<char>, default: Seq<char>) -> Seq<char> {
    match param_spec(ps, name) {
        Some(v) => v,
        None => default,
    }
}

/// Looks up parameter `name`.
pub fn param(ps: &Params, name: &str) -> (r: Option<String>)
    ensures
        r.is_some() == param_spec(ps@, name@).is_some(),
        r.is_some() ==> r.unwrap()@ == param_spec(ps@, name@).unwrap(),
{
    let mut i: usize = ps.len();
    let key = name.to_owned();
    proof {
        assert(ps@.subrange(0, ps@.len() as int) =~= ps@);
    }
    while i > 0
        invariant
            i <= ps@.len(),
            key@ == name@,
            param_spec(ps@, name@) == param_spec(ps@.subrange(0, i as int), name@),
        decreases i,
    {
        proof {
            assert(ps@.subrange(0, i - 1) =~= ps@.subrange(0, i as int).drop_last());
        }
        if ps[i - 1].0 == key {
            return Some(ps[i - 1].1.clone());
        }
        i = i - 1;
    }
    proof {
        assert(ps@.subrange(0, 0).len() == 0);
    }
    None
}

/// Looks up parameter `name`, with `default` where it is absent.
pub fn param_or(ps: &Params, name: &str, default: &str) -> (r: String)
    ensures
        r@ == param_or_spec(ps@, name@, default@),
{
    match param(ps, name) {
        Some(v) => v,
        None => default.to_owned(),
    }
}

/// A copy of the parameters, entry for entry.
pub fn copy_params(ps: &Params) -> (r: Params)
    ensures
        r@ == ps@,
{
    let mut r: Params = Vec::new();
    let mut i: usize = 0;
    while i < ps.len()
        invariant
            i <= ps@.len(),
            r@ == ps@.subrange(0, i as int),
        decreases ps.len() - i,
    {
        r.push((ps[i].0.clone(), ps[i].1.clone()));
        i = i + 1;
    }
    assert(ps@.subrange(0, ps@.len() as int) =~= ps@);
    r
}

} // verus!
