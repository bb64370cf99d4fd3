pub mod decimal;
pub mod enums;
pub mod queries;
pub mod query_params;
pub mod types;


use vstd::prelude::*;

verus! {

/// A blockchain address in its textual form, such as `0:1f3a...`.
pub type Address = String;

/// A copy of an optional text.
pub fn copy_text(t: &Option<String>) -> (res: Option<String>)
    ensures
        res == *t,
{
    match t {
        Some(s) => Some(s.clone()),
        None => None,
    }
}

/// A copy of a list of texts.
pub fn copy_texts(v: &Vec<String>) -> (res: Vec<String>)
    ensures
        res@ == v@,
{
    let mut res: Vec<String> = Vec::new();
    for i in 0..v.len()
        invariant
            res@ == v@.take(i as int),
    {
        res.push(v[i].clone());
        proof {
            assert(v@.take(i as int + 1) =~= v@.take(i as int).push(v@[i as int]));
        }
    }
    proof {
        assert(v@.take(v@.len() as int) =~= v@);
    }
    res
}

} // verus!
