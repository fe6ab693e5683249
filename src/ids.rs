use vstd::prelude::*;
use vstd::set_lib::{lemma_int_range, lemma_len_subset, set_int_range};

verus! {

/// The 128-bit value of the UUID that uuid's `Uuid::parse_str` reads from a text, if any.
pub uninterp spec fn uuid_value(text: Seq<char>) -> Option<u128>;

/// Relies on uuid's `Uuid::new_v4`: a fresh random identifier, as its 128-bit value.
/// Nothing is known of the value.
#[verifier::external_body]
pub(crate) fn new_id() -> (r: u128) {
    uuid::Uuid::new_v4().as_u128()
}

/// Relies on uuid's `Uuid::parse_str` and `Uuid::as_u128`: the identifier written in the
/// text, `None` where the text is no UUID.
#[verifier::external_body]
pub fn get_uuid_from_string(text: &str) -> (r: Option<u128>)
    ensures
        r == uuid_value(text@),
{
    match uuid::Uuid::parse_str(text) {
        Ok(u) => Some(u.as_u128()),
        Err(_) => None,
    }
}

} // verus!

verus! {

fn holds(ids: &Vec<u128>, v: u128) -> (r: bool)
    ensures
        r == ids@.contains(v),
{
    let mut i: usize = 0;
    while i < ids.len()
        invariant
            0 <= i <= ids@.len(),
            forall|t: int| 0 <= t < i ==> ids@[t] != v,
        decreases ids@.len() - i,
    {
        if ids[i] == v {
            assert(ids@[i as int] == v);
            return true;
        }
        i = i + 1;
    }
    false
}

/// Where `ids` holds every value from 0 to `n`, it has more than `n` entries.
proof fn lemma_values_need_room(ids: Seq<u128>, n: int)
    requires
        0 <= n <= u128::MAX,
        forall|v: int| 0 <= v <= n ==> ids.contains(#[trigger] (v as u128)),
    ensures
        n < ids.len(),
{
    let m = ids.map_values(|x: u128| x as int);
    let range = set_int_range(0, n + 1);
    assert forall|v: int| range.contains(v) implies m.to_set().contains(v) by {
        assert(ids.contains(v as u128));
        let i = choose|i: int| 0 <= i < ids.len() && ids[i] == v as u128;
        assert(m[i] == v);
    }
    lemma_int_range(0, n + 1);
    lemma_len_subset(range, m.to_set());
    m.lemma_cardinality_of_set();
}

/// An identifier that none of `ids` is: `drawn` where it is free, otherwise the least free
/// value.
pub fn fresh_id(ids: &Vec<u128>, drawn: u128) -> (r: u128)
    ensures
        !ids@.contains(r),
        !ids@.contains(drawn) ==> r == drawn,
{
    if !holds(ids, drawn) {
        return drawn;
    }
    let n = ids.len();
    let mut c: u128 = 0;
    loop
        invariant
            n == ids@.len(),
            ids@.contains(drawn),
            c <= ids@.len(),
            forall|v: int| 0 <= v < c ==> ids@.contains(#[trigger] (v as u128)),
        decreases ids@.len() - c,
    {
        if !holds(ids, c) {
            return c;
        }
        proof {
            assert forall|v: int| 0 <= v <= c implies ids@.contains(#[trigger] (v as u128)) by {
                if v == c {
                } else {
                    assert(ids@.contains(v as u128));
                }
            }
            lemma_values_need_room(ids@, c as int);
        }
        c = c + 1;
    }
}

} // verus!
