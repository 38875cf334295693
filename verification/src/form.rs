//! Decoding of `application/x-www-form-urlencoded` text into key/value
//! pairs, and lookup of a field among them.

use vstd::prelude::*;

verus! {

/// The key/value pairs that form-urlencoded decoding yields for a byte
/// string: split on `&` and `=`, `+` and percent escapes decoded.
pub uninterp spec fn form_pairs_of(input: Seq<u8>) -> Seq<(Seq<char>, Seq<char>)>;

/// The views of a vector of owned pairs.
pub open spec fn pairs_view(pairs: Seq<(String, String)>) -> Seq<(Seq<char>, Seq<char>)> {
    pairs.map_values(|p: (String, String)| (p.0@, p.1@))
}

/// Relies on `url::form_urlencoded::parse`: decodes the byte string into
/// (name, value) pairs, a function of the bytes alone; empty input yields no
/// pairs.
#[verifier::external_body]
fn decode_form(input: &[u8]) -> (r: Vec<(String, String)>)
    ensures
        pairs_view(r@) == form_pairs_of(input@),
        input@.len() == 0 ==> r@.len() == 0,
{
    url::form_urlencoded::parse(input).into_owned().collect()
}

/// The value of the last pair named `name`, if any: the occurrence that wins
/// when the pairs are gathered into a map.
pub open spec fn lookup_field(pairs: Seq<(Seq<char>, Seq<char>)>, name: Seq<char>) -> Option<
    Seq<char>,
>
    decreases pairs.len(),
{
    if pairs.len() == 0 {
        None
    } else if pairs.last().0 == name {
        Some(pairs.last().1)
    } else {
        lookup_field(pairs.drop_last(), name)
    }
}

/// Decode a form-encoded byte string and return the value of the given
/// field: the last occurrence, as a map built from the pairs would hold it.
pub fn form_field(input: &[u8], name: &str) -> (r: Option<String>)
    ensures
        match lookup_field(form_pairs_of(input@), name@) {
            Some(v) => r is Some && r->0@ == v,
            None => r is None,
        },
{
    let pairs = decode_form(input);
    let ghost pview = pairs_view(pairs@);
    let mut i: usize = pairs.len();
    proof {
        assert(pview.take(i as int) =~= pview);
    }
    while i > 0
        invariant
            0 <= i <= pairs@.len(),
            pview == pairs_view(pairs@),
            pview == form_pairs_of(input@),
            pview.len() == pairs@.len(),
            lookup_field(pview, name@) == lookup_field(pview.take(i as int), name@),
        decreases i,
    {
        let p = &pairs[i - 1];
        if crate::text::str_eq(p.0.as_str(), name) {
            proof {
                assert(pview.take(i as int).last() == (p.0@, p.1@));
            }
            return Some(p.1.clone());
        }
        proof {
            assert(pview.take(i as int).drop_last() =~= pview.take(i - 1));
            assert(pview.take(i as int).last() == (p.0@, p.1@));
        }
        i = i - 1;
    }
    proof {
        assert(pview.take(0) =~= Seq::<(Seq<char>, Seq<char>)>::empty());
    }
    None
}

} // verus!
