use vstd::prelude::*;
use rand::Rng;

verus! {

/// One read-only shared item.
pub struct Element {
    pub value: String,
}

/// The read-only shared items: `a`, `b`, `c`, `d`, in this order.
pub fn init() -> (r: Vec<Element>)
    ensures
        r@.len() == 4,
        r@[0].value@ == "a"@,
        r@[1].value@ == "b"@,
        r@[2].value@ == "c"@,
        r@[3].value@ == "d"@,
{
    broadcast use vstd::string::group_string_axioms;

    let mut r: Vec<Element> = Vec::new();
    r.push(Element { value: "a".to_string() });
    r.push(Element { value: "b".to_string() });
    r.push(Element { value: "c".to_string() });
    r.push(Element { value: "d".to_string() });
    r
}

/// `rand::thread_rng().gen_range(0..len)`: a random index below `len`. The crate
/// documents that the call panics on an empty range, hence `len > 0`. The value is
/// random, so only its range is stated.
#[verifier::external_body]
fn random_below(len: usize) -> (r: usize)
    requires
        len > 0,
    ensures
        r < len,
{
    rand::thread_rng().gen_range(0..len)
}

/// A random index into the shared items.
pub fn get_random_index(resources: &Vec<Element>) -> (r: usize)
    requires
        resources@.len() > 0,
    ensures
        r < resources@.len(),
{
    random_below(resources.len())
}

} // verus!
