use vstd::prelude::*;

verus! {

/// A JSON reply whose body is a flat object of string fields, in order.
#[derive(Debug, Clone)]
pub struct Reply {
    /// The HTTP status code.
    pub status: u16,
    /// The fields of the JSON object, as (key, value) pairs in order.
    pub body: Vec<(String, String)>,
}

impl View for Reply {
    type V = (u16, Seq<(Seq<char>, Seq<char>)>);

    open spec fn view(&self) -> (u16, Seq<(Seq<char>, Seq<char>)>) {
        (self.status, self.body.deep_view())
    }
}

/// Builds a (key, value) pair of the body.
pub fn field(key: &str, value: &str) -> (r: (String, String))
    ensures
        r.0@ == key@,
        r.1@ == value@,
{
    (String::from_str(key), String::from_str(value))
}

/// A reply with a single field.
pub fn reply1(status: u16, key: &str, value: &str) -> (r: Reply)
    ensures
        r@ == (status, seq![(key@, value@)]),
{
    let mut body: Vec<(String, String)> = Vec::new();
    body.push(field(key, value));
    let r = Reply { status, body };
    assert(r.body.deep_view() =~= seq![(key@, value@)]);
    r
}

/// A reply with two fields.
pub fn reply2(status: u16, key1: &str, value1: &str, key2: &str, value2: &str) -> (r: Reply)
    ensures
        r@ == (status, seq![(key1@, value1@), (key2@, value2@)]),
{
    let mut body: Vec<(String, String)> = Vec::new();
    body.push(field(key1, value1));
    body.push(field(key2, value2));
    let r = Reply { status, body };
    assert(r.body.deep_view() =~= seq![(key1@, value1@), (key2@, value2@)]);
    r
}

} // verus!
