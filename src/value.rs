use vstd::prelude::*;

verus! {

/// A self-describing payload value, as the transport hands it over.
///
/// Maps keep their entries in wire order. Floating-point numbers and
/// extension values have no use in this protocol and are carried as `Other`.
#[derive(Debug, PartialEq)]
pub enum Value {
    Nil,
    Bool(bool),
    UInt(u64),
    NegInt(i64),
    Str(String),
    Bin(Vec<u8>),
    Array(Vec<Value>),
    Dict(Vec<(Value, Value)>),
    Other,
}

/// `v` is a string value holding exactly the characters `s`.
pub open spec fn is_str(v: Value, s: Seq<char>) -> bool {
    v matches Value::Str(t) && t@ == s
}

/// No key occurs twice in the entries `s`.
pub open spec fn distinct_keys<V>(s: Seq<(u64, V)>) -> bool {
    forall|i: int, j: int| 0 <= i < j < s.len() ==> #[trigger] s[i].0 != #[trigger] s[j].0
}

/// No name occurs twice in the entries `s`.
pub open spec fn distinct_names<V>(s: Seq<(String, V)>) -> bool {
    forall|i: int, j: int| 0 <= i < j < s.len() ==> #[trigger] s[i].0@ != #[trigger] s[j].0@
}

/// Whether some entry of `s` has the key `k`.
pub fn has_key<V>(s: &Vec<(u64, V)>, k: u64) -> (r: Option<usize>)
    ensures
        match r {
            Some(j) => j < s@.len() && s@[j as int].0 == k,
            None => forall|j: int| 0 <= j < s@.len() ==> #[trigger] s@[j].0 != k,
        },
{
    let mut j: usize = 0;
    while j < s.len()
        invariant
            j <= s@.len(),
            forall|m: int| 0 <= m < j ==> #[trigger] s@[m].0 != k,
        decreases s@.len() - j,
    {
        if s[j].0 == k {
            return Some(j);
        }
        j = j + 1;
    }
    None
}

/// Whether some entry of `s` has the name `k`.
pub fn has_name<V>(s: &Vec<(String, V)>, k: &String) -> (r: Option<usize>)
    ensures
        match r {
            Some(j) => j < s@.len() && s@[j as int].0@ == k@,
            None => forall|j: int| 0 <= j < s@.len() ==> #[trigger] s@[j].0@ != k@,
        },
{
    let mut j: usize = 0;
    while j < s.len()
        invariant
            j <= s@.len(),
            forall|m: int| 0 <= m < j ==> #[trigger] s@[m].0@ != k@,
        decreases s@.len() - j,
    {
        if s[j].0 == *k {
            return Some(j);
        }
        j = j + 1;
    }
    None
}

} // verus!
