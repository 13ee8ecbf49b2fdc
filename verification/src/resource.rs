//! Dictionaries compiled into the program, found by their exact name.

use crate::error::Error;
use vstd::prelude::*;

verus! {

/// One embedded dictionary: the name it goes by and its encoded bytes.
pub struct Resource {
    pub name: String,
    pub bytes: Vec<u8>,
}

/// Entry `i` of the table goes by `name`, and no entry before it does.
pub open spec fn is_first_match(table: Seq<Resource>, name: Seq<char>, i: int) -> bool {
    &&& 0 <= i < table.len()
    &&& table[i].name@ == name
    &&& forall|j: int| 0 <= j < i ==> (#[trigger] table[j]).name@ != name
}

/// The bytes of the first entry of the table that goes by exactly `name`.
pub open spec fn found_in(table: Seq<Resource>, name: Seq<char>) -> Option<Seq<u8>> {
    if exists|i: int| is_first_match(table, name, i) {
        Some(table[choose|i: int| is_first_match(table, name, i)].bytes@)
    } else {
        None
    }
}

/// At most one entry is the first to go by a name.
pub proof fn first_match_is_unique(table: Seq<Resource>, name: Seq<char>, i: int, j: int)
    requires
        is_first_match(table, name, i),
        is_first_match(table, name, j),
    ensures
        i == j,
{
    if i < j {
        assert(table[i].name@ != name);
    }
    if j < i {
        assert(table[j].name@ != name);
    }
}

/// Looks `name` up in the table. Only an entry whose name is exactly `name`
/// matches, and of several the first is taken.
pub fn find_resource<'a>(table: &'a [Resource], name: &String) -> (r: Option<&'a [u8]>)
    ensures
        found_in(table@, name@) == match r {
            Some(bytes) => Some(bytes@),
            None => None::<Seq<u8>>,
        },
{
    let mut i: usize = 0;
    while i < table.len()
        invariant
            i <= table@.len(),
            forall|j: int| 0 <= j < i ==> (#[trigger] table@[j]).name@ != name@,
        decreases table@.len() - i,
    {
        if table[i].name == *name {
            proof {
                assert(is_first_match(table@, name@, i as int));
                let c = choose|c: int| is_first_match(table@, name@, c);
                first_match_is_unique(table@, name@, i as int, c);
            }
            return Some(table[i].bytes.as_slice());
        }
        i = i + 1;
    }
    proof {
        assert forall|c: int| !is_first_match(table@, name@, c) by {
            if 0 <= c < table@.len() {
                assert(table@[c].name@ != name@);
            }
        }
    }
    None
}

/// The name under which a dictionary is embedded: the language's code, the
/// kind of dictionary and the codec's extension, joined by dots.
pub open spec fn resource_name_spec(code: Seq<char>, suffix: Seq<char>) -> Seq<char> {
    code + "."@ + suffix + ".bincode"@
}

/// The name of the embedded dictionary of the given kind for the language
/// with the given code.
pub fn resource_name(code: &str, suffix: &str) -> (r: String)
    ensures
        r@ == resource_name_spec(code@, suffix@),
{
    let mut name = String::from_str(code);
    name.append(".");
    name.append(suffix);
    name.append(".bincode");
    name
}

/// The bytes of the embedded dictionary of the given kind for the language
/// with the given code. A table without an entry of exactly that name gives
/// [`Error::Resource`].
pub fn retrieve_resource<'a>(table: &'a [Resource], code: &str, suffix: &str) -> (r: Result<
    &'a [u8],
    Error,
>)
    ensures
        match found_in(table@, resource_name_spec(code@, suffix@)) {
            Some(bytes) => r is Ok && r->Ok_0@ == bytes,
            None => r == Err::<&[u8], Error>(Error::Resource),
        },
{
    let name = resource_name(code, suffix);
    match find_resource(table, &name) {
        Some(data) => Ok(data),
        None => Err(Error::Resource),
    }
}

} // verus!
