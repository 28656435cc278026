use vstd::prelude::*;
use vstd::utf8::encode_utf8;

verus! {

/// The length of a name in code units: the bytes of its UTF-8 form.
pub open spec fn name_len(name: Seq<char>) -> nat {
    encode_utf8(name).len()
}

/// The length of `name` in bytes.
pub fn byte_len(name: &String) -> (n: usize)
    ensures
        n == name_len(name@),
{
    name.as_str().as_bytes().len()
}

} // verus!
