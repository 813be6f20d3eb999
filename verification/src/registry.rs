//! The names that the sandbox binds and scripts may not declare.

use vstd::prelude::*;
use vstd::string::StringSliceAdditionalSpecFns;
use vstd::utf8::encode_utf8_decode_utf8;

verus! {

/// The reserved names: the namespaces that the sandbox provides.
pub open spec fn reserved_names() -> Set<Seq<char>> {
    set![
        "record"@,
        "map"@,
        "list"@,
        "aerospike"@,
        "bytes"@,
        "geojson"@,
        "iterator"@,
        "stream"@,
    ]
}

/// The registry holds eight names, each once.
pub proof fn lemma_reserved_names_are_eight()
    ensures
        reserved_names().finite(),
        reserved_names().len() == 8,
{
    reveal_strlit("record");
    reveal_strlit("map");
    reveal_strlit("list");
    reveal_strlit("aerospike");
    reveal_strlit("bytes");
    reveal_strlit("geojson");
    reveal_strlit("iterator");
    reveal_strlit("stream");
    assert("record"@.len() == 6 && "map"@.len() == 3 && "list"@.len() == 4);
    assert("aerospike"@.len() == 9 && "bytes"@.len() == 5 && "geojson"@.len() == 7);
    assert("iterator"@.len() == 8 && "stream"@.len() == 6);
    assert("record"@[0] != "stream"@[0]);
    let s1 = Set::<Seq<char>>::empty().insert("record"@);
    let s2 = s1.insert("map"@);
    let s3 = s2.insert("list"@);
    let s4 = s3.insert("aerospike"@);
    let s5 = s4.insert("bytes"@);
    let s6 = s5.insert("geojson"@);
    let s7 = s6.insert("iterator"@);
    let s8 = s7.insert("stream"@);
    assert(s1.len() == 1);
    assert(s2.len() == 2);
    assert(s3.len() == 3);
    assert(s4.len() == 4);
    assert(s5.len() == 5);
    assert(s6.len() == 6);
    assert(s7.len() == 7);
    assert(s8.len() == 8);
    assert(reserved_names() =~= s8);
}

/// Whether two strings hold the same characters.
pub fn same_text(a: &str, b: &str) -> (same: bool)
    ensures
        same == (a@ == b@),
{
    let x = a.as_bytes();
    let y = b.as_bytes();
    proof {
        encode_utf8_decode_utf8(a@);
        encode_utf8_decode_utf8(b@);
    }
    if x.len() != y.len() {
        return false;
    }
    let mut i: usize = 0;
    while i < x.len()
        invariant
            i <= x.len(),
            x.len() == y.len(),
            x@ == a.spec_bytes(),
            y@ == b.spec_bytes(),
            forall|k: int| 0 <= k < i ==> x@[k] == y@[k],
        decreases x.len() - i,
    {
        if x[i] != y[i] {
            return false;
        }
        i = i + 1;
    }
    assert(x@ =~= y@);
    true
}

/// Whether `s` is a reserved name. The match is exact: case matters and
/// nothing is trimmed.
pub fn is_reserved(s: &str) -> (reserved: bool)
    ensures
        reserved == reserved_names().contains(s@),
{
    same_text(s, "record") || same_text(s, "map") || same_text(s, "list") || same_text(
        s,
        "aerospike",
    ) || same_text(s, "bytes") || same_text(s, "geojson") || same_text(s, "iterator") || same_text(
        s,
        "stream",
    )
}

} // verus!
