//! What the pipelines need to know of a mesh: the names of the vertex
//! attributes that it carries.

use vstd::prelude::*;
use vstd::string::StringSliceAdditionalSpecFns;
use vstd::utf8::encode_utf8_decode_utf8;

verus! {

/// The vertex attributes of a mesh, by name.
#[derive(Clone, Debug, PartialEq)]
pub struct MeshCapability {
    /// Names of the attributes, in the order of the mesh.
    pub attributes: Vec<String>,
}

/// Tells whether two byte strings are the same.
fn same_bytes(a: &[u8], b: &[u8]) -> (same: bool)
    ensures
        same == (a@ == b@),
{
    if a.len() != b.len() {
        return false;
    }
    let mut i: usize = 0;
    while i < a.len()
        invariant
            a@.len() == b@.len(),
            i <= a@.len(),
            a@.take(i as int) == b@.take(i as int),
        decreases a@.len() - i,
    {
        if a[i] != b[i] {
            return false;
        }
        assert(a@.take(i + 1) == a@.take(i as int).push(a@[i as int]));
        assert(b@.take(i + 1) == b@.take(i as int).push(b@[i as int]));
        i += 1;
    }
    assert(a@.take(a@.len() as int) == a@);
    assert(b@.take(b@.len() as int) == b@);
    true
}

/// Tells whether two names are the same.
fn same_name(a: &str, b: &str) -> (same: bool)
    ensures
        same == (a@ == b@),
{
    proof {
        encode_utf8_decode_utf8(a@);
        encode_utf8_decode_utf8(b@);
    }
    same_bytes(a.as_bytes(), b.as_bytes())
}

impl MeshCapability {
    /// Whether the mesh carries an attribute of the given name.
    pub open spec fn has(&self, name: Seq<char>) -> bool {
        exists|i: int| 0 <= i < self.attributes@.len() && (#[trigger] self.attributes@[i])@ == name
    }

    /// Looks for an attribute of the given name.
    pub fn has_attribute(&self, name: &str) -> (found: bool)
        ensures
            found == self.has(name@),
    {
        let mut i: usize = 0;
        while i < self.attributes.len()
            invariant
                i <= self.attributes@.len(),
                forall|j: int| 0 <= j < i ==> (#[trigger] self.attributes@[j])@ != name@,
            decreases self.attributes@.len() - i,
        {
            if same_name(self.attributes[i].as_str(), name) {
                return true;
            }
            i += 1;
        }
        false
    }
}

} // verus!
