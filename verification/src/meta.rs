//! Modeled platform metadata.
//!
//! The cluster links a dependent object to its owner through an owner
//! reference; the platform garbage-collects the dependent when the owner
//! disappears.  The controller only ever reads and writes the fields modeled
//! here, as plain strings.

use vstd::prelude::*;

verus! {

/// An ownership link from a derived object to the resource that produced it.
///
/// A reference must always carry the owner's API group/version, kind, name
/// and stable unique identifier; constructors fail rather than default a
/// missing name or identifier.
pub struct OwnerReference {
    pub api_version: String,
    pub kind: String,
    pub name: String,
    pub uid: String,
    /// `Some(true)` marks the single managing owner of the object.
    pub controller: Option<bool>,
}

impl Clone for OwnerReference {
    fn clone(&self) -> (res: Self)
        ensures
            res == *self,
    {
        OwnerReference {
            api_version: self.api_version.clone(),
            kind: self.kind.clone(),
            name: self.name.clone(),
            uid: self.uid.clone(),
            controller: match self.controller {
                Some(b) => Some(b),
                None => None,
            },
        }
    }
}

/// Duplicates a vector of owner references, element for element.
pub fn clone_owner_references(refs: &Vec<OwnerReference>) -> (res: Vec<OwnerReference>)
    ensures
        res@ == refs@,
{
    let mut res: Vec<OwnerReference> = Vec::new();
    let mut i: usize = 0;
    while i < refs.len()
        invariant
            i <= refs.len(),
            res@ == refs@.subrange(0, i as int),
        decreases refs.len() - i,
    {
        res.push(refs[i].clone());
        i = i + 1;
        proof {
            assert(res@ =~= refs@.subrange(0, i as int));
        }
    }
    proof {
        assert(res@ =~= refs@);
    }
    res
}

} // verus!
