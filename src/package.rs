use vstd::prelude::*;

verus! {

/// One entry of the package registry's catalogue.
#[derive(Clone, Debug, PartialEq, Eq)]
pub struct Package {
    pub name: String,
    pub summary: String,
    pub license: String,
    pub version: String,
}

impl Package {
    /// A field-for-field copy of this record.
    pub fn duplicate(&self) -> (r: Package)
        ensures
            r == *self,
    {
        Package {
            name: self.name.clone(),
            summary: self.summary.clone(),
            license: self.license.clone(),
            version: self.version.clone(),
        }
    }
}

/// A copy of a whole collection, element for element.
pub fn duplicate_all(packages: &Vec<Package>) -> (r: Vec<Package>)
    ensures
        r@ == packages@,
{
    let mut r: Vec<Package> = Vec::new();
    let mut i: usize = 0;
    while i < packages.len()
        invariant
            i <= packages.len(),
            r@ == packages@.take(i as int),
        decreases packages.len() - i,
    {
        r.push(packages[i].duplicate());
        i = i + 1;
        assert(r@ =~= packages@.take(i as int));
    }
    assert(packages@.take(packages.len() as int) =~= packages@);
    r
}

} // verus!
