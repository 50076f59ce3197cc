use crate::bytes::copy_bytes;
use crate::source_map::SourceMap;
use vstd::prelude::*;

verus! {

/// An opaque, densely-assigned handle into a [`PackageStore`]; stable for the
/// lifetime of the store instance that issued it.
pub type PackageId = usize;

/// An opaque token standing for one inferred type, as reported by the
/// external type checker.
#[derive(Clone, Copy, Debug, PartialEq, Eq, Structural)]
pub struct Ty {
    pub code: u64,
}

/// A reference to a declaration: an in-package item index, optionally
/// qualified with the package it lives in.
///
/// `package == None` means the item lives in the same package as the
/// reference itself was found in, so resolving a reference requires knowing
/// the originating package, not just the reference value.
#[derive(Clone, Copy, Debug, PartialEq, Eq)]
pub struct ItemId {
    pub package: Option<PackageId>,
    pub item: usize,
}

/// What a name in user code resolved to, as reported by the external name
/// resolution pass.
#[derive(Clone, Copy, Debug, PartialEq, Eq)]
pub enum Res {
    /// The name denotes a declared item.
    Item(ItemId),
    /// The name denotes a local binding, identified by its node.
    Local(u32),
}

/// One declaration of a compiled package.
#[derive(Debug)]
pub struct Item {
    pub name: Vec<u8>,
}

impl View for Item {
    type V = Seq<u8>;

    open spec fn view(&self) -> Seq<u8> {
        self.name@
    }
}

impl Item {
    /// An owned copy of this item.
    pub fn duplicate(&self) -> (r: Item)
        ensures
            r@ == self@,
    {
        Item { name: copy_bytes(&self.name) }
    }
}

/// The declarations of one compiled package, addressed by item index.
#[derive(Debug)]
pub struct Package {
    pub items: Vec<Item>,
}

/// The result of compiling one coherent unit of sources: the package's
/// declarations, the per-node annotations the external passes produced, and
/// the unit's own slice of the source address space.
#[derive(Debug)]
pub struct CompileUnit {
    /// The declarations of the unit's package.
    pub package: Package,
    /// Inferred type per syntax node; `None` where no type was inferred.
    pub tys: Vec<Option<Ty>>,
    /// Resolution per syntax node; `None` where the name is not yet resolved.
    pub names: Vec<Option<Res>>,
    /// The sources this unit was compiled from.
    pub sources: SourceMap,
}

/// The in-memory collection of all packages of one session, addressable by
/// [`PackageId`]. Identifiers are assigned densely, in insertion order, and
/// never reused by the store instance that issued them.
#[derive(Debug)]
pub struct PackageStore {
    pub units: Vec<CompileUnit>,
}

impl PackageStore {
    /// A store seeded with its first package, which receives identifier 0.
    pub fn new(first: CompileUnit) -> (r: PackageStore)
        ensures
            r.units@.len() == 1,
            r.units@[0] == first,
    {
        let mut units: Vec<CompileUnit> = Vec::new();
        units.push(first);
        PackageStore { units }
    }

    /// Inserts a compiled package, returning the fresh identifier assigned to
    /// it. No existing package moves or changes.
    pub fn insert(&mut self, unit: CompileUnit) -> (r: PackageId)
        ensures
            final(self).units@ == old(self).units@.push(unit),
            r == old(self).units@.len(),
    {
        let id: usize = self.units.len();
        self.units.push(unit);
        id
    }

    /// Looks up a package by identifier; `None` for an identifier this store
    /// never issued.
    pub fn get(&self, id: PackageId) -> (r: Option<&CompileUnit>)
        ensures
            match r {
                Some(unit) => id < self.units@.len() && *unit == self.units@[id as int],
                None => id >= self.units@.len(),
            },
    {
        if id < self.units.len() {
            Some(&self.units[id])
        } else {
            None
        }
    }
}

} // verus!
