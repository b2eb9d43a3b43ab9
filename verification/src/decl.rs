//! A minimal model of a resolved component manifest: the capability
//! declarations that the routing layer inspects. The only question this
//! layer ever asks of a manifest is whether the instance exposes a given
//! service protocol to the framework.

use vstd::prelude::*;
use crate::storage::CapabilityPath;

verus! {

/// Where an exposed capability is made available.
#[derive(Clone, Copy, Debug, PartialEq, Eq, Structural)]
pub enum ExposeTarget {
    Realm,
    Framework,
}

/// The spec-level value of a protocol expose declaration.
pub struct ExposeDeclView {
    pub target: ExposeTarget,
    pub target_path: Seq<char>,
}

/// One expose declaration of a service protocol: under which path, and to
/// whom, the instance makes the protocol available.
#[derive(Debug)]
pub struct ExposeDecl {
    pub target: ExposeTarget,
    pub target_path: CapabilityPath,
}

impl View for ExposeDecl {
    type V = ExposeDeclView;

    open spec fn view(&self) -> ExposeDeclView {
        ExposeDeclView { target: self.target, target_path: self.target_path@ }
    }
}

impl DeepView for ExposeDecl {
    type V = ExposeDeclView;

    open spec fn deep_view(&self) -> ExposeDeclView {
        self.view()
    }
}

/// A resolved component manifest, reduced to its protocol expose
/// declarations.
#[derive(Debug)]
pub struct ComponentDecl {
    pub exposes: Vec<ExposeDecl>,
}

impl View for ComponentDecl {
    type V = Seq<ExposeDeclView>;

    open spec fn view(&self) -> Seq<ExposeDeclView> {
        self.exposes.deep_view()
    }
}

/// Whether a manifest exposes the protocol at `path` to the framework.
pub open spec fn spec_exposes_to_framework(decl: Seq<ExposeDeclView>, path: Seq<char>) -> bool {
    exists|i: int|
        0 <= i < decl.len() && decl[i].target == ExposeTarget::Framework && decl[i].target_path
            == path
}

impl ComponentDecl {
    pub fn new(exposes: Vec<ExposeDecl>) -> (r: ComponentDecl)
        ensures
            r@ == exposes.deep_view(),
    {
        ComponentDecl { exposes }
    }

    /// Whether this manifest exposes the protocol at `path` to the
    /// framework.
    pub fn exposes_protocol_to_framework(&self, path: &CapabilityPath) -> (r: bool)
        ensures
            r == spec_exposes_to_framework(self@, path@),
    {
        let n = self.exposes.len();
        let mut i: usize = 0;
        while i < n
            invariant
                n == self.exposes.len(),
                self@.len() == n,
                i <= n,
                forall|j: int|
                    0 <= j < i ==> !(self@[j].target == ExposeTarget::Framework
                        && self@[j].target_path == path@),
            decreases n - i,
        {
            let e = &self.exposes[i];
            if matches!(e.target, ExposeTarget::Framework) && e.target_path == *path {
                assert(self@[i as int].target == ExposeTarget::Framework && self@[i
                    as int].target_path == path@);
                return true;
            }
            i = i + 1;
        }
        false
    }
}

} // verus!
