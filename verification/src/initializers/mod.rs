//! What each IDE needs done to a generated project before it can open it.
//!
//! An initialiser does not touch the project. It names the patches that are
//! to be applied, in order; whoever runs it applies them one at a time.

use vstd::prelude::*;
use crate::initializers::clion::CLion;
use crate::initializers::cmake::CMake;
use crate::initializers::eide::EIDE;
use crate::patches::patch_views;
use crate::patches::Patch;
use crate::patches::PatchModel;

pub mod clion;
pub mod cmake;
pub mod eide;

verus! {

/// How the project computes with floating point numbers.
#[derive(Debug, Copy, Clone, PartialEq, Eq, PartialOrd, Ord, Structural)]
pub enum FPUType {
    /// In hardware.
    Hard,
    /// In software.
    Soft,
}

/// What the user chose for the initialisation.
#[derive(Debug, Copy, Clone, PartialEq, Eq, Structural)]
pub struct IdeInitArgs {
    /// How the project computes with floating point numbers.
    pub fpu: FPUType,
}

/// A way to prepare a generated project for one IDE.
pub trait IdeInitializer {
    /// The IDE and its toolchain, as shown to the user.
    spec fn label(&self) -> Seq<char>;

    /// The patches that the initialisation applies, in this order.
    spec fn plan(&self, fpu: FPUType) -> Seq<PatchModel>;

    /// The IDE and its toolchain, as shown to the user.
    fn name(&self) -> (name: &'static str)
        ensures
            name@ == self.label(),
    ;

    /// The patches that the initialisation applies, in this order.
    fn patches(&self, args: &IdeInitArgs) -> (ps: Vec<Patch>)
        ensures
            patch_views(ps@) == self.plan(args.fpu),
    ;
}

/// No IDE: nothing is done to the project.
#[derive(Debug, Clone, Copy, PartialEq, Eq, Structural)]
pub struct IdeNone;

impl IdeInitializer for IdeNone {
    open spec fn label(&self) -> Seq<char> {
        "None"@
    }

    open spec fn plan(&self, fpu: FPUType) -> Seq<PatchModel> {
        Seq::empty()
    }

    fn name(&self) -> (name: &'static str) {
        "None"
    }

    fn patches(&self, args: &IdeInitArgs) -> (ps: Vec<Patch>) {
        let ps: Vec<Patch> = Vec::new();
        assert(patch_views(ps@) =~= self.plan(args.fpu));
        ps
    }
}

/// One of the initialisers of this library, chosen at run time.
#[derive(Debug, Clone, Copy, PartialEq, Eq, Structural)]
pub enum Ide {
    CLion(CLion),
    EIDE(EIDE),
    CMake(CMake),
    IdeNone(IdeNone),
}

impl IdeInitializer for Ide {
    open spec fn label(&self) -> Seq<char> {
        match self {
            Ide::CLion(ide) => ide.label(),
            Ide::EIDE(ide) => ide.label(),
            Ide::CMake(ide) => ide.label(),
            Ide::IdeNone(ide) => ide.label(),
        }
    }

    open spec fn plan(&self, fpu: FPUType) -> Seq<PatchModel> {
        match self {
            Ide::CLion(ide) => ide.plan(fpu),
            Ide::EIDE(ide) => ide.plan(fpu),
            Ide::CMake(ide) => ide.plan(fpu),
            Ide::IdeNone(ide) => ide.plan(fpu),
        }
    }

    fn name(&self) -> (name: &'static str) {
        match self {
            Ide::CLion(ide) => ide.name(),
            Ide::EIDE(ide) => ide.name(),
            Ide::CMake(ide) => ide.name(),
            Ide::IdeNone(ide) => ide.name(),
        }
    }

    fn patches(&self, args: &IdeInitArgs) -> (ps: Vec<Patch>) {
        match self {
            Ide::CLion(ide) => ide.patches(args),
            Ide::EIDE(ide) => ide.patches(args),
            Ide::CMake(ide) => ide.patches(args),
            Ide::IdeNone(ide) => ide.patches(args),
        }
    }
}

/// The initialisers that the user can choose from: CLion, then EIDE.
pub fn all() -> (ides: Vec<Ide>)
    ensures
        ides@ == seq![Ide::CLion(CLion), Ide::EIDE(EIDE)],
{
    let mut ides: Vec<Ide> = Vec::new();
    ides.push(Ide::CLion(CLion));
    ides.push(Ide::EIDE(EIDE));
    assert(ides@ =~= seq![Ide::CLion(CLion), Ide::EIDE(EIDE)]);
    ides
}

/// The names of `ides`, in order, as the user is asked to choose from them.
pub fn names(ides: &Vec<Ide>) -> (labels: Vec<&'static str>)
    ensures
        labels@.len() == ides@.len(),
        forall|i: int| 0 <= i < ides@.len() ==> (#[trigger] labels@[i])@ == ides@[i].label(),
{
    let mut labels: Vec<&'static str> = Vec::new();
    let mut i: usize = 0;
    while i < ides.len()
        invariant
            i <= ides.len(),
            labels@.len() == i,
            forall|j: int| 0 <= j < i ==> (#[trigger] labels@[j])@ == ides@[j].label(),
        decreases ides.len() - i,
    {
        labels.push(ides[i].name());
        i = i + 1;
    }
    labels
}

} // verus!
