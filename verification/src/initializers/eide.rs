//! A project that VSCode opens with the EIDE extension, generated for the
//! Makefile toolchain.

use vstd::prelude::*;
use vstd::string::StringExecFns;
use crate::initializers::FPUType;
use crate::initializers::IdeInitArgs;
use crate::initializers::IdeInitializer;
use crate::patches::patch_views;
use crate::patches::Patch;
use crate::patches::PatchModel;
use crate::text::to_chars;

verus! {

/// The initialiser as shown to the user.
pub const EIDE_NAME: &'static str = "VSCode + EIDE (toolchain: Makefile)";

/// The directory of the user's code, which joins the include paths that the
/// Makefile names.
pub const USER_CODE: &'static str = "UserCode";

/// VSCode with EIDE, with the Makefile toolchain.
#[derive(Debug, Clone, Copy, PartialEq, Eq, Structural)]
pub struct EIDE;

/// What EIDE calls the floating point hardware of `fpu`.
pub open spec fn hardware_name(fpu: FPUType) -> Seq<char> {
    match fpu {
        FPUType::Hard => "single"@,
        FPUType::Soft => "none"@,
    }
}

/// What EIDE calls the floating point ABI of `fpu`.
pub open spec fn abi_name(fpu: FPUType) -> Seq<char> {
    match fpu {
        FPUType::Hard => "hard"@,
        FPUType::Soft => "soft"@,
    }
}

impl EIDE {
    /// What EIDE calls the floating point hardware of `fpu`.
    pub fn floating_point_hardware(&self, fpu: FPUType) -> (name: &'static str)
        ensures
            name@ == hardware_name(fpu),
    {
        match fpu {
            FPUType::Hard => "single",
            FPUType::Soft => "none",
        }
    }

    /// What EIDE calls the floating point ABI of `fpu`.
    pub fn fpu_type(&self, fpu: FPUType) -> (name: &'static str)
        ensures
            name@ == abi_name(fpu),
    {
        match fpu {
            FPUType::Hard => "hard",
            FPUType::Soft => "soft",
        }
    }

    /// The workspace file of the project `project_name`.
    pub fn workspace_file(&self, project_name: &str) -> (path: String)
        ensures
            path@ == project_name@ + ".code-workspace"@,
    {
        let mut path = String::from_str(project_name);
        path.append(".code-workspace");
        path
    }

    /// Whether the directory with the name `name` holds sources of the
    /// project: every directory does whose name does not start with a dot.
    pub fn is_source_dir(&self, name: &str) -> (b: bool)
        ensures
            b == !(name@.len() > 0 && name@[0] == '.'),
    {
        let n = to_chars(name);
        !(n.len() > 0 && n[0] == '.')
    }

    /// The include paths of the project: those that the Makefile names, then
    /// the directory of the user's code.
    pub fn include_list(&self, makefile_includes: Vec<String>) -> (includes: Vec<String>)
        ensures
            includes@.len() == makefile_includes@.len() + 1,
            forall|i: int|
                0 <= i < makefile_includes@.len() ==> includes@[i] == makefile_includes@[i],
            includes@[makefile_includes@.len() as int]@ == USER_CODE@,
    {
        let mut includes = makefile_includes;
        includes.push(String::from_str(USER_CODE));
        includes
    }
}

impl IdeInitializer for EIDE {
    open spec fn label(&self) -> Seq<char> {
        EIDE_NAME@
    }

    /// EIDE reads the generated files as they are.
    open spec fn plan(&self, fpu: FPUType) -> Seq<PatchModel> {
        Seq::empty()
    }

    fn name(&self) -> (name: &'static str) {
        EIDE_NAME
    }

    fn patches(&self, args: &IdeInitArgs) -> (ps: Vec<Patch>) {
        let ps: Vec<Patch> = Vec::new();
        assert(patch_views(ps@) =~= self.plan(args.fpu));
        ps
    }
}

} // verus!
