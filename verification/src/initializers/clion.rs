//! A project that CLion opens, generated for the STM32CubeIDE toolchain.

use vstd::prelude::*;
use crate::initializers::FPUType;
use crate::initializers::IdeInitArgs;
use crate::initializers::IdeInitializer;
use crate::patches::patch_views;
use crate::patches::Patch;
use crate::patches::PatchModel;
use crate::stm32cubemx::Toolchain;

verus! {

/// The initialiser as shown to the user.
pub const CLION_NAME: &'static str = "CLion (toolchain: STM32CubeIDE)";

/// The template from which the code generator writes the CMake file. Every
/// patch of this initialiser edits it.
pub const CMAKE_TEMPLATE: &'static str = "CMakeLists_template.txt";

/// The include directories as generated.
pub const INCLUDES: &'static str = "include_directories(${includes})";

/// The include directories with the user's code among them.
pub const INCLUDES_WITH_USER_CODE: &'static str = "include_directories(${includes} UserCode)";

/// The glob of the sources as generated.
pub const SOURCES: &'static str = "file(GLOB_RECURSE SOURCES ${sources})";

/// The glob of the sources with the user's code among them.
pub const SOURCES_WITH_USER_CODE: &'static str =
    "file(GLOB_RECURSE SOURCES ${sources} \"UserCode/*.*\")";

/// The line above the commented options for floating point in hardware.
pub const HARD_FLOAT_BLOCK: &'static str = "#Uncomment for hardware floating point";

/// The line above the commented options for floating point in software.
pub const SOFT_FLOAT_BLOCK: &'static str = "#Uncomment for software floating point";

/// The line above the commented options for `fpu`.
pub open spec fn float_block(fpu: FPUType) -> Seq<char> {
    match fpu {
        FPUType::Hard => HARD_FLOAT_BLOCK@,
        FPUType::Soft => SOFT_FLOAT_BLOCK@,
    }
}

/// CLion, with the STM32CubeIDE toolchain.
#[derive(Debug, Clone, Copy, PartialEq, Eq, Structural)]
pub struct CLion;

impl CLion {
    /// The toolchain for which the code is generated again after the
    /// template was patched, if any: the code generator reads the template
    /// only where it had written one before, so only there is anything to
    /// generate again.
    pub fn regenerate(&self, template_existed: bool) -> (toolchain: Option<Toolchain>)
        ensures
            toolchain == if template_existed {
                Some(Toolchain::STM32CubeIDE)
            } else {
                None
            },
    {
        if template_existed {
            Some(Toolchain::STM32CubeIDE)
        } else {
            None
        }
    }
}

impl IdeInitializer for CLion {
    open spec fn label(&self) -> Seq<char> {
        CLION_NAME@
    }

    /// The user's code joins the include directories and the sources, and
    /// the options for `fpu` are uncommented.
    open spec fn plan(&self, fpu: FPUType) -> Seq<PatchModel> {
        seq![
            PatchModel::Replace {
                file: CMAKE_TEMPLATE@,
                find: INCLUDES@,
                insert: INCLUDES_WITH_USER_CODE@,
            },
            PatchModel::Replace {
                file: CMAKE_TEMPLATE@,
                find: SOURCES@,
                insert: SOURCES_WITH_USER_CODE@,
            },
            PatchModel::UncommentBlock { file: CMAKE_TEMPLATE@, marker: float_block(fpu) },
        ]
    }

    fn name(&self) -> (name: &'static str) {
        CLION_NAME
    }

    fn patches(&self, args: &IdeInitArgs) -> (ps: Vec<Patch>) {
        let block = match args.fpu {
            FPUType::Hard => HARD_FLOAT_BLOCK,
            FPUType::Soft => SOFT_FLOAT_BLOCK,
        };
        let mut ps: Vec<Patch> = Vec::new();
        ps.push(Patch::replace(CMAKE_TEMPLATE, INCLUDES, INCLUDES_WITH_USER_CODE));
        ps.push(Patch::replace(CMAKE_TEMPLATE, SOURCES, SOURCES_WITH_USER_CODE));
        ps.push(Patch::uncomment_block(CMAKE_TEMPLATE, block));
        assert(patch_views(ps@) =~= self.plan(args.fpu));
        ps
    }
}

} // verus!
