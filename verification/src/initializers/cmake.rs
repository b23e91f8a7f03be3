//! A project that CMake builds, as CLion and VSCode open it.

use vstd::prelude::*;
use crate::initializers::FPUType;
use crate::initializers::IdeInitArgs;
use crate::initializers::IdeInitializer;
use crate::patches::patch_views;
use crate::patches::Patch;
use crate::patches::PatchModel;

verus! {

/// The file that every patch of this initialiser edits.
pub const CMAKE_LISTS: &'static str =
    "CMakeLists.txt";

/// The initialiser as shown to the user.
pub const CMAKE_NAME: &'static str =
    "CMake (toolchain: CMake) Compatible with CLion and VSCode (official ST plugin)";

/// The lines that set up the compiler, after which the floating point options
/// go.
pub const COMPILER_SETTINGS: &'static str =
    "# Setup compiler settings\nset(CMAKE_C_STANDARD 11)\nset(CMAKE_C_STANDARD_REQUIRED ON)\nset(CMAKE_C_EXTENSIONS ON)";

/// The options for floating point in hardware.
pub const HARD_FLOAT_OPTIONS: &'static str =
    "\n#Uncomment for hardware floating point\nadd_compile_definitions(ARM_MATH_CM4;ARM_MATH_MATRIX_CHECK;ARM_MATH_ROUNDING)\nadd_compile_options(-mfloat-abi=hard -mfpu=fpv4-sp-d16)\nadd_link_options(-mfloat-abi=hard -mfpu=fpv4-sp-d16)\n\nadd_compile_options(-ffunction-sections -fdata-sections -fno-common -fmessage-length=0)\n";

/// The options for floating point in software.
pub const SOFT_FLOAT_OPTIONS: &'static str =
    "\n#Uncomment for software floating point\nadd_compile_options(-mfloat-abi=soft)\n\nadd_compile_options(-ffunction-sections -fdata-sections -fno-common -fmessage-length=0)\n";

/// The line that shows that floating point options are in the file.
pub const FLOAT_MARKER: &'static str =
    "#Uncomment for hardware floating point";

/// The line after which the glob of the user's sources goes.
pub const SOURCES_ANCHOR: &'static str =
    "# Add sources to executable";

/// The glob of the user's sources.
pub const SOURCES_GLOB: &'static str =
    "file(GLOB_RECURSE SOURCES \"UserCode/*.*\")";

/// The line after which the user's sources are added to the executable.
pub const USER_SOURCES_ANCHOR: &'static str =
    "# Add user sources here";

/// The user's sources, as added to the executable.
pub const USER_SOURCES: &'static str =
    "    ${SOURCES}";

/// What shows that the user's sources are added to the executable.
pub const USER_SOURCES_MARKER: &'static str =
    "${SOURCES}";

/// The line after which the include path of the user's code goes.
pub const INCLUDES_ANCHOR: &'static str =
    "# Add include paths";

/// The include path of the user's code.
pub const USER_INCLUDES: &'static str =
    "include_directories(UserCode)";

/// The line after which the block of the user's libraries goes.
pub const LIBRARIES_ANCHOR: &'static str =
    "list(REMOVE_ITEM CMAKE_C_IMPLICIT_LINK_LIBRARIES ob)";

/// The block that names the user's libraries and links each with the generated
/// code.
pub const LIBRARIES_BLOCK: &'static str =
    "\n# Add dependence from library\n# ===================== DEPENDENCIES =====================\n                     \n# e.g.\n#add_subdirectory(library/motor_drivers/UserCode)\n\nset(USER_LIBRARIES \"\")\n\n# =======================================================\n\n# every library will depend on stm32cubemx\nforeach (LIBRARY IN LISTS USER_LIBRARIES)\n    target_link_libraries(${LIBRARY} PRIVATE stm32cubemx)\nendforeach ()";

/// The line that shows that the block of the user's libraries is in the file.
pub const LIBRARIES_MARKER: &'static str =
    "# Add dependence from library";

/// The line after which the user's libraries are linked.
pub const USER_LIBRARIES_ANCHOR: &'static str =
    "# Add user defined libraries";

/// The user's libraries, as linked to the executable.
pub const USER_LIBRARIES: &'static str =
    "    ${USER_LIBRARIES}";

/// What shows that the user's libraries are linked.
pub const USER_LIBRARIES_MARKER: &'static str =
    "${USER_LIBRARIES}";

/// The patch that adds `insert` after each line of the CMake file that
/// contains `after`, unless `marker` is in the file.
pub open spec fn cmake_append(after: Seq<char>, insert: Seq<char>, marker: Seq<char>) -> PatchModel {
    PatchModel::Append { file: CMAKE_LISTS@, after, insert, marker }
}

/// The floating point options for `fpu`.
pub open spec fn float_options(fpu: FPUType) -> Seq<char> {
    match fpu {
        FPUType::Hard => HARD_FLOAT_OPTIONS@,
        FPUType::Soft => SOFT_FLOAT_OPTIONS@,
    }
}

/// The CMake toolchain, which CLion and VSCode with ST's plugin understand.
#[derive(Debug, Clone, Copy, PartialEq, Eq, Structural)]
pub struct CMake;

impl IdeInitializer for CMake {
    open spec fn label(&self) -> Seq<char> {
        CMAKE_NAME@
    }

    /// Six additions to the CMake file: the floating point options, which
    /// are looked for by the marker of the hardware options whatever `fpu`
    /// is; the user's sources, include path and libraries.
    open spec fn plan(&self, fpu: FPUType) -> Seq<PatchModel> {
        seq![
            cmake_append(COMPILER_SETTINGS@, float_options(fpu), FLOAT_MARKER@),
            cmake_append(SOURCES_ANCHOR@, SOURCES_GLOB@, SOURCES_GLOB@),
            cmake_append(USER_SOURCES_ANCHOR@, USER_SOURCES@, USER_SOURCES_MARKER@),
            cmake_append(INCLUDES_ANCHOR@, USER_INCLUDES@, USER_INCLUDES@),
            cmake_append(LIBRARIES_ANCHOR@, LIBRARIES_BLOCK@, LIBRARIES_MARKER@),
            cmake_append(USER_LIBRARIES_ANCHOR@, USER_LIBRARIES@, USER_LIBRARIES_MARKER@),
        ]
    }

    fn name(&self) -> (name: &'static str) {
        CMAKE_NAME
    }

    fn patches(&self, args: &IdeInitArgs) -> (ps: Vec<Patch>) {
        let options = match args.fpu {
            FPUType::Hard => HARD_FLOAT_OPTIONS,
            FPUType::Soft => SOFT_FLOAT_OPTIONS,
        };
        let mut ps: Vec<Patch> = Vec::new();
        ps.push(Patch::append(CMAKE_LISTS, COMPILER_SETTINGS, options, FLOAT_MARKER));
        ps.push(Patch::append(CMAKE_LISTS, SOURCES_ANCHOR, SOURCES_GLOB, SOURCES_GLOB));
        ps.push(Patch::append(CMAKE_LISTS, USER_SOURCES_ANCHOR, USER_SOURCES, USER_SOURCES_MARKER));
        ps.push(Patch::append(CMAKE_LISTS, INCLUDES_ANCHOR, USER_INCLUDES, USER_INCLUDES));
        ps.push(Patch::append(CMAKE_LISTS, LIBRARIES_ANCHOR, LIBRARIES_BLOCK, LIBRARIES_MARKER));
        ps.push(
            Patch::append(
                CMAKE_LISTS,
                USER_LIBRARIES_ANCHOR,
                USER_LIBRARIES,
                USER_LIBRARIES_MARKER,
            ),
        );
        assert(patch_views(ps@) =~= self.plan(args.fpu));
        ps
    }
}

} // verus!
