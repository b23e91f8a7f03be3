//! What initialising a project adds to it, whatever the IDE.

use vstd::prelude::*;
use crate::initializers::clion::CMAKE_TEMPLATE;
use crate::patches::patch_views;
use crate::patches::Patch;
use crate::patches::PatchModel;

verus! {

/// The line of the template after which the header is made known.
pub const CMAKE_HEADER_ANCHOR: &'static str = "add_executable";

/// The lines that make the header known to the CMake build.
pub const CMAKE_HEADER_OPTION: &'static str =
    "\n# 非侵入式引入头文件\ntarget_compile_options(${PROJECT_NAME}.elf PRIVATE -include ${CMAKE_SOURCE_DIR}/UserCode/app/app.h)\n";

/// The Makefile of the generated project.
pub const MAKEFILE: &'static str = "Makefile";

/// The line of the Makefile after which the header is made known.
pub const MAKEFILE_HEADER_ANCHOR: &'static str = "CFLAGS += $(MCU)";

/// The lines that make the header known to the Makefile build.
pub const MAKEFILE_HEADER_OPTION: &'static str =
    "\n# 非侵入式引入头文件\nCFLAGS += -include UserCode/app/app.h\n";

/// The user's header, which every source file of the project gets to see
/// without naming it. Where it is named in a build file, the patch was
/// applied before.
pub const USER_HEADER: &'static str = "UserCode/app/app.h";

/// The directories of the user's code, in the order in which they are made.
pub open spec fn user_code_layout() -> Seq<Seq<char>> {
    seq![
        "UserCode/bsp"@,
        "UserCode/drivers"@,
        "UserCode/third_party"@,
        "UserCode/libs"@,
        "UserCode/interfaces"@,
        "UserCode/controllers"@,
        "UserCode/app"@,
    ]
}

/// The patches that make the user's header known to both builds, or none:
/// the header is part of the user's code, so it is made known only where
/// neither the header nor the user's code is skipped.
pub open spec fn header_plan(skip_headers: bool, skip_user_code: bool) -> Seq<PatchModel> {
    if skip_headers || skip_user_code {
        Seq::empty()
    } else {
        seq![
            PatchModel::Append {
                file: CMAKE_TEMPLATE@,
                after: CMAKE_HEADER_ANCHOR@,
                insert: CMAKE_HEADER_OPTION@,
                marker: USER_HEADER@,
            },
            PatchModel::Append {
                file: MAKEFILE@,
                after: MAKEFILE_HEADER_ANCHOR@,
                insert: MAKEFILE_HEADER_OPTION@,
                marker: USER_HEADER@,
            },
        ]
    }
}

/// The directories of the user's code, in the order in which they are made.
pub fn user_code_directories() -> (dirs: Vec<&'static str>)
    ensures
        dirs@.map_values(|d: &'static str| d@) == user_code_layout(),
{
    let mut dirs: Vec<&'static str> = Vec::new();
    dirs.push("UserCode/bsp");
    dirs.push("UserCode/drivers");
    dirs.push("UserCode/third_party");
    dirs.push("UserCode/libs");
    dirs.push("UserCode/interfaces");
    dirs.push("UserCode/controllers");
    dirs.push("UserCode/app");
    assert(dirs@.map_values(|d: &'static str| d@) =~= user_code_layout());
    dirs
}

/// The patches that make the user's header known to both builds.
pub fn header_patches(skip_headers: bool, skip_user_code: bool) -> (ps: Vec<Patch>)
    ensures
        patch_views(ps@) == header_plan(skip_headers, skip_user_code),
{
    let mut ps: Vec<Patch> = Vec::new();
    if !skip_headers && !skip_user_code {
        ps.push(Patch::append(CMAKE_TEMPLATE, CMAKE_HEADER_ANCHOR, CMAKE_HEADER_OPTION, USER_HEADER));
        ps.push(Patch::append(MAKEFILE, MAKEFILE_HEADER_ANCHOR, MAKEFILE_HEADER_OPTION, USER_HEADER));
    }
    assert(patch_views(ps@) =~= header_plan(skip_headers, skip_user_code));
    ps
}

} // verus!
