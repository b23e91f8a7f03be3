//! What each board needs done to create a project for it.
//!
//! A creator does not touch the project. It names the patches that are to be
//! applied to the project's configuration file between the two runs of the
//! code generator.

use vstd::prelude::*;
use vstd::string::StringExecFns;
use crate::patches::patch_views;
use crate::patches::Patch;
use crate::patches::PatchModel;
use crate::stm32cubemx::get_toolchain;
use crate::stm32cubemx::toolchain_name;
use crate::stm32cubemx::Toolchain;

pub mod stm32h723vetx;

verus! {

/// What the user chose for the creation. There is nothing to choose yet.
#[derive(Debug, Clone, Copy, PartialEq, Eq, Structural)]
pub struct CreatorArgs {}

/// What the scripts of a creation are written from.
#[derive(Debug, Clone, Copy)]
pub struct CreateContext<'a> {
    /// The project's name, which is also the name of its directory.
    pub project_name: &'a String,
    /// The project's directory, as an absolute path.
    pub project_dir: &'a String,
    /// The project's configuration file, as an absolute path.
    pub ioc_file_path: &'a String,
    /// The name by which the code generator knows the toolchain.
    pub toolchain: &'a str,
    /// Whether the code is generated under the project's root.
    pub generate_under_root: bool,
}

impl<'a> CreateContext<'a> {
    /// The context of a project for `toolchain`. Only STM32CubeIDE has its
    /// code generated under the project's root.
    pub fn new(
        project_name: &'a String,
        project_dir: &'a String,
        ioc_file_path: &'a String,
        toolchain: &Toolchain,
    ) -> (ctx: CreateContext<'a>)
        ensures
            ctx.project_name == project_name,
            ctx.project_dir == project_dir,
            ctx.ioc_file_path == ioc_file_path,
            ctx.toolchain@ == toolchain_name(*toolchain),
            ctx.generate_under_root == (*toolchain == Toolchain::STM32CubeIDE),
    {
        CreateContext {
            project_name,
            project_dir,
            ioc_file_path,
            toolchain: get_toolchain(toolchain),
            generate_under_root: *toolchain == Toolchain::STM32CubeIDE,
        }
    }
}

/// The pattern that finds the frequency of the external oscillator in a
/// configuration file.
pub const HSE_VALUE_PATTERN: &'static str = "RCC\\.HSE_VALUE=(\\d+)";

/// The setting of an external oscillator of 8 MHz.
pub const HSE_VALUE_8_MHZ: &'static str = "RCC.HSE_VALUE=8000000";

/// The name of the configuration file of the project `project_name`.
pub open spec fn ioc_file_name(project_name: Seq<char>) -> Seq<char> {
    project_name + ".ioc"@
}

/// The patch that sets the external oscillator of the project `project_name`
/// to 8 MHz.
pub open spec fn hse_patch_model(project_name: Seq<char>) -> PatchModel {
    PatchModel::RegexReplace {
        file: ioc_file_name(project_name),
        pattern: HSE_VALUE_PATTERN@,
        insert: HSE_VALUE_8_MHZ@,
    }
}

/// The name of the configuration file of the project `project_name`.
pub fn ioc_file(project_name: &str) -> (file: String)
    ensures
        file@ == ioc_file_name(project_name@),
{
    let mut file = String::from_str(project_name);
    file.append(".ioc");
    file
}

/// The patch that sets the external oscillator of the project `project_name`
/// to 8 MHz.
pub fn hse_patch(project_name: &str) -> (p: Patch)
    ensures
        p@ == hse_patch_model(project_name@),
{
    let file = ioc_file(project_name);
    Patch::regex_replace(file.as_str(), HSE_VALUE_PATTERN, HSE_VALUE_8_MHZ)
}

/// A way to create a project for one board.
pub trait STM32ProjectCreator {
    /// The board, as shown to the user.
    spec fn label(&self) -> Seq<char>;

    /// The patches of the configuration file of the project `project_name`,
    /// in order; `memory_settings` is the board's memory layout as the
    /// configuration file states it.
    spec fn plan(&self, project_name: Seq<char>, memory_settings: Seq<char>) -> Seq<PatchModel>;

    /// The board, as shown to the user.
    fn name(&self) -> (name: &'static str)
        ensures
            name@ == self.label(),
    ;

    /// The patches that are applied to the configuration file after the
    /// first run of the code generator and before the second, in order.
    fn patches(&self, ctx: &CreateContext, memory_settings: &str) -> (ps: Vec<Patch>)
        ensures
            patch_views(ps@) == self.plan(ctx.project_name@, memory_settings@),
    ;
}

} // verus!
