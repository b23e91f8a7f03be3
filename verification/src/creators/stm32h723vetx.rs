//! The STM32H723VETx.

use vstd::prelude::*;
use crate::creators::hse_patch;
use crate::creators::hse_patch_model;
use crate::creators::ioc_file;
use crate::creators::ioc_file_name;
use crate::creators::CreateContext;
use crate::creators::STM32ProjectCreator;
use crate::patches::patch_views;
use crate::patches::Patch;
use crate::patches::PatchModel;

verus! {

/// The board as shown to the user.
pub const H723_NAME: &'static str = "STM32H723VETx";

/// The pattern that finds the memory settings in a configuration file: one
/// line or more, each with `MMT` in it.
pub const MEMORY_SETTINGS_PATTERN: &'static str = "(MMT.+\n)+";

/// The STM32H723VETx.
#[derive(Debug, Clone, Copy, PartialEq, Eq, Structural)]
pub struct STM32H723VETx;

impl STM32ProjectCreator for STM32H723VETx {
    open spec fn label(&self) -> Seq<char> {
        H723_NAME@
    }

    /// The external oscillator is set to 8 MHz, and the memory settings are
    /// replaced by the board's own.
    open spec fn plan(&self, project_name: Seq<char>, memory_settings: Seq<char>) -> Seq<
        PatchModel,
    > {
        seq![
            hse_patch_model(project_name),
            PatchModel::RegexReplace {
                file: ioc_file_name(project_name),
                pattern: MEMORY_SETTINGS_PATTERN@,
                insert: memory_settings,
            },
        ]
    }

    fn name(&self) -> (name: &'static str) {
        H723_NAME
    }

    fn patches(&self, ctx: &CreateContext, memory_settings: &str) -> (ps: Vec<Patch>) {
        let file = ioc_file(ctx.project_name.as_str());
        let mut ps: Vec<Patch> = Vec::new();
        ps.push(hse_patch(ctx.project_name.as_str()));
        ps.push(Patch::regex_replace(file.as_str(), MEMORY_SETTINGS_PATTERN, memory_settings));
        assert(patch_views(ps@) =~= self.plan(ctx.project_name@, memory_settings@));
        ps
    }
}

} // verus!
