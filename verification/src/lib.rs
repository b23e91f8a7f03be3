//! Scaffolding and patching of STM32 firmware projects.
//!
//! The heart of the library is the patch engine in [`patches`]: four small,
//! repeatable edits of text files that other tools generate. Around it stand
//! the patches that each IDE and each board asks for, the scripts that drive
//! the code generator, and the text of the `.gitignore` file.
//!
//! Nothing here reads or writes a file or starts a program. Every function
//! takes what was read and gives back what is to be written or run.

use vstd::prelude::*;

pub mod creators;
pub mod generate_gitignore;
pub mod initializers;
pub mod json;
pub mod laws;
pub mod lines;
pub mod patches;
pub mod pattern;
pub mod project;
pub mod random;
pub mod stm32cubemx;
pub mod text;
pub mod utils;
