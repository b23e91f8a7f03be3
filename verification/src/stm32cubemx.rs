//! The scripts that drive the code generator, and the toolchains it can
//! generate for.

use vstd::prelude::*;
use vstd::string::StringExecFns;
use crate::random::sample_alphanumeric;
use crate::text::ends_with;
use crate::text::matches_at;
use crate::text::to_chars;

verus! {

/// A toolchain that the code generator can produce a project for.
#[derive(Debug, Copy, Clone, PartialEq, Eq, PartialOrd, Ord, Structural)]
pub enum Toolchain {
    /// EWARM V8.32
    EwarmV832,
    /// EWARM V8
    EwarmV800,
    /// EWARM V7
    EwarmV700,
    /// MDK-ARM V5.32
    MdmArmV532,
    /// MDK-ARM V5.27
    MdmArmV527,
    /// MDK-ARM V5
    MdmArmV500,
    /// MDK-ARM V4
    MdmArmV400,
    /// STM32CubeIDE
    STM32CubeIDE,
    /// Makefile
    Makefile,
    /// CMake
    CMake,
}

/// The name by which the code generator knows `toolchain`.
pub open spec fn toolchain_name(toolchain: Toolchain) -> Seq<char> {
    match toolchain {
        Toolchain::EwarmV832 => "EWARM V8.32"@,
        Toolchain::EwarmV800 => "EWARM V8"@,
        Toolchain::EwarmV700 => "EWARM V7"@,
        Toolchain::MdmArmV532 => "MDK-ARM V5.32"@,
        Toolchain::MdmArmV527 => "MDK-ARM V5.27"@,
        Toolchain::MdmArmV500 => "MDK-ARM V5"@,
        Toolchain::MdmArmV400 => "MDK-ARM V4"@,
        Toolchain::STM32CubeIDE => "STM32CubeIDE"@,
        Toolchain::Makefile => "Makefile"@,
        Toolchain::CMake => "CMake"@,
    }
}

/// The name by which the code generator knows `toolchain`.
pub fn get_toolchain(toolchain: &Toolchain) -> (name: &'static str)
    ensures
        name@ == toolchain_name(*toolchain),
{
    match toolchain {
        Toolchain::EwarmV832 => "EWARM V8.32",
        Toolchain::EwarmV800 => "EWARM V8",
        Toolchain::EwarmV700 => "EWARM V7",
        Toolchain::MdmArmV532 => "MDK-ARM V5.32",
        Toolchain::MdmArmV527 => "MDK-ARM V5.27",
        Toolchain::MdmArmV500 => "MDK-ARM V5",
        Toolchain::MdmArmV400 => "MDK-ARM V4",
        Toolchain::STM32CubeIDE => "STM32CubeIDE",
        Toolchain::Makefile => "Makefile",
        Toolchain::CMake => "CMake",
    }
}

/// The lines of a generation script that choose the toolchain: none where no
/// toolchain is asked for, and one more for STM32CubeIDE, which generates
/// under the project's root.
pub open spec fn toolchain_lines(toolchain: Option<Toolchain>) -> Seq<char> {
    match toolchain {
        None => Seq::empty(),
        Some(t) => "project toolchain \""@ + toolchain_name(t) + "\"\n"@ + if t
            == Toolchain::STM32CubeIDE {
            "project generateunderroot 1\n"@
        } else {
            Seq::empty()
        },
    }
}

/// The script that loads the configuration file `ioc_file` and generates the
/// code, with one pair of source files for each peripheral.
pub open spec fn generation_script(ioc_file: Seq<char>, toolchain: Option<Toolchain>) -> Seq<char> {
    "config load "@ + ioc_file + "\n"@ + toolchain_lines(toolchain)
        + "project couplefilesbyip 1\n"@ + "project generate\n"@ + "exit"@
}

/// Why no generation script can be written.
#[derive(Debug, Clone, Copy, PartialEq, Eq, Structural)]
pub enum GenerateError {
    /// The project holds no configuration file, or more than one.
    IocFileCount,
}

impl GenerateError {
    /// The error in words.
    pub fn message(&self) -> (text: &'static str)
        ensures
            text@ == "No ioc file is provided or multiple ioc files are provided."@,
    {
        "No ioc file is provided or multiple ioc files are provided."
    }
}

/// The script that generates the code of the project whose configuration
/// files are `ioc_files`. It can be written only if there is exactly one.
pub fn generate_code(ioc_files: &Vec<String>, toolchain: Option<Toolchain>) -> (r: Result<
    String,
    GenerateError,
>)
    ensures
        match r {
            Ok(script) => ioc_files.len() == 1 && script@ == generation_script(
                ioc_files[0]@,
                toolchain,
            ),
            Err(e) => ioc_files.len() != 1 && e == GenerateError::IocFileCount,
        },
{
    if ioc_files.len() != 1 {
        return Err(GenerateError::IocFileCount);
    }
    let mut script = String::new();
    script.append("config load ");
    script.append(ioc_files[0].as_str());
    script.append("\n");
    if let Some(t) = toolchain {
        script.append("project toolchain \"");
        script.append(get_toolchain(&t));
        script.append("\"\n");
        if t == Toolchain::STM32CubeIDE {
            script.append("project generateunderroot 1\n");
        }
    }
    script.append("project couplefilesbyip 1\n");
    script.append("project generate\n");
    script.append("exit");
    assert(script@ =~= generation_script(ioc_files[0]@, toolchain));
    Ok(script)
}

/// Where a script for the code generator is kept while it runs, up to the
/// random end of its name.
pub const SCRIPT_PATH_PREFIX: &'static str = "./tmp-script-";

/// `c` is an ASCII letter or digit.
pub open spec fn is_letter_or_digit(c: char) -> bool {
    let n = c as u32;
    ||| 0x30 <= n <= 0x39
    ||| 0x41 <= n <= 0x5A
    ||| 0x61 <= n <= 0x7A
}

/// A text of `length` random characters, each an ASCII letter or digit.
pub fn generate_random_string(length: usize) -> (text: String)
    ensures
        text@.len() == length,
        forall|i: int| 0 <= i < length ==> is_letter_or_digit(#[trigger] text@[i]),
{
    let mut rng = rand::rng();
    let mut text = String::new();
    let mut n: usize = 0;
    while n < length
        invariant
            n <= length,
            text@.len() == n,
            forall|i: int| 0 <= i < n ==> is_letter_or_digit(#[trigger] text@[i]),
        decreases length - n,
    {
        let b = sample_alphanumeric(&mut rng);
        text.push(b as char);
        n = n + 1;
    }
    text
}

/// The path of the script whose name ends in `suffix`.
pub fn script_path(suffix: &str) -> (path: String)
    ensures
        path@ == SCRIPT_PATH_PREFIX@ + suffix@,
{
    let mut path = String::from_str(SCRIPT_PATH_PREFIX);
    path.append(suffix);
    path
}

/// A path for a new script: its name ends in eight random letters and
/// digits, so that two scripts get two files.
pub fn fresh_script_path() -> (path: String)
    ensures
        path@.len() == SCRIPT_PATH_PREFIX@.len() + 8,
        path@.take(SCRIPT_PATH_PREFIX@.len() as int) == SCRIPT_PATH_PREFIX@,
        forall|i: int|
            SCRIPT_PATH_PREFIX@.len() <= i < path@.len() ==> is_letter_or_digit(
                #[trigger] path@[i],
            ),
{
    let suffix = generate_random_string(8);
    let path = script_path(suffix.as_str());
    assert(path@.take(SCRIPT_PATH_PREFIX@.len() as int) =~= SCRIPT_PATH_PREFIX@);
    assert forall|i: int| SCRIPT_PATH_PREFIX@.len() <= i < path@.len() implies is_letter_or_digit(
        #[trigger] path@[i],
    ) by {
        assert(path@[i] == suffix@[i - SCRIPT_PATH_PREFIX@.len()]);
    }
    path
}

/// The command line that runs the script at `script` on Windows, where the
/// code generator is a Java program installed under `dir`.
pub fn windows_command(dir: &str, script: &str) -> (command: String)
    ensures
        command@ == dir@ + "\\jre\\bin\\java.exe -jar "@ + dir@ + "\\STM32CubeMX.exe -s "@
            + script@ + " -q"@,
{
    let mut command = String::from_str(dir);
    command.append("\\jre\\bin\\java.exe -jar ");
    command.append(dir);
    command.append("\\STM32CubeMX.exe -s ");
    command.append(script);
    command.append(" -q");
    command
}

/// The end of the name of a configuration file.
pub const IOC_EXTENSION: &'static str = ".ioc";

/// Whether the file with the name `name` is a configuration file of the code
/// generator: its extension is `ioc`. A name that is nothing but the
/// extension has none.
pub fn is_ioc_file(name: &str) -> (b: bool)
    ensures
        b == (name@.len() > IOC_EXTENSION@.len() && ends_with(name@, IOC_EXTENSION@)),
{
    let n = to_chars(name);
    let e = to_chars(IOC_EXTENSION);
    n.len() > e.len() && matches_at(&n, &e, n.len() - e.len())
}

/// Why a script did not run to its end.
#[derive(Debug, PartialEq, Eq)]
pub enum ScriptError {
    /// On Windows, where nothing says where the code generator is installed.
    MissingInstallDir,
    /// The code generator ran and failed; `status` is how it ended.
    Failed { status: String },
    /// The code generator could not be started; `cause` says why.
    NotStarted { cause: String },
}

/// The error `e` in words.
pub open spec fn script_error_text(e: ScriptError) -> Seq<char> {
    match e {
        ScriptError::MissingInstallDir => "Missing environment variable: STM32CubeMX_dir"@,
        ScriptError::Failed { status } => "Run script failed with status: "@ + status@,
        ScriptError::NotStarted { cause } => "Failed to execute stm32cubemx: "@ + cause@,
    }
}

impl ScriptError {
    /// The error in words.
    pub fn message(&self) -> (text: String)
        ensures
            text@ == script_error_text(*self),
    {
        match self {
            ScriptError::MissingInstallDir => String::from_str(
                "Missing environment variable: STM32CubeMX_dir",
            ),
            ScriptError::Failed { status } => {
                let mut text = String::from_str("Run script failed with status: ");
                text.append(status.as_str());
                text
            },
            ScriptError::NotStarted { cause } => {
                let mut text = String::from_str("Failed to execute stm32cubemx: ");
                text.append(cause.as_str());
                text
            },
        }
    }
}

/// How a run of the code generator ended.
#[derive(Debug, PartialEq, Eq)]
pub enum ScriptRun {
    /// It ran; `success` says whether it ended well, `status` how it ended.
    Ended { success: bool, status: String },
    /// It could not be started; `cause` says why.
    NotStarted { cause: String },
}

/// What a run of the code generator means for the script: only a run that
/// ended well is no error.
pub fn run_result(run: ScriptRun) -> (r: Result<(), ScriptError>)
    ensures
        r == match run {
            ScriptRun::Ended { success, status } => if success {
                Ok::<(), ScriptError>(())
            } else {
                Err::<(), ScriptError>(ScriptError::Failed { status })
            },
            ScriptRun::NotStarted { cause } => Err::<(), ScriptError>(
                ScriptError::NotStarted { cause },
            ),
        },
{
    match run {
        ScriptRun::Ended { success, status } => if success {
            Ok(())
        } else {
            Err(ScriptError::Failed { status })
        },
        ScriptRun::NotStarted { cause } => Err(ScriptError::NotStarted { cause }),
    }
}

} // verus!
