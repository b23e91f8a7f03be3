use std::path::Path;
use stm32_project_tool::stm32cubemx::fresh_script_path;
use stm32_project_tool::stm32cubemx::generate_code;
use stm32_project_tool::stm32cubemx::generate_random_string;
use stm32_project_tool::stm32cubemx::get_toolchain;
use stm32_project_tool::stm32cubemx::is_ioc_file;
use stm32_project_tool::stm32cubemx::run_result;
use stm32_project_tool::stm32cubemx::script_path;
use stm32_project_tool::stm32cubemx::windows_command;
use stm32_project_tool::stm32cubemx::GenerateError;
use stm32_project_tool::stm32cubemx::ScriptError;
use stm32_project_tool::stm32cubemx::ScriptRun;
use stm32_project_tool::stm32cubemx::Toolchain;

#[test]
fn get_toolchain_names_every_toolchain() {
    assert_eq!(get_toolchain(&Toolchain::EwarmV832), "EWARM V8.32");
    assert_eq!(get_toolchain(&Toolchain::EwarmV800), "EWARM V8");
    assert_eq!(get_toolchain(&Toolchain::EwarmV700), "EWARM V7");
    assert_eq!(get_toolchain(&Toolchain::MdmArmV532), "MDK-ARM V5.32");
    assert_eq!(get_toolchain(&Toolchain::MdmArmV527), "MDK-ARM V5.27");
    assert_eq!(get_toolchain(&Toolchain::MdmArmV500), "MDK-ARM V5");
    assert_eq!(get_toolchain(&Toolchain::MdmArmV400), "MDK-ARM V4");
    assert_eq!(get_toolchain(&Toolchain::STM32CubeIDE), "STM32CubeIDE");
    assert_eq!(get_toolchain(&Toolchain::Makefile), "Makefile");
    assert_eq!(get_toolchain(&Toolchain::CMake), "CMake");
}

#[test]
fn toolchains_are_ordered_as_declared() {
    assert!(Toolchain::EwarmV832 < Toolchain::EwarmV800);
    assert!(Toolchain::Makefile < Toolchain::CMake);
    assert_eq!(Toolchain::CMake, Toolchain::CMake);
}

#[test]
fn generate_code_writes_the_script() {
    let files = vec!["/p/demo.ioc".to_string()];
    assert_eq!(
        generate_code(&files, None),
        Ok("config load /p/demo.ioc\nproject couplefilesbyip 1\nproject generate\nexit".to_string())
    );
    assert_eq!(
        generate_code(&files, Some(Toolchain::Makefile)),
        Ok(
            "config load /p/demo.ioc\nproject toolchain \"Makefile\"\nproject couplefilesbyip 1\nproject generate\nexit"
                .to_string()
        )
    );
    assert_eq!(
        generate_code(&files, Some(Toolchain::STM32CubeIDE)),
        Ok(
            "config load /p/demo.ioc\nproject toolchain \"STM32CubeIDE\"\nproject generateunderroot 1\nproject couplefilesbyip 1\nproject generate\nexit"
                .to_string()
        )
    );
}

#[test]
fn generate_code_needs_exactly_one_configuration_file() {
    assert_eq!(generate_code(&Vec::new(), None), Err(GenerateError::IocFileCount));
    let two = vec!["a.ioc".to_string(), "b.ioc".to_string()];
    assert_eq!(generate_code(&two, Some(Toolchain::CMake)), Err(GenerateError::IocFileCount));
    assert_eq!(
        GenerateError::IocFileCount.message(),
        "No ioc file is provided or multiple ioc files are provided."
    );
}

#[test]
fn generate_random_string_draws_letters_and_digits() {
    for length in [0usize, 1, 8, 100] {
        let s = generate_random_string(length);
        assert_eq!(s.chars().count(), length);
        assert!(s.chars().all(|c| c.is_ascii_alphanumeric()));
    }
}

#[test]
fn generate_random_string_draws_anew_each_time() {
    let a = generate_random_string(32);
    let b = generate_random_string(32);
    assert_ne!(a, b);
}

#[test]
fn script_path_ends_in_the_suffix() {
    assert_eq!(script_path("Ab3dEf9h"), "./tmp-script-Ab3dEf9h");
    assert_eq!(script_path(""), "./tmp-script-");
}

#[test]
fn fresh_script_path_ends_in_eight_letters_and_digits() {
    let p = fresh_script_path();
    assert!(p.starts_with("./tmp-script-"));
    let suffix = &p["./tmp-script-".len()..];
    assert_eq!(suffix.len(), 8);
    assert!(suffix.chars().all(|c| c.is_ascii_alphanumeric()));
}

#[test]
fn windows_command_runs_the_generator_with_its_own_java() {
    assert_eq!(
        windows_command("C:\\ST", "./tmp-script-x"),
        "C:\\ST\\jre\\bin\\java.exe -jar C:\\ST\\STM32CubeMX.exe -s ./tmp-script-x -q"
    );
}

#[test]
fn is_ioc_file_agrees_with_the_extension_of_the_path() {
    let names = [
        "demo.ioc",
        ".ioc",
        "ioc",
        "a.ioc",
        "..ioc",
        "demo.ioc.bak",
        "demo.IOC",
        "demo.iocx",
        "demo.txt.ioc",
        "",
        "demo.",
        "é.ioc",
        "demo ioc",
        "xioc",
    ];
    for name in names {
        let expected = Path::new(name).extension().map(|e| e == "ioc").unwrap_or(false);
        assert_eq!(is_ioc_file(name), expected, "{:?}", name);
    }
    assert!(is_ioc_file("demo.ioc"));
    assert!(!is_ioc_file(".ioc"));
}

#[test]
fn run_result_is_ok_only_for_a_run_that_ended_well() {
    assert_eq!(run_result(ScriptRun::Ended { success: true, status: "exit status: 0".to_string() }), Ok(()));
    assert_eq!(
        run_result(ScriptRun::Ended { success: false, status: "exit status: 1".to_string() }),
        Err(ScriptError::Failed { status: "exit status: 1".to_string() })
    );
    assert_eq!(
        run_result(ScriptRun::NotStarted { cause: "No such file or directory".to_string() }),
        Err(ScriptError::NotStarted { cause: "No such file or directory".to_string() })
    );
}

#[test]
fn script_errors_say_what_went_wrong() {
    assert_eq!(
        ScriptError::MissingInstallDir.message(),
        "Missing environment variable: STM32CubeMX_dir"
    );
    assert_eq!(
        ScriptError::Failed { status: "exit status: 1".to_string() }.message(),
        "Run script failed with status: exit status: 1"
    );
    assert_eq!(
        ScriptError::NotStarted { cause: "not found".to_string() }.message(),
        "Failed to execute stm32cubemx: not found"
    );
}
