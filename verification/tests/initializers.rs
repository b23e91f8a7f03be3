use stm32_project_tool::creators::hse_patch;
use stm32_project_tool::creators::ioc_file;
use stm32_project_tool::creators::stm32h723vetx::STM32H723VETx;
use stm32_project_tool::creators::CreateContext;
use stm32_project_tool::creators::CreatorArgs;
use stm32_project_tool::creators::STM32ProjectCreator;
use stm32_project_tool::initializers::clion::CLion;
use stm32_project_tool::initializers::cmake::CMake;
use stm32_project_tool::initializers::eide::EIDE;
use stm32_project_tool::initializers::names;
use stm32_project_tool::initializers::FPUType;
use stm32_project_tool::initializers::Ide;
use stm32_project_tool::initializers::IdeInitArgs;
use stm32_project_tool::initializers::IdeInitializer;
use stm32_project_tool::initializers::IdeNone;
use stm32_project_tool::patches::apply_patch;
use stm32_project_tool::patches::Action;
use stm32_project_tool::patches::Patch;
use stm32_project_tool::patches::Source;
use stm32_project_tool::project::header_patches;
use stm32_project_tool::project::user_code_directories;
use stm32_project_tool::stm32cubemx::Toolchain;

const HARD: IdeInitArgs = IdeInitArgs { fpu: FPUType::Hard };

const SOFT: IdeInitArgs = IdeInitArgs { fpu: FPUType::Soft };

/// The content of a file after the patches were applied to it one by one.
fn patched(patches: &Vec<Patch>, content: &str) -> String {
    let mut content = content.to_string();
    for p in patches {
        if let Ok(Action::Write(new)) = apply_patch(p, &Source::Text(content.clone())) {
            content = new;
        }
    }
    content
}

fn append(file: &str, after: &str, insert: &str, marker: &str) -> Patch {
    Patch::Append {
        file: file.to_string(),
        after: after.to_string(),
        insert: insert.to_string(),
        marker: marker.to_string(),
    }
}

#[test]
fn the_initialisers_have_their_names() {
    assert_eq!(CLion.name(), "CLion (toolchain: STM32CubeIDE)");
    assert_eq!(EIDE.name(), "VSCode + EIDE (toolchain: Makefile)");
    assert_eq!(
        CMake.name(),
        "CMake (toolchain: CMake) Compatible with CLion and VSCode (official ST plugin)"
    );
    assert_eq!(IdeNone.name(), "None");
}

#[test]
fn all_initialisers_are_clion_and_eide() {
    let ides = stm32_project_tool::initializers::all();
    assert_eq!(ides, vec![Ide::CLion(CLion), Ide::EIDE(EIDE)]);
    assert_eq!(
        names(&ides),
        vec!["CLion (toolchain: STM32CubeIDE)", "VSCode + EIDE (toolchain: Makefile)"]
    );
    assert_eq!(names(&Vec::new()), Vec::<&'static str>::new());
}

#[test]
fn a_chosen_initialiser_does_what_its_ide_does() {
    assert_eq!(Ide::CLion(CLion).name(), CLion.name());
    assert_eq!(Ide::EIDE(EIDE).name(), EIDE.name());
    assert_eq!(Ide::CMake(CMake).name(), CMake.name());
    assert_eq!(Ide::IdeNone(IdeNone).name(), IdeNone.name());
    assert_eq!(Ide::CLion(CLion).patches(&SOFT), CLion.patches(&SOFT));
    assert_eq!(Ide::EIDE(EIDE).patches(&SOFT), EIDE.patches(&SOFT));
    assert_eq!(Ide::CMake(CMake).patches(&HARD), CMake.patches(&HARD));
    assert_eq!(Ide::IdeNone(IdeNone).patches(&HARD), IdeNone.patches(&HARD));
}

#[test]
fn no_ide_and_eide_patch_nothing() {
    assert_eq!(IdeNone.patches(&HARD), Vec::new());
    assert_eq!(IdeNone.patches(&SOFT), Vec::new());
    assert_eq!(EIDE.patches(&HARD), Vec::new());
    assert_eq!(EIDE.patches(&SOFT), Vec::new());
}

#[test]
fn clion_patches_the_template() {
    let file = "CMakeLists_template.txt";
    let expected = |marker: &str| {
        vec![
            Patch::Replace {
                file: file.to_string(),
                find: "include_directories(${includes})".to_string(),
                insert: "include_directories(${includes} UserCode)".to_string(),
            },
            Patch::Replace {
                file: file.to_string(),
                find: "file(GLOB_RECURSE SOURCES ${sources})".to_string(),
                insert: "file(GLOB_RECURSE SOURCES ${sources} \"UserCode/*.*\")".to_string(),
            },
            Patch::UncommentBlock { file: file.to_string(), marker: marker.to_string() },
        ]
    };
    assert_eq!(CLion.patches(&HARD), expected("#Uncomment for hardware floating point"));
    assert_eq!(CLion.patches(&SOFT), expected("#Uncomment for software floating point"));
}

#[test]
fn clion_patches_a_template_as_generated() {
    let template = "include_directories(${includes})\n\
        #Uncomment for hardware floating point\n\
        #add_compile_options(-mfloat-abi=hard)\n\
        \n\
        #Uncomment for software floating point\n\
        #add_compile_options(-mfloat-abi=soft)\n\
        \n\
        file(GLOB_RECURSE SOURCES ${sources})\n";
    assert_eq!(
        patched(&CLion.patches(&SOFT), template),
        "include_directories(${includes} UserCode)\n\
        #Uncomment for hardware floating point\n\
        #add_compile_options(-mfloat-abi=hard)\n\
        \n\
        #Uncomment for software floating point\n\
        add_compile_options(-mfloat-abi=soft)\n\
        \n\
        file(GLOB_RECURSE SOURCES ${sources} \"UserCode/*.*\")\n"
    );
}

#[test]
fn clion_generates_again_where_a_template_was_there() {
    assert_eq!(CLion.regenerate(true), Some(Toolchain::STM32CubeIDE));
    assert_eq!(CLion.regenerate(false), None);
}

#[test]
fn cmake_patches_the_cmake_file() {
    let file = "CMakeLists.txt";
    let settings = "# Setup compiler settings\nset(CMAKE_C_STANDARD 11)\nset(CMAKE_C_STANDARD_REQUIRED ON)\nset(CMAKE_C_EXTENSIONS ON)";
    let hard = "\n#Uncomment for hardware floating point\nadd_compile_definitions(ARM_MATH_CM4;ARM_MATH_MATRIX_CHECK;ARM_MATH_ROUNDING)\nadd_compile_options(-mfloat-abi=hard -mfpu=fpv4-sp-d16)\nadd_link_options(-mfloat-abi=hard -mfpu=fpv4-sp-d16)\n\nadd_compile_options(-ffunction-sections -fdata-sections -fno-common -fmessage-length=0)\n";
    let soft = "\n#Uncomment for software floating point\nadd_compile_options(-mfloat-abi=soft)\n\nadd_compile_options(-ffunction-sections -fdata-sections -fno-common -fmessage-length=0)\n";
    let libraries = "\n# Add dependence from library\n# ===================== DEPENDENCIES =====================\n                     \n# e.g.\n#add_subdirectory(library/motor_drivers/UserCode)\n\nset(USER_LIBRARIES \"\")\n\n# =======================================================\n\n# every library will depend on stm32cubemx\nforeach (LIBRARY IN LISTS USER_LIBRARIES)\n    target_link_libraries(${LIBRARY} PRIVATE stm32cubemx)\nendforeach ()";
    let with = |options: &str| {
        vec![
            append(file, settings, options, "#Uncomment for hardware floating point"),
            append(
                file,
                "# Add sources to executable",
                "file(GLOB_RECURSE SOURCES \"UserCode/*.*\")",
                "file(GLOB_RECURSE SOURCES \"UserCode/*.*\")",
            ),
            append(file, "# Add user sources here", "    ${SOURCES}", "${SOURCES}"),
            append(
                file,
                "# Add include paths",
                "include_directories(UserCode)",
                "include_directories(UserCode)",
            ),
            append(
                file,
                "list(REMOVE_ITEM CMAKE_C_IMPLICIT_LINK_LIBRARIES ob)",
                libraries,
                "# Add dependence from library",
            ),
            append(file, "# Add user defined libraries", "    ${USER_LIBRARIES}", "${USER_LIBRARIES}"),
        ]
    };
    assert_eq!(CMake.patches(&HARD), with(hard));
    assert_eq!(CMake.patches(&SOFT), with(soft));
}

#[test]
fn cmake_patches_a_cmake_file_once() {
    let generated = "# Add sources to executable\n\
        target_sources(app PRIVATE\n\
        # Add user sources here\n\
        )\n\
        # Add include paths\n\
        list(REMOVE_ITEM CMAKE_C_IMPLICIT_LINK_LIBRARIES ob)\n\
        target_link_libraries(app\n\
        # Add user defined libraries\n\
        )\n";
    let once = patched(&CMake.patches(&HARD), generated);
    assert!(once.contains("# Add user sources here\n    ${SOURCES}\n"));
    assert!(once.contains("# Add include paths\ninclude_directories(UserCode)\n"));
    assert!(once.contains("# Add user defined libraries\n    ${USER_LIBRARIES}\n"));
    assert!(once.contains("endforeach ()\n"));
    assert_eq!(patched(&CMake.patches(&HARD), &once), once);
}

#[test]
fn eide_names_the_floating_point_unit() {
    assert_eq!(EIDE.floating_point_hardware(FPUType::Hard), "single");
    assert_eq!(EIDE.floating_point_hardware(FPUType::Soft), "none");
    assert_eq!(EIDE.fpu_type(FPUType::Hard), "hard");
    assert_eq!(EIDE.fpu_type(FPUType::Soft), "soft");
}

#[test]
fn eide_takes_sources_from_directories_that_are_not_hidden() {
    assert!(EIDE.is_source_dir("Core"));
    assert!(EIDE.is_source_dir("a.b"));
    assert!(EIDE.is_source_dir(""));
    assert!(!EIDE.is_source_dir(".git"));
    assert!(!EIDE.is_source_dir("."));
    for name in ["Core", ".eide", "", "x.", "..", "é"] {
        assert_eq!(EIDE.is_source_dir(name), !name.starts_with('.'));
    }
}

#[test]
fn eide_names_the_workspace_file() {
    assert_eq!(EIDE.workspace_file("demo"), "demo.code-workspace");
    assert_eq!(EIDE.workspace_file(""), ".code-workspace");
}

#[test]
fn eide_includes_the_user_code() {
    assert_eq!(
        EIDE.include_list(vec!["Core/Inc".to_string(), "Drivers".to_string()]),
        vec!["Core/Inc".to_string(), "Drivers".to_string(), "UserCode".to_string()]
    );
    assert_eq!(EIDE.include_list(Vec::new()), vec!["UserCode".to_string()]);
}

#[test]
fn the_creators_have_their_names() {
    assert_eq!(STM32H723VETx.name(), "STM32H723VETx");
    assert_eq!(CreatorArgs {}, CreatorArgs {});
}

#[test]
fn create_context_knows_where_the_code_goes() {
    let name = "demo".to_string();
    let dir = "/work/demo".to_string();
    let ioc = "/work/demo/demo.ioc".to_string();
    let ctx = CreateContext::new(&name, &dir, &ioc, &Toolchain::STM32CubeIDE);
    assert_eq!(ctx.project_name, "demo");
    assert_eq!(ctx.project_dir, "/work/demo");
    assert_eq!(ctx.ioc_file_path, "/work/demo/demo.ioc");
    assert_eq!(ctx.toolchain, "STM32CubeIDE");
    assert!(ctx.generate_under_root);
    let ctx = CreateContext::new(&name, &dir, &ioc, &Toolchain::Makefile);
    assert_eq!(ctx.toolchain, "Makefile");
    assert!(!ctx.generate_under_root);
}

#[test]
fn the_oscillator_patch_edits_the_configuration_file() {
    assert_eq!(ioc_file("demo"), "demo.ioc");
    assert_eq!(
        hse_patch("demo"),
        Patch::RegexReplace {
            file: "demo.ioc".to_string(),
            pattern: "RCC\\.HSE_VALUE=(\\d+)".to_string(),
            insert: "RCC.HSE_VALUE=8000000".to_string(),
        }
    );
    let content = "RCC.HSE_VALUE=25000000\nRCC.IPParameters=HSE_VALUE\n";
    assert_eq!(
        patched(&vec![hse_patch("demo")], content),
        "RCC.HSE_VALUE=8000000\nRCC.IPParameters=HSE_VALUE\n"
    );
}

#[test]
fn the_h723_patches_the_oscillator_and_the_memory_settings() {
    let name = "demo".to_string();
    let dir = "/work/demo".to_string();
    let ioc = "/work/demo/demo.ioc".to_string();
    let ctx = CreateContext::new(&name, &dir, &ioc, &Toolchain::CMake);
    let patches = STM32H723VETx.patches(&ctx, "MMTAppReg1.MEMORYMAP.Name=RAM\n");
    assert_eq!(
        patches,
        vec![
            hse_patch("demo"),
            Patch::RegexReplace {
                file: "demo.ioc".to_string(),
                pattern: "(MMT.+\n)+".to_string(),
                insert: "MMTAppReg1.MEMORYMAP.Name=RAM\n".to_string(),
            },
        ]
    );
    let content = "Mcu.Name=STM32H723\nMMTAppReg1.x=1\nMMTAppReg2.y=2\nRCC.HSE_VALUE=25000000\n";
    assert_eq!(
        patched(&patches, content),
        "Mcu.Name=STM32H723\nMMTAppReg1.MEMORYMAP.Name=RAM\nRCC.HSE_VALUE=8000000\n"
    );
}

#[test]
fn the_user_code_has_seven_directories() {
    assert_eq!(
        user_code_directories(),
        vec![
            "UserCode/bsp",
            "UserCode/drivers",
            "UserCode/third_party",
            "UserCode/libs",
            "UserCode/interfaces",
            "UserCode/controllers",
            "UserCode/app",
        ]
    );
}

#[test]
fn the_header_is_made_known_to_both_builds() {
    assert_eq!(
        header_patches(false, false),
        vec![
            append(
                "CMakeLists_template.txt",
                "add_executable",
                "\n# 非侵入式引入头文件\ntarget_compile_options(${PROJECT_NAME}.elf PRIVATE -include ${CMAKE_SOURCE_DIR}/UserCode/app/app.h)\n",
                "UserCode/app/app.h",
            ),
            append(
                "Makefile",
                "CFLAGS += $(MCU)",
                "\n# 非侵入式引入头文件\nCFLAGS += -include UserCode/app/app.h\n",
                "UserCode/app/app.h",
            ),
        ]
    );
}

#[test]
fn the_header_is_skipped_with_the_user_code() {
    assert_eq!(header_patches(true, false), Vec::new());
    assert_eq!(header_patches(false, true), Vec::new());
    assert_eq!(header_patches(true, true), Vec::new());
}

#[test]
fn the_header_patch_is_applied_once() {
    let makefile = "CFLAGS += $(MCU) $(C_DEFS)\nall:\n";
    let for_makefile = || header_patches(false, false).into_iter().skip(1).collect::<Vec<Patch>>();
    let once = patched(&for_makefile(), makefile);
    assert_eq!(
        once,
        "CFLAGS += $(MCU) $(C_DEFS)\n\n# 非侵入式引入头文件\nCFLAGS += -include UserCode/app/app.h\n\nall:\n"
    );
    assert_eq!(patched(&for_makefile(), &once), once);
}
