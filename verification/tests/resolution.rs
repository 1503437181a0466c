use pde::commands::install::{InstallCommandHandler, ProfileModule};
use pde::config::profiles::module_config::{ModuleConfig, ModuleStep, RawStep, classify_step};
use pde::config::profiles::profiles_config::ProfilesConfig;
use pde::config::profiles::tools_config::ToolConfig;
use pde::errors::InstallError;

fn tool(cmd: &str, batching: bool) -> ToolConfig {
    ToolConfig { cmd: cmd.to_owned(), batching }
}

fn tool_step(name: &str, tool: &str, packages: &[&str]) -> ModuleStep {
    ModuleStep::Tool {
        name: name.to_owned(),
        tool: tool.to_owned(),
        packages: packages.iter().map(|p| p.to_string()).collect(),
    }
}

fn script_step(name: &str, script: &str) -> ModuleStep {
    ModuleStep::Script { name: name.to_owned(), script: script.to_owned() }
}

fn sample_config() -> ProfilesConfig {
    ProfilesConfig {
        tools_definitions: None,
        modules_definitions: None,
        default_profile: Some("main".to_owned()),
        profiles: vec![
            ("main".to_owned(), vec!["a".to_owned(), "b".to_owned()]),
            ("broken".to_owned(), vec!["a".to_owned(), "missing".to_owned()]),
        ],
        tools: vec![("pacman".to_owned(), tool("pacman -S", true))],
        modules: vec![
            (
                "a".to_owned(),
                ModuleConfig {
                    name: "a".to_owned(),
                    steps: vec![
                        tool_step("install packages", "pacman", &["vim", "git"]),
                        script_step("hello", "echo hello"),
                    ],
                },
            ),
            (
                "b".to_owned(),
                ModuleConfig {
                    name: "b".to_owned(),
                    steps: vec![script_step("goodbye", "echo goodbye")],
                },
            ),
        ],
    }
}

#[test]
fn resolves_two_modules_in_order() {
    let config = sample_config();
    let resolved = InstallCommandHandler::create()
        .resolve_profile(&config, &None)
        .expect("profile resolves");
    assert_eq!(resolved.len(), 3);
    assert_eq!(
        resolved[0],
        ProfileModule::Tool {
            name: "install packages".to_owned(),
            config: tool("pacman -S", true),
            packages: vec!["vim".to_owned(), "git".to_owned()],
        }
    );
    assert_eq!(
        resolved[1],
        ProfileModule::Script { name: "hello".to_owned(), script: "echo hello".to_owned() }
    );
    assert_eq!(
        resolved[2],
        ProfileModule::Script { name: "goodbye".to_owned(), script: "echo goodbye".to_owned() }
    );
}

#[test]
fn requested_profile_wins_over_default() {
    let config = sample_config();
    let err = InstallCommandHandler::create()
        .resolve_profile(&config, &Some("broken".to_owned()))
        .expect_err("broken profile must not resolve");
    assert_eq!(err, InstallError::ModuleNotFound { module: "missing".to_owned() });
}

#[test]
fn missing_profile_is_reported() {
    let config = sample_config();
    let err = InstallCommandHandler::create()
        .resolve_profile(&config, &Some("nope".to_owned()))
        .expect_err("unknown profile");
    assert_eq!(err, InstallError::ProfileNotFound { profile: "nope".to_owned() });
}

#[test]
fn no_profile_selected_is_reported() {
    let mut config = sample_config();
    config.default_profile = None;
    let err = InstallCommandHandler::create()
        .resolve_profile(&config, &None)
        .expect_err("nothing selected");
    assert_eq!(err, InstallError::ProfileNotSelected);
}

#[test]
fn undefined_module_fails_resolution() {
    let config = sample_config();
    let err = InstallCommandHandler::create()
        .resolve_profile(&config, &Some("broken".to_owned()))
        .expect_err("missing module");
    assert_eq!(err, InstallError::ModuleNotFound { module: "missing".to_owned() });
}

#[test]
fn undefined_tool_fails_resolution() {
    let mut config = sample_config();
    config.modules.push((
        "c".to_owned(),
        ModuleConfig {
            name: "c".to_owned(),
            steps: vec![tool_step("needs tool", "cargo", &["ripgrep"])],
        },
    ));
    config.profiles.push(("with-c".to_owned(), vec!["c".to_owned()]));
    let err = InstallCommandHandler::create()
        .resolve_profile(&config, &Some("with-c".to_owned()))
        .expect_err("missing tool");
    assert_eq!(err, InstallError::ToolNotFound { tool: "cargo".to_owned() });
}

#[test]
fn module_overlay_wins_over_inline() {
    let mut config = sample_config();
    let overlay = vec![ModuleConfig {
        name: "b".to_owned(),
        steps: vec![script_step("external", "echo external")],
    }];
    config.parse_modules_definitions(overlay);
    let resolved = InstallCommandHandler::create()
        .resolve_profile(&config, &None)
        .expect("profile resolves");
    assert_eq!(resolved.len(), 3);
    assert_eq!(
        resolved[2],
        ProfileModule::Script { name: "external".to_owned(), script: "echo external".to_owned() }
    );
}

#[test]
fn tool_overlay_wins_over_inline() {
    let mut config = sample_config();
    config.parse_tools_definitions(vec![("pacman".to_owned(), tool("paru -S", false))]);
    let resolved = InstallCommandHandler::create()
        .resolve_profile(&config, &None)
        .expect("profile resolves");
    match &resolved[0] {
        ProfileModule::Tool { config: tc, .. } => assert_eq!(tc, &tool("paru -S", false)),
        other => panic!("expected a tool step, got {:?}", other),
    }
}

#[test]
fn classify_step_recognises_each_shape() {
    let tool_raw = RawStep {
        name: Some("s".to_owned()),
        tool: Some("pacman".to_owned()),
        script: None,
        extract_zip_to: None,
        packages: Some(vec!["vim".to_owned()]),
    };
    assert_eq!(
        classify_step(tool_raw),
        Some(ModuleStep::Tool {
            name: "s".to_owned(),
            tool: "pacman".to_owned(),
            packages: vec!["vim".to_owned()],
        })
    );

    let zip_raw = RawStep {
        name: Some("s".to_owned()),
        tool: None,
        script: None,
        extract_zip_to: Some("/opt".to_owned()),
        packages: Some(vec!["https://example.com/a.zip".to_owned()]),
    };
    assert_eq!(
        classify_step(zip_raw),
        Some(ModuleStep::Zip {
            name: "s".to_owned(),
            extract_zip_to: "/opt".to_owned(),
            packages: vec!["https://example.com/a.zip".to_owned()],
        })
    );

    let script_raw = RawStep {
        name: Some("s".to_owned()),
        tool: None,
        script: Some("echo hi".to_owned()),
        extract_zip_to: None,
        packages: None,
    };
    assert_eq!(
        classify_step(script_raw),
        Some(ModuleStep::Script { name: "s".to_owned(), script: "echo hi".to_owned() })
    );
}

#[test]
fn classify_step_prefers_tool_and_needs_a_name() {
    let both = RawStep {
        name: Some("s".to_owned()),
        tool: Some("pacman".to_owned()),
        script: Some("echo hi".to_owned()),
        extract_zip_to: None,
        packages: Some(vec![]),
    };
    assert!(matches!(classify_step(both), Some(ModuleStep::Tool { .. })));

    let nameless = RawStep {
        name: None,
        tool: Some("pacman".to_owned()),
        script: None,
        extract_zip_to: None,
        packages: Some(vec![]),
    };
    assert_eq!(classify_step(nameless), None);

    let tool_without_packages = RawStep {
        name: Some("s".to_owned()),
        tool: Some("pacman".to_owned()),
        script: Some("echo hi".to_owned()),
        extract_zip_to: None,
        packages: None,
    };
    assert!(matches!(classify_step(tool_without_packages), Some(ModuleStep::Script { .. })));
}

#[test]
fn error_messages_name_the_offender() {
    assert_eq!(
        InstallError::ModuleNotFound { module: "x".to_owned() }.message(),
        "module not found: x"
    );
    assert_eq!(InstallError::ProfileNotSelected.message(), "profile is not selected");
    assert_eq!(
        InstallError::ProcessFailed { program: "pacman".to_owned(), stderr: "boom".to_owned() }
            .message(),
        "[pacman]\nboom"
    );
}
