use pde::commands::install::{Action, Execution, ProfileModule};
use pde::config::profiles::tools_config::ToolConfig;
use pde::errors::InstallError;
use pde::invocation::Invocation;

fn invocation(program: &str, args: &[&str]) -> Invocation {
    Invocation {
        program: program.to_owned(),
        args: args.iter().map(|a| a.to_string()).collect(),
    }
}

fn tool_step(cmd: &str, batching: bool, packages: &[&str]) -> ProfileModule {
    ProfileModule::Tool {
        name: "step".to_owned(),
        config: ToolConfig { cmd: cmd.to_owned(), batching },
        packages: packages.iter().map(|p| p.to_string()).collect(),
    }
}

#[test]
fn batching_tool_is_invoked_once_with_all_packages() {
    let invocations = ProfileModule::execute_tool(
        &ToolConfig { cmd: "pacman -S {}".to_owned(), batching: true },
        &vec!["a".to_owned(), "b".to_owned()],
    );
    assert_eq!(invocations, vec![invocation("pacman", &["-S", "a", "b"])]);
}

#[test]
fn non_batching_tool_is_invoked_once_per_package() {
    let invocations = ProfileModule::execute_tool(
        &ToolConfig { cmd: "pacman -S {}".to_owned(), batching: false },
        &vec!["a".to_owned(), "b".to_owned()],
    );
    assert_eq!(
        invocations,
        vec![invocation("pacman", &["-S", "a"]), invocation("pacman", &["-S", "b"])]
    );
}

#[test]
fn packages_are_appended_when_the_template_has_no_marker() {
    let invocations = ProfileModule::execute_tool(
        &ToolConfig { cmd: "apt install".to_owned(), batching: true },
        &vec!["vim".to_owned()],
    );
    assert_eq!(invocations, vec![invocation("apt", &["install", "vim"])]);
}

#[test]
fn marker_may_sit_between_words() {
    let invocations = ProfileModule::execute_tool(
        &ToolConfig { cmd: "nix profile install {} --verbose".to_owned(), batching: true },
        &vec!["hello".to_owned()],
    );
    assert_eq!(
        invocations,
        vec![invocation("nix", &["profile", "install", "hello", "--verbose"])]
    );
}

#[test]
fn script_step_runs_through_the_shell() {
    let step = ProfileModule::Script { name: "s".to_owned(), script: "echo hi && ls".to_owned() };
    let actions = step.execute().expect("script plans");
    assert_eq!(
        actions,
        vec![Action::Run { invocation: invocation("sh", &["-c", "echo hi && ls"]) }]
    );
}

#[test]
fn archive_step_extracts_under_the_derived_name() {
    let step = ProfileModule::Zip {
        name: "z".to_owned(),
        target_dir: "/opt/x".to_owned(),
        packages: vec!["https://example.com/pkg-1.0.zip".to_owned()],
    };
    let actions = step.execute().expect("archive plans");
    assert_eq!(
        actions,
        vec![Action::Fetch {
            url: "https://example.com/pkg-1.0.zip".to_owned(),
            dest: "/opt/x/pkg-1.0".to_owned(),
        }]
    );
}

#[test]
fn package_name_strips_only_a_trailing_zip_suffix() {
    assert_eq!(
        ProfileModule::package_name_from_path("https://example.com/pkg-1.0.zip").unwrap(),
        "pkg-1.0"
    );
    assert_eq!(
        ProfileModule::package_name_from_path("https://example.com/pkg.tar").unwrap(),
        "pkg.tar"
    );
    assert_eq!(ProfileModule::package_name_from_path("just-a-name.zip").unwrap(), "just-a-name");
}

#[test]
fn url_without_final_segment_is_invalid() {
    let err = ProfileModule::package_name_from_path("https://example.com/").unwrap_err();
    assert_eq!(
        err,
        InstallError::InvalidPackageUrl { url: "https://example.com/".to_owned() }
    );

    let step = ProfileModule::Zip {
        name: "z".to_owned(),
        target_dir: "/opt/x".to_owned(),
        packages: vec!["https://example.com/".to_owned()],
    };
    assert!(step.execute().is_err());
}

#[test]
fn failing_step_stops_the_run_and_keeps_earlier_work() {
    let steps = vec![
        ProfileModule::Script { name: "one".to_owned(), script: "true".to_owned() },
        ProfileModule::Script { name: "two".to_owned(), script: "false".to_owned() },
        ProfileModule::Script { name: "three".to_owned(), script: "true".to_owned() },
    ];
    let mut run = Execution::new(steps);

    let first = run.next_step().expect("first step is handed out");
    assert_eq!(first.step_name(), "one");
    run.record(true);

    let second = run.next_step().expect("second step is handed out");
    assert_eq!(second.step_name(), "two");
    run.record(false);

    assert!(run.next_step().is_none());
}

#[test]
fn successful_run_walks_every_step_in_order() {
    let steps = vec![
        ProfileModule::Script { name: "one".to_owned(), script: "true".to_owned() },
        ProfileModule::Script { name: "two".to_owned(), script: "true".to_owned() },
    ];
    let mut run = Execution::new(steps);
    let mut seen: Vec<String> = Vec::new();
    while let Some(step) = run.next_step() {
        seen.push(step.step_name().clone());
        run.record(true);
    }
    assert_eq!(seen, vec!["one".to_owned(), "two".to_owned()]);
}

#[test]
fn tool_step_plans_its_invocations_as_actions() {
    let step = tool_step("pacman -S", true, &["a", "b"]);
    let actions = step.execute().expect("tool plans");
    assert_eq!(
        actions,
        vec![Action::Run { invocation: invocation("pacman", &["-S", "a", "b"]) }]
    );
}

#[test]
fn from_string_splits_program_and_arguments() {
    let inv = Invocation::from_string("pacman -S vim");
    assert_eq!(inv, invocation("pacman", &["-S", "vim"]));
    let bare = Invocation::from_string("ls");
    assert_eq!(bare, invocation("ls", &[]));
}
