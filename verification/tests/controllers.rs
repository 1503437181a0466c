use pde::commands::application::{
    AppAction, ApplicationCommand, ApplicationCommandHandler, ApplicationSubcommands,
    RunningCheck,
};
use pde::commands::brightness::{
    BrightnessAction, BrightnessCommand, BrightnessCommandHandler, BrightnessSubcommands,
    ScreenChange,
};
use pde::commands::monitor::{MonitorCommand, MonitorCommandHandler, MonitorSubcommands};
use pde::commands::theme::ThemeCommandHandler;
use pde::config::Config;
use pde::config::theme_config::{ThemeConfig, ThemeSelectorConfig};
use pde::invocation::Invocation;
use pde::modules::brightness::{BrightnessControl, BrightnessControlStep};
use pde::modules::flatpak::Flatpak;
use pde::modules::notification::Notification;
use pde::modules::wallpaper::Wallpaper;
use pde::modules::wallust::Wallust;
use pde::utils::command_extensions::{dispatch, killall, pgrep};

fn invocation(program: &str, args: &[&str]) -> Invocation {
    Invocation {
        program: program.to_owned(),
        args: args.iter().map(|a| a.to_string()).collect(),
    }
}

#[test]
fn brightness_control_builds_exact_commands() {
    let screen = BrightnessControl::new(BrightnessControlStep::Percent(2), None);
    assert_eq!(screen.get(), invocation("brightnessctl", &["g", "-P"]));
    assert_eq!(screen.increment(), invocation("brightnessctl", &["set", "+2%"]));
    assert_eq!(screen.decrement(), invocation("brightnessctl", &["set", "2%-"]));
    assert_eq!(screen.set_brightness("50%"), invocation("brightnessctl", &["set", "50%"]));

    let keyboard = BrightnessControl::new(
        BrightnessControlStep::Absolute(1),
        Some("kbd_backlight".to_owned()),
    );
    assert_eq!(
        keyboard.increment(),
        invocation("brightnessctl", &["-d", "kbd_backlight", "set", "1+"])
    );
    assert_eq!(
        keyboard.decrement(),
        invocation("brightnessctl", &["-d", "kbd_backlight", "set", "1-"])
    );
}

#[test]
fn brightness_toggle_restores_or_saves() {
    let screen = BrightnessControl::new(BrightnessControlStep::Percent(2), None);
    assert_eq!(screen.toggle(0), vec![invocation("brightnessctl", &["--restore"])]);
    assert_eq!(
        screen.toggle(37),
        vec![
            invocation("brightnessctl", &["--save"]),
            invocation("brightnessctl", &["set", "0"]),
        ]
    );
}

#[test]
fn brightness_handler_decides_per_subcommand() {
    let config = Config::default();
    let handler = BrightnessCommandHandler::create(&config);
    let action = handler.handle(&BrightnessCommand { command: BrightnessSubcommands::Increase });
    match action {
        BrightnessAction::Screen { change, icon } => {
            assert_eq!(change, ScreenChange::Increase);
            assert_eq!(icon, "plus");
        }
        _ => panic!("increase drives the screen"),
    }
    let action =
        handler.handle(&BrightnessCommand { command: BrightnessSubcommands::KeyboardDecrease });
    assert!(matches!(action, BrightnessAction::Keyboard { increase: false }));
}

#[test]
fn keyboard_controller_needs_a_configured_device() {
    let config = Config::default();
    let handler = BrightnessCommandHandler::create(&config);
    match handler.keyboard_ctl() {
        Err(msg) => assert_eq!(msg, "brightness.keyboard_device is not defined"),
        Ok(_) => panic!("no keyboard device is configured"),
    }

    let mut config = Config::default();
    config.brightness.keyboard_device = Some("kbd".to_owned());
    let handler = BrightnessCommandHandler::create(&config);
    let ctl = handler.keyboard_ctl().expect("device configured");
    assert_eq!(ctl.increment(), invocation("brightnessctl", &["-d", "kbd", "set", "1+"]));
}

#[test]
fn brightness_notification_carries_level_and_icon() {
    let mut config = Config::default();
    config.general.resource_root_dir = "/res".to_owned();
    let handler = BrightnessCommandHandler::create(&config);
    let inv = handler.notify(42, "plus");
    assert_eq!(
        inv,
        invocation(
            "notify-send",
            &[
                "-e",
                "-i",
                "/res/theme/wallust/icons/brightness-plus.svg",
                "-h",
                "string:x-canonical-private-synchronous:pde_brightness",
                "-u",
                "low",
                "-t",
                "3000",
                "Brightness: 42%",
            ]
        )
    );
}

#[test]
fn notification_builder_orders_every_flag() {
    let inv = Notification::message("Volume (30%)")
        .body("###".to_owned())
        .transient()
        .timeout(1500)
        .icon("/icons/v.svg")
        .sync_group("pde_volume")
        .send();
    assert_eq!(
        inv,
        invocation(
            "notify-send",
            &[
                "-e",
                "-i",
                "/icons/v.svg",
                "-h",
                "string:x-canonical-private-synchronous:pde_volume",
                "-u",
                "low",
                "-t",
                "1500",
                "Volume (30%)",
                "###",
            ]
        )
    );
}

#[test]
fn plain_notification_has_only_the_defaults() {
    let inv = Notification::message("hello").send();
    assert_eq!(inv, invocation("notify-send", &["-u", "low", "-t", "3000", "hello"]));
}

#[test]
fn flatpak_listing_is_read_after_its_header() {
    assert!(Flatpak::is_running("org.app.One", "APPLICATION\norg.app.One\norg.app.Two"));
    assert!(!Flatpak::is_running("org.app.One", "APPLICATION\norg.app.Two"));
    // The header line itself never counts as a running application.
    assert!(!Flatpak::is_running("APPLICATION", "APPLICATION"));
    assert_eq!(
        Flatpak::ps_invocation(),
        invocation("flatpak", &["ps", "--columns=application"])
    );
    assert_eq!(Flatpak::kill("org.app.One"), invocation("flatpak", &["kill", "org.app.One"]));
}

#[test]
fn wallpaper_restarts_the_daemon() {
    assert_eq!(
        Wallpaper::set("/w.png", true),
        vec![
            invocation("killall", &["swaybg"]),
            invocation("hyprctl", &["dispatch", "--", "exec", "swaybg", "-i", "/w.png"]),
        ]
    );
    assert_eq!(
        Wallpaper::set("/w.png", false),
        vec![invocation("hyprctl", &["dispatch", "--", "exec", "swaybg", "-i", "/w.png"])]
    );
}

#[test]
fn wallust_runs_on_the_wallpaper() {
    assert_eq!(Wallust::run("/w.png"), invocation("wallust", &["run", "-s", "/w.png"]));
}

#[test]
fn system_command_builders() {
    assert_eq!(dispatch("waybar"), invocation("hyprctl", &["dispatch", "--", "exec", "waybar"]));
    assert_eq!(killall("waybar"), invocation("killall", &["waybar"]));
    assert_eq!(pgrep("waybar"), invocation("pgrep", &["waybar"]));
}

#[test]
fn toggling_a_stopped_flatpak_launches_it() {
    let action = ApplicationCommandHandler::handle_flatpak_app("org.app.One", &None, false);
    assert_eq!(action, AppAction::Exec { command: "flatpak run org.app.One".to_owned() });
    let action = ApplicationCommandHandler::handle_flatpak_app("org.app.One", &None, true);
    assert_eq!(action, AppAction::KillFlatpak { app: "org.app.One".to_owned() });
    let action = ApplicationCommandHandler::handle_flatpak_app(
        "org.app.One",
        &Some("scratch".to_owned()),
        true,
    );
    assert_eq!(action, AppAction::ToggleSpecialWorkspace { workspace: "scratch".to_owned() });
}

#[test]
fn toggling_a_stopped_system_app_launches_it_under_its_rules() {
    let rules = vec!["float".to_owned(), "size 800 600".to_owned()];
    let action = ApplicationCommandHandler::handle_sys_app(
        "kitty",
        &Some("term".to_owned()),
        &rules,
        false,
    );
    assert_eq!(
        action,
        AppAction::Exec {
            command: "[float; size 800 600; workspace special:term] kitty".to_owned(),
        }
    );
    let action = ApplicationCommandHandler::handle_sys_app("kitty", &None, &rules, true);
    assert_eq!(action, AppAction::Killall { app: "kitty".to_owned() });
}

#[test]
fn running_check_reads_the_client_list() {
    let clients = vec![
        ("kitty".to_owned(), "special:term".to_owned()),
        ("firefox".to_owned(), "2".to_owned()),
    ];
    assert_eq!(
        ApplicationCommandHandler::is_sys_app_running("kitty", &Some("term".to_owned()), &clients),
        RunningCheck::Running
    );
    assert_eq!(
        ApplicationCommandHandler::is_sys_app_running("kitty", &Some("other".to_owned()), &clients),
        RunningCheck::NotRunning
    );
    assert_eq!(
        ApplicationCommandHandler::is_sys_app_running("firefox", &None, &clients),
        RunningCheck::Running
    );
    assert_eq!(
        ApplicationCommandHandler::is_sys_app_running("mpv", &None, &clients),
        RunningCheck::CheckProcesses
    );
}

#[test]
fn theme_handler_resolves_its_paths() {
    let mut config = Config::default();
    config.general.resource_root_dir = "/res".to_owned();
    let handler = ThemeCommandHandler::create(&config);
    assert_eq!(handler.wallpaper_target_path, "/res/theme/wallpaper.png");
    assert_eq!(handler.theme_variables_path, "/res/theme/variables.toml");
    assert_eq!(handler.wallpapers_dirs, vec!["~/wallpapers".to_owned()]);

    let mut config = Config::default();
    config.theme = ThemeConfig {
        wallpaper_store_path: Some("/store/w.png".to_owned()),
        theme_variables_path: None,
        on_init: vec![],
        selector: ThemeSelectorConfig {
            wallpapers_dirs: vec!["/walls".to_owned()],
            config_path: Some("/rofi.rasi".to_owned()),
        },
    };
    let handler = ThemeCommandHandler::create(&config);
    assert_eq!(handler.wallpaper_target_path, "/store/w.png");
    assert_eq!(handler.wallpapers_dirs, vec!["/walls".to_owned()]);
    assert_eq!(handler.theme_selector_config_path, Some("/rofi.rasi".to_owned()));
}

#[test]
fn on_init_commands_get_their_variables() {
    let mut config = Config::default();
    config.theme.on_init =
        vec!["swww img {{ wallpaper }}".to_owned(), "echo {{theme}} {{ wallpaper }}".to_owned()];
    let handler = ThemeCommandHandler::create(&config);
    let rendered = handler.render_on_init_commands(&vec![
        ("wallpaper".to_owned(), "/w.png".to_owned()),
        ("theme".to_owned(), "dark".to_owned()),
    ]);
    assert_eq!(
        rendered,
        vec!["swww img /w.png".to_owned(), "echo dark /w.png".to_owned()]
    );
}

#[test]
fn menu_lines_carry_the_icon_attribute() {
    assert_eq!(
        ThemeCommandHandler::menu_line("a.png", "/walls/a.png"),
        "a.png\u{0}icon\u{1f}/walls/a.png"
    );
}

#[test]
fn reload_restarts_a_running_program() {
    assert_eq!(
        ThemeCommandHandler::reload("waybar", true),
        vec![
            invocation("killall", &["waybar"]),
            invocation("hyprctl", &["dispatch", "--", "exec", "waybar"]),
        ]
    );
    assert_eq!(
        ThemeCommandHandler::reload("waybar", false),
        vec![invocation("hyprctl", &["dispatch", "--", "exec", "waybar"])]
    );
}

#[test]
fn monitor_toggle_is_work_in_progress() {
    let handler = MonitorCommandHandler::create();
    let err = handler
        .handle(&MonitorCommand {
            command: MonitorSubcommands::Toggle { monitor: "DP-1".to_owned() },
        })
        .unwrap_err();
    assert_eq!(err, "work in progress");
}

#[test]
fn toggle_dispatches_on_the_container_flag() {
    let command = ApplicationCommand {
        command: ApplicationSubcommands::Toggle {
            app: "org.app.One".to_owned(),
            flatpak: true,
            special_workspace: None,
            window_rules: vec![],
        },
    };
    let action = ApplicationCommandHandler::create().handle(&command, false);
    assert_eq!(action, AppAction::Exec { command: "flatpak run org.app.One".to_owned() });

    let command = ApplicationCommand {
        command: ApplicationSubcommands::Toggle {
            app: "kitty".to_owned(),
            flatpak: false,
            special_workspace: None,
            window_rules: vec![],
        },
    };
    let action = ApplicationCommandHandler::create().handle(&command, true);
    assert_eq!(action, AppAction::Killall { app: "kitty".to_owned() });
}
