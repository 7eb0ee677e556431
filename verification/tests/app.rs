use kite_tools::app::{App, CommandState, DeferredAction, Effect, Modal};
use kite_tools::host::HostInfo;
use kite_tools::model::{Key, SessionStatus, ViewState};

fn host(name: Option<&str>, version: Option<&str>) -> HostInfo {
    HostInfo { os_name: name.map(String::from), os_version: version.map(String::from) }
}

fn kite(version: &str) -> HostInfo {
    host(Some("Kite Linux"), Some(version))
}

fn other() -> HostInfo {
    host(Some("Ubuntu"), Some("24.04"))
}

fn strings(items: &[&str]) -> Vec<String> {
    items.iter().map(|s| s.to_string()).collect()
}

fn launch(program: &str, args: &[&str]) -> Effect {
    Effect::Launch { program: program.to_string(), args: strings(args) }
}

fn with_packages(text: &str) -> App {
    let mut app = App::new();
    app.load_packages(&Some(text.to_string()));
    app
}

fn checking() -> App {
    let mut app = App::new();
    app.next();
    let effect = app.on_key(Key::Enter, &kite("1.2.2"));
    assert_eq!(effect, launch("sudo", &["/usr/src/kite-tools/check_update.sh", "--no-info"]));
    app.process_started(4242);
    app
}

#[test]
fn the_interface_starts_on_the_main_menu() {
    let app = App::new();
    assert_eq!(app.view_state(), ViewState::MainMenu);
    assert_eq!(app.menu_selected(), Some(0));
    assert_eq!(app.status(), "Добро пожаловать в инструменты управления Коршун");
    assert_eq!(*app.modal(), Modal::Hidden);
    assert!(app.package_list().is_empty());
    assert!(app.selected_packages().is_empty());
    assert_eq!(app.package_selected(), None);
    assert_eq!(app.custom_package_input(), "");
    assert_eq!(app.session(), SessionStatus::Idle);
    assert_eq!(app.script_process(), None);
    assert!(app.script_output().is_empty());
    assert_eq!(app.script_last_view_state(), ViewState::MainMenu);
    assert_eq!(app.installation_type_selected(), None);
    assert_eq!(app.uninstall_type_selected(), None);
    assert_eq!(app.scroll_position(), 0);
    assert!(app.is_well_formed());
}

#[test]
fn the_menu_cursor_wraps_at_both_ends() {
    let mut app = App::new();
    app.previous();
    assert_eq!(app.menu_selected(), Some(3));
    app.next();
    assert_eq!(app.menu_selected(), Some(0));
    for expected in [1, 2, 3, 0, 1] {
        assert_eq!(app.on_key(Key::Down, &other()), Effect::Nothing);
        assert_eq!(app.menu_selected(), Some(expected));
    }
    for expected in [0, 3, 2] {
        assert_eq!(app.on_key(Key::Up, &other()), Effect::Nothing);
        assert_eq!(app.menu_selected(), Some(expected));
    }
    assert!(app.is_well_formed());
}

#[test]
fn q_leaves_from_the_lists_and_is_typed_into_the_input() {
    let mut app = App::new();
    assert_eq!(app.on_key(Key::Char('q'), &other()), Effect::Quit);
    assert_eq!(app.on_key(Key::Char('x'), &other()), Effect::Nothing);
    let mut app = with_packages("vim\n");
    assert_eq!(app.on_key(Key::Char('q'), &other()), Effect::Quit);
    app.toggle_package();
    assert_eq!(app.view_state(), ViewState::CustomPackageInput);
    assert_eq!(app.on_key(Key::Char('q'), &other()), Effect::Nothing);
    assert_eq!(app.custom_package_input(), "q");
    let mut app = App::new();
    app.handle_install(&Some("Ubuntu".to_string()));
    assert_eq!(app.on_key(Key::Char('q'), &other()), Effect::Quit);
    let mut app = App::new();
    app.handle_uninstall(&Some("Kite Linux".to_string()));
    assert_eq!(app.on_key(Key::Char('q'), &other()), Effect::Quit);
}

#[test]
fn q_does_not_leave_while_a_command_runs() {
    let mut app = checking();
    assert_eq!(app.on_key(Key::Char('q'), &kite("1")), Effect::Nothing);
    assert_eq!(app.view_state(), ViewState::UpdateCheck);
    let mut app = App::new();
    app.run_command_progress("yay".to_string(), strings(&["-S"]));
    assert_eq!(app.on_key(Key::Char('q'), &kite("1")), Effect::Nothing);
    assert_eq!(app.view_state(), ViewState::ScriptProgress);
    assert_eq!(app.session(), SessionStatus::Running);
}

#[test]
fn install_is_refused_on_an_installed_system() {
    let mut app = App::new();
    assert_eq!(app.on_key(Key::Enter, &kite("1.0")), Effect::Nothing);
    assert_eq!(*app.modal(), Modal::Error("Система уже установлена".to_string()));
    assert_eq!(app.view_state(), ViewState::MainMenu);
    let mut app = App::new();
    app.handle_install(&Some("Great Kite Linux Edition".to_string()));
    assert_eq!(*app.modal(), Modal::Error("Система уже установлена".to_string()));
}

#[test]
fn install_is_refused_on_an_unknown_system() {
    let mut app = App::new();
    assert_eq!(app.on_key(Key::Enter, &host(None, None)), Effect::Nothing);
    assert_eq!(
        *app.modal(),
        Modal::Error("Не удалось определить операционную систему".to_string())
    );
    assert_eq!(app.view_state(), ViewState::MainMenu);
}

#[test]
fn install_on_another_system_asks_for_the_kind_and_for_confirmation() {
    let mut app = App::new();
    assert_eq!(app.on_key(Key::Enter, &other()), Effect::Nothing);
    assert_eq!(app.view_state(), ViewState::InstallationType);
    assert_eq!(app.installation_type_selected(), Some(0));
    assert!(app.take_terminal_clear());
    assert!(!app.take_terminal_clear());
    assert_eq!(app.on_key(Key::Up, &other()), Effect::Nothing);
    assert_eq!(app.installation_type_selected(), Some(2));
    assert_eq!(app.on_key(Key::Down, &other()), Effect::Nothing);
    assert_eq!(app.on_key(Key::Down, &other()), Effect::Nothing);
    assert_eq!(app.installation_type_selected(), Some(1));
    assert_eq!(app.on_key(Key::Enter, &other()), Effect::Nothing);
    assert_eq!(
        *app.modal(),
        Modal::Confirmation(
            "Вы уверены, что хотите установить версию Development?\nВсе данные на диске будут удалены!"
                .to_string(),
            DeferredAction::RunInstall("developer".to_string())
        )
    );
    let effect = app.on_key(Key::Enter, &other());
    assert_eq!(
        effect,
        launch("sudo", &["/usr/src/kite-tools/install.sh", "developer", "--no-confirm"])
    );
    assert_eq!(*app.modal(), Modal::Hidden);
    assert_eq!(app.view_state(), ViewState::ScriptProgress);
    assert_eq!(app.script_last_view_state(), ViewState::InstallationType);
    assert_eq!(app.session(), SessionStatus::Running);
    assert!(app.is_well_formed());
}

#[test]
fn a_dismissed_confirmation_does_nothing() {
    let mut app = App::new();
    app.handle_install(&Some("Ubuntu".to_string()));
    app.handle_installation_type();
    assert_eq!(
        *app.modal(),
        Modal::Confirmation(
            "Вы уверены, что хотите установить версию Stable?\nВсе данные на диске будут удалены!"
                .to_string(),
            DeferredAction::RunInstall("stable".to_string())
        )
    );
    assert_eq!(app.on_key(Key::Down, &other()), Effect::Nothing);
    assert_eq!(app.installation_type_selected(), Some(0));
    assert_eq!(app.on_key(Key::Char('q'), &other()), Effect::Nothing);
    assert_eq!(app.on_key(Key::Esc, &other()), Effect::Nothing);
    assert_eq!(*app.modal(), Modal::Hidden);
    assert_eq!(app.view_state(), ViewState::InstallationType);
    assert_eq!(app.session(), SessionStatus::Idle);
    assert_eq!(app.on_key(Key::Esc, &other()), Effect::Nothing);
    assert_eq!(app.view_state(), ViewState::MainMenu);
}

#[test]
fn run_installation_script_launches_the_kind_under_the_cursor() {
    let mut app = App::new();
    assert_eq!(app.run_installation_script(), Effect::Nothing);
    app.handle_install(&Some("Ubuntu".to_string()));
    app.on_key(Key::Up, &other());
    assert_eq!(
        app.run_installation_script(),
        launch("sudo", &["/usr/src/kite-tools/install.sh", "experimental", "--no-confirm"])
    );
}

#[test]
fn update_is_refused_on_another_system() {
    let mut app = App::new();
    app.next();
    assert_eq!(app.on_key(Key::Enter, &other()), Effect::Nothing);
    assert_eq!(
        *app.modal(),
        Modal::Error(
            "Обновление не поддерживается для данной операционной системы: Ubuntu".to_string()
        )
    );
    assert_eq!(app.on_key(Key::Enter, &other()), Effect::Nothing);
    assert_eq!(*app.modal(), Modal::Hidden);
    assert_eq!(app.handle_update(&None), Effect::Nothing);
    assert_eq!(
        *app.modal(),
        Modal::Error("Не удалось определить операционную систему".to_string())
    );
    assert_eq!(app.session(), SessionStatus::Idle);
}

#[test]
fn update_on_an_installed_system_launches_the_check() {
    let app = checking();
    assert_eq!(app.view_state(), ViewState::UpdateCheck);
    assert_eq!(app.script_last_view_state(), ViewState::MainMenu);
    assert_eq!(app.session(), SessionStatus::Running);
    assert_eq!(app.script_process(), Some(4242));
    assert!(app.is_well_formed());
}

#[test]
fn a_newer_version_asks_whether_to_update() {
    let mut app = checking();
    let events = vec![CommandState::OutputLine("1.2.3".to_string()), CommandState::Completed];
    app.tick(&events, &kite("1.2.2"));
    assert_eq!(
        *app.modal(),
        Modal::Confirmation(
            "Найдена новая версия 1.2.3!\nВы действительно хотите обновить систему?".to_string(),
            DeferredAction::RunUpdate("1.2.3".to_string())
        )
    );
    assert_eq!(app.view_state(), ViewState::MainMenu);
    assert_eq!(app.session(), SessionStatus::Idle);
    assert_eq!(app.script_process(), None);
    let effect = app.on_key(Key::Enter, &kite("1.2.2"));
    assert_eq!(
        effect,
        launch("sudo", &["/usr/src/kite-tools/update.sh", "--no-confirm", "-v", "1.2.3"])
    );
    assert_eq!(app.view_state(), ViewState::ScriptProgress);
    assert_eq!(app.script_last_view_state(), ViewState::MainMenu);
    assert!(app.script_output().is_empty());
    assert_eq!(*app.modal(), Modal::Hidden);
}

#[test]
fn the_same_version_says_that_the_system_is_up_to_date() {
    let mut app = checking();
    let events = vec![CommandState::OutputLine("1.2.2".to_string()), CommandState::Completed];
    app.tick(&events, &kite("1.2.2"));
    assert_eq!(*app.modal(), Modal::Info("Версия системы актуальна".to_string()));
    assert_eq!(app.view_state(), ViewState::MainMenu);
    assert_eq!(app.session(), SessionStatus::Idle);
    assert_eq!(app.on_key(Key::Esc, &kite("1.2.2")), Effect::Nothing);
    assert_eq!(*app.modal(), Modal::Hidden);
}

#[test]
fn no_output_says_that_the_system_is_up_to_date() {
    let mut app = checking();
    app.tick(&vec![CommandState::Completed], &kite("1.2.2"));
    assert_eq!(*app.modal(), Modal::Info("Версия системы актуальна".to_string()));
    let mut app = checking();
    let events = vec![
        CommandState::OutputLine("  ".to_string()),
        CommandState::OutputLine("".to_string()),
        CommandState::Completed,
    ];
    app.tick(&events, &kite("1.2.2"));
    assert_eq!(*app.modal(), Modal::Info("Версия системы актуальна".to_string()));
}

#[test]
fn the_version_is_the_trimmed_lines_one_after_another() {
    let mut app = checking();
    app.tick(&vec![CommandState::OutputLine(" 1.2".to_string())], &kite("1.2.2"));
    assert_eq!(app.view_state(), ViewState::UpdateCheck);
    assert_eq!(*app.modal(), Modal::Hidden);
    app.tick(
        &vec![CommandState::OutputLine(".3\t".to_string()), CommandState::Completed],
        &kite("1.2.2"),
    );
    assert_eq!(app.candidate_version(), "1.2.3");
    assert_eq!(
        *app.modal(),
        Modal::Confirmation(
            "Найдена новая версия 1.2.3!\nВы действительно хотите обновить систему?".to_string(),
            DeferredAction::RunUpdate("1.2.3".to_string())
        )
    );
}

#[test]
fn an_unknown_installed_version_counts_as_zero() {
    let mut app = checking();
    let events = vec![CommandState::OutputLine("0.0.0".to_string()), CommandState::Completed];
    app.tick(&events, &host(Some("Kite Linux"), None));
    assert_eq!(*app.modal(), Modal::Info("Версия системы актуальна".to_string()));
    let mut app = checking();
    let events = vec![CommandState::OutputLine("0.0.1".to_string()), CommandState::Completed];
    app.tick(&events, &host(Some("Kite Linux"), None));
    assert_eq!(
        *app.modal(),
        Modal::Confirmation(
            "Найдена новая версия 0.0.1!\nВы действительно хотите обновить систему?".to_string(),
            DeferredAction::RunUpdate("0.0.1".to_string())
        )
    );
}

#[test]
fn a_failed_check_shows_its_error_and_no_question() {
    let mut app = checking();
    let events = vec![CommandState::OutputLine("9.9.9".to_string()), CommandState::Exit(Some(1))];
    app.tick(&events, &kite("1.2.2"));
    assert_eq!(*app.modal(), Modal::Error("Программа завершилась с ошибкой".to_string()));
    assert_eq!(app.view_state(), ViewState::MainMenu);
    assert_eq!(app.session(), SessionStatus::Idle);
    assert_eq!(app.on_key(Key::Enter, &kite("1.2.2")), Effect::Nothing);
    assert_eq!(*app.modal(), Modal::Hidden);
}

#[test]
fn uninstall_is_refused_on_another_system() {
    let mut app = App::new();
    app.next();
    app.next();
    assert_eq!(app.on_key(Key::Enter, &other()), Effect::Nothing);
    assert_eq!(
        *app.modal(),
        Modal::Error(
            "Обновление не поддерживается для данной операционной системы: Ubuntu".to_string()
        )
    );
    app.hide_error();
    assert_eq!(app.on_key(Key::Enter, &host(None, None)), Effect::Nothing);
    assert_eq!(
        *app.modal(),
        Modal::Error("Не удалось определить операционную систему".to_string())
    );
}

#[test]
fn uninstall_asks_in_the_words_of_its_kind() {
    let warnings = [
        ("config", "Вы уверены, что хотите удалить все пользовательские настройки?"),
        ("apps", "Вы уверены, что хотите удалить все установленные программы?"),
        (
            "full",
            "ВНИМАНИЕ! Вы уверены, что хотите полностью удалить систему?\nВсе данные будут безвозвратно удалены!",
        ),
    ];
    for (index, (kind, warning)) in warnings.iter().enumerate() {
        let mut app = App::new();
        app.previous();
        app.previous();
        assert_eq!(app.on_key(Key::Enter, &kite("1.0")), Effect::Nothing);
        assert_eq!(app.view_state(), ViewState::UninstallType);
        assert_eq!(app.uninstall_type_selected(), Some(0));
        for _ in 0..index {
            app.on_key(Key::Down, &kite("1.0"));
        }
        assert_eq!(app.uninstall_type_selected(), Some(index));
        assert_eq!(app.on_key(Key::Enter, &kite("1.0")), Effect::Nothing);
        assert_eq!(
            *app.modal(),
            Modal::Confirmation(warning.to_string(), DeferredAction::RunUninstall(kind.to_string()))
        );
        assert_eq!(
            app.on_key(Key::Enter, &kite("1.0")),
            launch("sudo", &["/usr/src/kite-tools/uninstall.sh", kind, "--no-confirm"])
        );
        assert_eq!(app.view_state(), ViewState::ScriptProgress);
        assert_eq!(app.script_last_view_state(), ViewState::UninstallType);
    }
}

#[test]
fn the_uninstall_cursor_wraps() {
    let mut app = App::new();
    app.handle_uninstall(&Some("Kite Linux".to_string()));
    app.on_key(Key::Up, &kite("1"));
    assert_eq!(app.uninstall_type_selected(), Some(2));
    app.on_key(Key::Down, &kite("1"));
    assert_eq!(app.uninstall_type_selected(), Some(0));
    assert_eq!(app.on_key(Key::Esc, &kite("1")), Effect::Nothing);
    assert_eq!(app.view_state(), ViewState::MainMenu);
}

#[test]
fn the_package_entry_asks_for_the_package_file() {
    let mut app = App::new();
    app.previous();
    assert_eq!(app.on_key(Key::Enter, &other()), Effect::ReadPackageCatalog);
    assert_eq!(app.view_state(), ViewState::MainMenu);
}

#[test]
fn load_packages_lists_the_names_of_the_file() {
    let app = with_packages("# editors\nvim\n\n  \nemacs\r\n#nano\n htop\n");
    assert_eq!(
        *app.package_list(),
        strings(&["[ Установить свои пакеты ]", "vim", "emacs", " htop"])
    );
    assert_eq!(*app.selected_packages(), vec![false, false, false, false]);
    assert_eq!(app.package_selected(), Some(0));
    assert_eq!(app.view_state(), ViewState::PackageList);
    assert!(app.is_well_formed());
}

#[test]
fn load_packages_without_a_file_offers_free_input_alone() {
    let mut app = App::new();
    app.load_packages(&None);
    assert_eq!(*app.package_list(), strings(&["[ Установить свои пакеты ]"]));
    assert_eq!(*app.selected_packages(), vec![false]);
    assert_eq!(app.view_state(), ViewState::PackageList);
    app.on_key(Key::Down, &other());
    assert_eq!(app.package_selected(), Some(0));
    app.on_key(Key::Up, &other());
    assert_eq!(app.package_selected(), Some(0));
}

#[test]
fn load_packages_clears_an_earlier_selection() {
    let mut app = with_packages("a\nb\n");
    app.on_key(Key::Down, &other());
    app.on_key(Key::Char(' '), &other());
    assert_eq!(*app.selected_packages(), vec![false, true, false]);
    app.load_packages(&Some("a\nb\nc\n".to_string()));
    assert_eq!(*app.selected_packages(), vec![false, false, false, false]);
    assert_eq!(app.package_selected(), Some(0));
}

#[test]
fn the_package_cursor_wraps_at_both_ends() {
    let mut app = with_packages("a\nb\n");
    app.on_key(Key::Up, &other());
    assert_eq!(app.package_selected(), Some(2));
    app.on_key(Key::Down, &other());
    assert_eq!(app.package_selected(), Some(0));
    app.package_down();
    app.package_down();
    app.package_down();
    assert_eq!(app.package_selected(), Some(0));
    app.package_up();
    assert_eq!(app.package_selected(), Some(2));
}

#[test]
fn the_package_cursor_of_an_empty_list_stays() {
    let mut app = App::new();
    app.package_down();
    assert_eq!(app.package_selected(), None);
    app.package_up();
    assert_eq!(app.package_selected(), None);
    app.toggle_package();
    assert_eq!(app.view_state(), ViewState::MainMenu);
}

#[test]
fn toggling_the_first_entry_opens_free_input_and_flips_nothing() {
    let mut app = with_packages("a\nb\nc\n");
    assert_eq!(app.on_key(Key::Char(' '), &other()), Effect::Nothing);
    assert_eq!(app.view_state(), ViewState::CustomPackageInput);
    assert_eq!(*app.selected_packages(), vec![false, false, false, false]);
    let mut app = with_packages("a\nb\nc\n");
    app.on_key(Key::Down, &other());
    app.on_key(Key::Char(' '), &other());
    app.on_key(Key::Up, &other());
    app.toggle_package();
    assert_eq!(app.view_state(), ViewState::CustomPackageInput);
    assert_eq!(*app.selected_packages(), vec![false, true, false, false]);
}

#[test]
fn toggling_flips_the_entry_under_the_cursor() {
    let mut app = with_packages("a\nb\nc\n");
    app.on_key(Key::Down, &other());
    app.on_key(Key::Down, &other());
    app.on_key(Key::Char(' '), &other());
    assert_eq!(*app.selected_packages(), vec![false, false, true, false]);
    assert_eq!(app.view_state(), ViewState::PackageList);
    app.on_key(Key::Char(' '), &other());
    assert_eq!(*app.selected_packages(), vec![false, false, false, false]);
    assert!(!app.any_selected());
}

#[test]
fn enter_without_a_selection_toggles() {
    let mut app = with_packages("a\nb\n");
    app.on_key(Key::Down, &other());
    assert_eq!(app.on_key(Key::Enter, &other()), Effect::Nothing);
    assert_eq!(*app.selected_packages(), vec![false, true, false]);
    assert!(app.any_selected());
    let mut app = with_packages("a\nb\n");
    assert_eq!(app.on_key(Key::Enter, &other()), Effect::Nothing);
    assert_eq!(app.view_state(), ViewState::CustomPackageInput);
}

#[test]
fn selected_packages_are_installed_in_the_order_of_the_list() {
    let mut app = with_packages("A\nB\nC\n");
    app.on_key(Key::Up, &other());
    app.on_key(Key::Char(' '), &other());
    app.on_key(Key::Up, &other());
    app.on_key(Key::Up, &other());
    app.on_key(Key::Char(' '), &other());
    assert_eq!(*app.selected_packages(), vec![false, true, false, true]);
    assert_eq!(app.chosen(), strings(&["A", "C"]));
    let effect = app.on_key(Key::Enter, &other());
    assert_eq!(effect, launch("yay", &["-S", "--noconfirm", "A", "C"]));
    assert_eq!(app.view_state(), ViewState::ScriptProgress);
    assert_eq!(app.script_last_view_state(), ViewState::PackageList);
    assert_eq!(app.session(), SessionStatus::Running);
    assert_eq!(app.scroll_position(), 0);
}

#[test]
fn installing_with_nothing_selected_shows_an_error() {
    let mut app = with_packages("A\nB\n");
    assert_eq!(app.start_package_installation(), Effect::Nothing);
    assert_eq!(*app.modal(), Modal::Error("Не выбраны пакеты для установки".to_string()));
    assert_eq!(app.status(), "Добро пожаловать в инструменты управления Коршун");
    assert_eq!(app.view_state(), ViewState::PackageList);
    assert_eq!(*app.package_list(), strings(&["[ Установить свои пакеты ]", "A", "B"]));
    assert_eq!(*app.selected_packages(), vec![false, false, false]);
    assert_eq!(app.session(), SessionStatus::Idle);
    assert_eq!(app.script_process(), None);
    assert_eq!(app.on_key(Key::Enter, &other()), Effect::Nothing);
    assert_eq!(*app.modal(), Modal::Hidden);
    assert_eq!(app.view_state(), ViewState::PackageList);
}

#[test]
fn install_selected_packages_with_nothing_selected_shows_an_error() {
    let mut app = with_packages("A\nB\n");
    assert_eq!(app.install_selected_packages(), Effect::Nothing);
    assert_eq!(*app.modal(), Modal::Error("Не выбраны пакеты для установки".to_string()));
    assert_eq!(app.view_state(), ViewState::PackageList);
    assert_eq!(app.session(), SessionStatus::Idle);
    assert_eq!(app.on_key(Key::Esc, &other()), Effect::Nothing);
    assert_eq!(*app.modal(), Modal::Hidden);
    let mut app = with_packages("");
    assert_eq!(app.run_selected_action(&None), Effect::Nothing);
    assert_eq!(*app.modal(), Modal::Error("Не выбраны пакеты для установки".to_string()));
}

#[test]
fn install_selected_packages_launches_the_selection() {
    let mut app = with_packages("A\nB\n");
    app.package_down();
    app.package_down();
    app.toggle_package();
    assert_eq!(app.install_selected_packages(), launch("yay", &["-S", "--noconfirm", "B"]));
    let mut app = with_packages("A\nB\n");
    app.package_down();
    app.toggle_package();
    assert_eq!(
        app.run_selected_action(&None),
        launch("yay", &["-S", "--noconfirm", "A"])
    );
}

#[test]
fn esc_leaves_the_package_list_for_the_main_menu() {
    let mut app = with_packages("A\n");
    app.take_terminal_clear();
    assert_eq!(app.on_key(Key::Esc, &other()), Effect::Nothing);
    assert_eq!(app.view_state(), ViewState::MainMenu);
    assert!(app.take_terminal_clear());
}

#[test]
fn free_input_takes_characters_and_backspace() {
    let mut app = with_packages("");
    app.toggle_package();
    for c in "vim  git".chars() {
        assert_eq!(app.on_key(Key::Char(c), &other()), Effect::Nothing);
    }
    assert_eq!(app.custom_package_input(), "vim  git");
    assert_eq!(app.on_key(Key::Backspace, &other()), Effect::Nothing);
    assert_eq!(app.custom_package_input(), "vim  gi");
    for _ in 0..10 {
        app.on_key(Key::Backspace, &other());
    }
    assert_eq!(app.custom_package_input(), "");
    app.on_key(Key::Char('я'), &other());
    app.on_key(Key::Char(' '), &other());
    assert_eq!(app.custom_package_input(), "я ");
    assert_eq!(app.on_key(Key::Up, &other()), Effect::Nothing);
    assert_eq!(app.custom_package_input(), "я ");
    assert_eq!(app.on_key(Key::Esc, &other()), Effect::Nothing);
    assert_eq!(app.view_state(), ViewState::PackageList);
}

#[test]
fn free_input_installs_the_names_it_holds() {
    let mut app = with_packages("");
    app.toggle_package();
    for c in " vim   htop ".chars() {
        app.on_key(Key::Char(c), &other());
    }
    let effect = app.on_key(Key::Enter, &other());
    assert_eq!(effect, launch("yay", &["-S", "--noconfirm", "vim", "htop"]));
    assert_eq!(app.custom_package_input(), "");
    assert_eq!(app.view_state(), ViewState::ScriptProgress);
    assert_eq!(app.script_last_view_state(), ViewState::CustomPackageInput);
}

#[test]
fn a_blank_free_input_launches_nothing() {
    for input in ["", " ", " \t  ", "\u{a0}\u{2003}"] {
        let mut app = with_packages("");
        app.toggle_package();
        for c in input.chars() {
            app.on_key(Key::Char(c), &other());
        }
        assert_eq!(app.on_key(Key::Enter, &other()), Effect::Nothing);
        assert_eq!(app.view_state(), ViewState::CustomPackageInput);
        assert_eq!(app.status(), "Не указаны пакеты для установки");
        assert_eq!(app.custom_package_input(), input);
        assert_eq!(app.session(), SessionStatus::Idle);
    }
}

#[test]
fn a_second_launch_is_refused_while_a_command_runs() {
    let mut app = App::new();
    let first = app.run_command("sudo".to_string(), strings(&["a"]));
    assert_eq!(first, launch("sudo", &["a"]));
    app.process_started(7);
    assert_eq!(app.run_command("sudo".to_string(), strings(&["b"])), Effect::Nothing);
    assert_eq!(app.run_command_progress("sudo".to_string(), strings(&["b"])), Effect::Nothing);
    assert_eq!(app.check_updates(), Effect::Nothing);
    assert_eq!(app.start_update("2.0".to_string()), Effect::Nothing);
    assert_eq!(app.install("stable".to_string()), Effect::Nothing);
    assert_eq!(app.uninstall("full".to_string()), Effect::Nothing);
    assert_eq!(app.run_deferred(DeferredAction::RunUpdate("2.0".to_string())), Effect::Nothing);
    assert_eq!(app.handle_update(&Some("Kite Linux".to_string())), Effect::Nothing);
    assert_eq!(app.view_state(), ViewState::MainMenu);
    assert_eq!(app.script_process(), Some(7));
    assert_eq!(app.session(), SessionStatus::Running);
    assert!(app.is_well_formed());
}

#[test]
fn an_accepted_confirmation_launches_nothing_while_a_command_runs() {
    let mut app = App::new();
    app.run_command("sudo".to_string(), strings(&["a"]));
    app.set_confirmation("?".to_string(), DeferredAction::RunInstall("stable".to_string()));
    assert_eq!(app.on_key(Key::Enter, &other()), Effect::Nothing);
    assert_eq!(*app.modal(), Modal::Hidden);
    assert_eq!(app.view_state(), ViewState::MainMenu);
    assert_eq!(app.session(), SessionStatus::Running);
}

#[test]
fn free_input_is_kept_when_its_launch_is_refused() {
    let mut app = with_packages("");
    app.toggle_package();
    app.on_key(Key::Char('x'), &other());
    app.run_command("sudo".to_string(), strings(&[]));
    assert_eq!(app.on_key(Key::Enter, &other()), Effect::Nothing);
    assert_eq!(app.custom_package_input(), "x");
    assert_eq!(app.view_state(), ViewState::CustomPackageInput);
}

#[test]
fn process_started_is_recorded_in_a_running_session_only() {
    let mut app = App::new();
    app.process_started(5);
    assert_eq!(app.script_process(), None);
    app.run_command("sudo".to_string(), strings(&[]));
    assert_eq!(app.script_process(), None);
    app.process_started(5);
    assert_eq!(app.script_process(), Some(5));
}

#[test]
fn esc_cancels_a_running_command() {
    let mut app = with_packages("A\n");
    app.package_down();
    app.toggle_package();
    app.start_package_installation();
    app.process_started(99);
    let effect = app.on_key(Key::Esc, &other());
    assert_eq!(effect, Effect::Kill { pid: 99 });
    assert_eq!(app.script_process(), None);
    assert_eq!(app.session(), SessionStatus::Idle);
    assert_eq!(app.status(), "Задача отменена");
    assert_eq!(app.view_state(), ViewState::PackageList);
    let again = app.start_package_installation();
    assert_eq!(again, launch("yay", &["-S", "--noconfirm", "A"]));
}

#[test]
fn esc_cancels_a_running_update_check() {
    let mut app = checking();
    let effect = app.on_key(Key::Esc, &kite("1.2.2"));
    assert_eq!(effect, Effect::Kill { pid: 4242 });
    assert_eq!(app.script_process(), None);
    assert_eq!(app.session(), SessionStatus::Idle);
    assert_eq!(app.status(), "Задача отменена");
    assert_eq!(app.view_state(), ViewState::MainMenu);
    app.tick(&vec![CommandState::Exit(Some(1))], &kite("1.2.2"));
    assert_eq!(*app.modal(), Modal::Hidden);
    assert_eq!(app.session(), SessionStatus::Idle);
}

#[test]
fn esc_without_a_known_process_kills_nothing() {
    let mut app = App::new();
    app.run_command_progress("sudo".to_string(), strings(&[]));
    assert_eq!(app.on_key(Key::Esc, &other()), Effect::Nothing);
    assert_eq!(app.status(), "Добро пожаловать в инструменты управления Коршун");
    assert_eq!(app.session(), SessionStatus::Idle);
    assert_eq!(app.view_state(), ViewState::MainMenu);
}

#[test]
fn a_start_failure_shows_one_error_and_clears_the_session() {
    let mut app = App::new();
    app.run_command_progress("nothing".to_string(), strings(&[]));
    app.tick(
        &vec![CommandState::StartError("No such file or directory (os error 2)".to_string())],
        &other(),
    );
    assert_eq!(
        *app.modal(),
        Modal::Error("Ошибка запуска: No such file or directory (os error 2)".to_string())
    );
    assert_eq!(app.session(), SessionStatus::StartFailed);
    assert_eq!(app.script_process(), None);
    assert_eq!(app.view_state(), ViewState::ScriptProgress);
    assert_eq!(app.on_key(Key::Enter, &other()), Effect::Nothing);
    assert_eq!(*app.modal(), Modal::Hidden);
    assert_eq!(
        app.run_command("sudo".to_string(), strings(&["x"])),
        launch("sudo", &["x"])
    );
}

#[test]
fn each_end_of_a_command_sets_the_session() {
    let mut app = App::new();
    app.run_command_progress("p".to_string(), strings(&[]));
    app.process_started(1);
    app.update_script_progress(&vec![CommandState::Completed]);
    assert_eq!(app.session(), SessionStatus::Succeeded);
    assert_eq!(app.script_process(), None);
    assert_eq!(*app.modal(), Modal::Hidden);

    let mut app = App::new();
    app.run_command_progress("p".to_string(), strings(&[]));
    app.process_started(1);
    app.update_script_progress(&vec![CommandState::Exit(Some(1))]);
    assert_eq!(app.session(), SessionStatus::Failed(Some(1)));
    assert_eq!(app.script_process(), None);
    assert_eq!(*app.modal(), Modal::Error("Программа завершилась с ошибкой".to_string()));

    let mut app = App::new();
    app.run_command_progress("p".to_string(), strings(&[]));
    app.process_started(1);
    app.update_script_progress(&vec![CommandState::WaitError("interrupted".to_string())]);
    assert_eq!(app.session(), SessionStatus::WaitFailed);
    assert_eq!(app.script_process(), None);
    assert_eq!(*app.modal(), Modal::Error("Ошибка выполнения: interrupted".to_string()));
}

#[test]
fn a_command_ended_by_a_signal_has_no_exit_code() {
    let mut app = App::new();
    app.run_command_progress("p".to_string(), strings(&[]));
    app.update_script_progress(&vec![CommandState::Exit(None)]);
    assert_eq!(app.session(), SessionStatus::Failed(None));
    assert_eq!(*app.modal(), Modal::Error("Программа завершилась с ошибкой".to_string()));
    let mut app = App::new();
    app.run_command_progress("p".to_string(), strings(&[]));
    app.update_script_progress(&vec![CommandState::Exit(Some(-3))]);
    assert_eq!(app.session(), SessionStatus::Failed(Some(-3)));
}

#[test]
fn output_is_kept_in_order_to_the_end_of_the_reports() {
    let mut app = App::new();
    app.run_command_progress("p".to_string(), strings(&[]));
    app.update_script_progress(&vec![
        CommandState::OutputLine("one".to_string()),
        CommandState::OutputLine("two".to_string()),
    ]);
    app.update_script_progress(&vec![
        CommandState::OutputLine("three".to_string()),
        CommandState::Completed,
        CommandState::OutputLine("four".to_string()),
    ]);
    assert_eq!(*app.script_output(), strings(&["one", "two", "three", "four"]));
    assert_eq!(app.session(), SessionStatus::Succeeded);
    app.update_script_progress(&vec![CommandState::OutputLine("late".to_string())]);
    assert_eq!(*app.script_output(), strings(&["one", "two", "three", "four"]));
}

#[test]
fn reports_outside_a_session_are_dropped() {
    let mut app = App::new();
    app.update_script_progress(&vec![
        CommandState::OutputLine("x".to_string()),
        CommandState::Exit(Some(1)),
        CommandState::StartError("e".to_string()),
    ]);
    assert!(app.script_output().is_empty());
    assert_eq!(*app.modal(), Modal::Hidden);
    assert_eq!(app.session(), SessionStatus::Idle);
}

#[test]
fn apply_event_takes_in_one_report() {
    let mut app = App::new();
    app.apply_event(&CommandState::OutputLine("x".to_string()));
    assert_eq!(*app.script_output(), strings(&["x"]));
    app.apply_event(&CommandState::StartError("e".to_string()));
    assert_eq!(*app.modal(), Modal::Error("Ошибка запуска: e".to_string()));
    assert_eq!(app.session(), SessionStatus::StartFailed);
}

#[test]
fn enter_leaves_the_progress_screen_once_the_command_has_ended() {
    let mut app = with_packages("A\n");
    app.package_down();
    app.toggle_package();
    app.start_package_installation();
    app.process_started(3);
    assert_eq!(app.on_key(Key::Enter, &other()), Effect::Nothing);
    assert_eq!(app.view_state(), ViewState::ScriptProgress);
    app.tick(&vec![CommandState::Completed], &other());
    assert_eq!(app.view_state(), ViewState::ScriptProgress);
    assert_eq!(app.on_key(Key::Enter, &other()), Effect::Nothing);
    assert_eq!(app.view_state(), ViewState::PackageList);
    assert_eq!(app.session(), SessionStatus::Idle);
}

#[test]
fn the_progress_screen_scrolls_and_stops_at_the_top() {
    let mut app = App::new();
    app.run_command_progress("p".to_string(), strings(&[]));
    app.on_key(Key::Up, &other());
    assert_eq!(app.scroll_position(), 0);
    app.on_key(Key::PageDown, &other());
    app.on_key(Key::Down, &other());
    assert_eq!(app.scroll_position(), 11);
    app.on_key(Key::Up, &other());
    assert_eq!(app.scroll_position(), 10);
    app.on_key(Key::PageUp, &other());
    assert_eq!(app.scroll_position(), 0);
    app.on_key(Key::Down, &other());
    app.on_key(Key::PageUp, &other());
    assert_eq!(app.scroll_position(), 0);
    app.scroll_down(usize::MAX);
    app.scroll_down(5);
    assert_eq!(app.scroll_position(), usize::MAX);
    app.scroll_up(usize::MAX);
    assert_eq!(app.scroll_position(), 0);
}

#[test]
fn the_overlay_takes_every_key() {
    let mut app = App::new();
    app.set_error("e".to_string());
    for key in [Key::Up, Key::Down, Key::Char('q'), Key::Backspace, Key::PageUp, Key::Other] {
        assert_eq!(app.on_key(key, &other()), Effect::Nothing);
        assert_eq!(*app.modal(), Modal::Error("e".to_string()));
        assert_eq!(app.menu_selected(), Some(0));
    }
    assert_eq!(app.on_key(Key::Esc, &other()), Effect::Nothing);
    assert_eq!(*app.modal(), Modal::Hidden);
    app.set_info("i".to_string());
    assert_eq!(app.on_key(Key::Down, &other()), Effect::Nothing);
    assert_eq!(app.menu_selected(), Some(0));
    assert_eq!(app.on_key(Key::Enter, &other()), Effect::Nothing);
    assert_eq!(*app.modal(), Modal::Hidden);
    assert_eq!(app.view_state(), ViewState::MainMenu);
}

#[test]
fn hiding_takes_off_only_what_is_named() {
    let mut app = App::new();
    app.set_info("i".to_string());
    app.hide_error();
    app.hide_confirmation();
    assert_eq!(*app.modal(), Modal::Info("i".to_string()));
    app.hide_info();
    assert_eq!(*app.modal(), Modal::Hidden);
    app.set_confirmation("c".to_string(), DeferredAction::RunUninstall("apps".to_string()));
    app.hide_info();
    app.hide_error();
    assert_eq!(
        *app.modal(),
        Modal::Confirmation("c".to_string(), DeferredAction::RunUninstall("apps".to_string()))
    );
    app.hide_confirmation();
    assert_eq!(*app.modal(), Modal::Hidden);
    app.set_error("e".to_string());
    app.set_info("i".to_string());
    assert_eq!(*app.modal(), Modal::Info("i".to_string()));
}

#[test]
fn set_view_state_asks_for_a_clear_terminal() {
    let mut app = App::new();
    assert!(!app.take_terminal_clear());
    app.set_view_state(ViewState::UninstallType);
    assert_eq!(app.view_state(), ViewState::UninstallType);
    assert!(app.take_terminal_clear());
    assert!(!app.take_terminal_clear());
}

#[test]
fn enter_selects_nothing_on_the_screens_of_a_running_command() {
    let mut app = App::new();
    app.set_view_state(ViewState::UpdateCheck);
    assert_eq!(app.run_selected_action(&None), Effect::Nothing);
    assert_eq!(app.view_state(), ViewState::UpdateCheck);
    app.set_view_state(ViewState::ScriptProgress);
    assert_eq!(app.run_selected_action(&None), Effect::Nothing);
    assert_eq!(app.view_state(), ViewState::ScriptProgress);
}

#[test]
fn detect_asks_the_machine() {
    let host = HostInfo::detect();
    let mut app = App::new();
    app.on_key(Key::Enter, &host);
    assert!(app.is_well_formed());
    assert!(app.view_state() == ViewState::MainMenu || app.view_state() == ViewState::InstallationType);
}
