//! The mathematical model of the interface: its state, and what each key,
//! each report of a running command and each tick makes of it.

use crate::cursor::{after_down, after_up, in_list};
use crate::messages::{
    ALREADY_INSTALLED, CHECK_UPDATE_SCRIPT, COMMAND_FAILED, CUSTOM_PACKAGES_ENTRY, FLAG_NOCONFIRM,
    FLAG_NO_CONFIRM, FLAG_NO_INFO, FLAG_SYNC, FLAG_VERSION, INSTALLATION_TYPES,
    INSTALL_SCRIPT, INSTALL_WARNING_HEAD, INSTALL_WARNING_TAIL, MENU_ITEMS, NOT_SUPPORTED,
    NO_PACKAGES_GIVEN, NO_PACKAGES_SELECTED, OS_NAME, OS_NOT_DETECTED, PACKAGE_MANAGER,
    START_FAILED, SUDO, TASK_CANCELLED, UNINSTALL_SCRIPT, UNINSTALL_TYPES, UNINSTALL_WARNINGS,
    UNKNOWN_VERSION, UPDATE_FOUND_HEAD, UPDATE_FOUND_TAIL, UPDATE_SCRIPT, UP_TO_DATE,
    WAIT_FAILED, WELCOME,
};
use crate::text::{has_substring, is_blank, lines_of, split_words, trimmed, without_last};
use vstd::prelude::*;

verus! {

/// The screens of the interface.
#[derive(Clone, Copy, PartialEq, Eq, Debug, Structural)]
pub enum ViewState {
    MainMenu,
    PackageList,
    CustomPackageInput,
    ScriptProgress,
    InstallationType,
    UpdateCheck,
    UninstallType,
}

/// The keys the interface listens to.
#[derive(Clone, Copy, PartialEq, Eq, Debug, Structural)]
pub enum Key {
    Up,
    Down,
    Enter,
    Esc,
    Backspace,
    PageUp,
    PageDown,
    Char(char),
    Other,
}

/// Where the command session stands.
#[derive(Clone, Copy, PartialEq, Eq, Debug, Structural)]
pub enum SessionStatus {
    /// No command was launched, or the last one has been dealt with.
    Idle,
    /// A command was launched and has not ended.
    Running,
    /// The command ended with exit code zero.
    Succeeded,
    /// The command ended otherwise: with the exit code given, or with none
    /// where a signal ended it.
    Failed(Option<i32>),
    /// The command could not be started.
    StartFailed,
    /// Waiting for the command's end failed.
    WaitFailed,
}

/// What the runner of a command reports, in the model.
pub enum CommandEvent {
    OutputLine(Seq<char>),
    Completed,
    Exit(Option<i32>),
    StartError(Seq<char>),
    WaitError(Seq<char>),
}

/// What a confirmation does once it is accepted, in the model.
pub enum DeferredActionView {
    RunInstall(Seq<char>),
    RunUninstall(Seq<char>),
    RunUpdate(Seq<char>),
}

/// The overlay of the interface, in the model.
pub enum ModalView {
    Hidden,
    Error(Seq<char>),
    Confirmation(Seq<char>, DeferredActionView),
    Info(Seq<char>),
}

/// What the program around the library has to do after a step, in the model.
pub enum EffectView {
    Nothing,
    Quit,
    Launch { program: Seq<char>, args: Seq<Seq<char>> },
    Kill { pid: u32 },
    ReadPackageCatalog,
}

/// The state of the interface.
pub struct AppView {
    pub menu: Option<usize>,
    pub status: Seq<char>,
    pub modal: ModalView,
    pub package_list: Seq<Seq<char>>,
    pub package_cursor: Option<usize>,
    pub selected_packages: Seq<bool>,
    pub custom_package_input: Seq<char>,
    pub view_state: ViewState,
    pub session: SessionStatus,
    pub script_process: Option<u32>,
    pub script_output: Seq<Seq<char>>,
    pub script_last_view_state: ViewState,
    pub installation_type: Option<usize>,
    pub uninstall_type: Option<usize>,
    pub scroll_position: usize,
    pub terminal_clear: bool,
}

/// A state together with what is to be done on reaching it.
pub struct Step {
    pub state: AppView,
    pub effect: EffectView,
}

/// The step that reaches `state` and asks for `effect`.
pub open spec fn step(state: AppView, effect: EffectView) -> Step {
    Step { state, effect }
}

/// A step that asks nothing of the program around the library.
pub open spec fn quiet(state: AppView) -> Step {
    Step { state, effect: EffectView::Nothing }
}

/// A line of the package file that names a package: one that is not blank
/// and does not begin with `#`.
pub open spec fn names_package(line: Seq<char>) -> bool {
    !is_blank(line) && !(line.len() > 0 && line[0] == '#')
}

/// The lines among `lines` that name a package, in order.
pub open spec fn package_names(lines: Seq<Seq<char>>) -> Seq<Seq<char>>
    decreases lines.len(),
{
    if lines.len() == 0 {
        lines
    } else if names_package(lines.last()) {
        package_names(lines.drop_last()).push(lines.last())
    } else {
        package_names(lines.drop_last())
    }
}

/// The packages that the text of a package file offers.
pub open spec fn catalog_packages(text: Option<Seq<char>>) -> Seq<Seq<char>> {
    match text {
        Some(t) => package_names(lines_of(t)),
        None => Seq::empty(),
    }
}

/// Among the first `n` entries of `list`, those after the first whose flag
/// is set, in the order of the list.
pub open spec fn chosen_upto(list: Seq<Seq<char>>, flags: Seq<bool>, n: nat) -> Seq<Seq<char>>
    decreases n,
{
    if n <= 1 {
        Seq::empty()
    } else if flags[n - 1] {
        chosen_upto(list, flags, (n - 1) as nat).push(list[n - 1])
    } else {
        chosen_upto(list, flags, (n - 1) as nat)
    }
}

/// The selected packages: the entries of `list` after the first whose flag is
/// set, in the order of the list.
pub open spec fn chosen_packages(list: Seq<Seq<char>>, flags: Seq<bool>) -> Seq<Seq<char>> {
    chosen_upto(list, flags, list.len())
}

/// The arguments with which the package manager installs `names`.
pub open spec fn package_args(names: Seq<Seq<char>>) -> Seq<Seq<char>> {
    seq![FLAG_SYNC@, FLAG_NOCONFIRM@] + names
}

/// The lines of `lines`, each without the white space around it, one after another.
pub open spec fn joined_trimmed(lines: Seq<Seq<char>>) -> Seq<char>
    decreases lines.len(),
{
    if lines.len() == 0 {
        Seq::empty()
    } else {
        joined_trimmed(lines.drop_last()) + trimmed(lines.last())
    }
}

/// The version the system is taken to have.
pub open spec fn installed_version(os_version: Option<Seq<char>>) -> Seq<char> {
    match os_version {
        Some(v) => v,
        None => UNKNOWN_VERSION@,
    }
}

/// Whether some flag of `flags` is set.
pub open spec fn any_set(flags: Seq<bool>) -> bool {
    exists|i: int| 0 <= i < flags.len() && flags[i]
}

impl AppView {
    /// What holds of every state the interface can be in.
    pub open spec fn wf(self) -> bool {
        &&& in_list(self.menu, MENU_ITEMS@.len())
        &&& in_list(self.installation_type, INSTALLATION_TYPES@.len())
        &&& in_list(self.uninstall_type, UNINSTALL_TYPES@.len())
        &&& in_list(self.package_cursor, self.package_list.len())
        &&& self.selected_packages.len() == self.package_list.len()
        &&& self.package_list.len() > 0 ==> !self.selected_packages[0]
        &&& self.script_process is Some ==> self.session == SessionStatus::Running
    }

    /// The state in which the interface starts.
    pub open spec fn initial() -> AppView {
        AppView {
            menu: Some(0),
            status: WELCOME@,
            modal: ModalView::Hidden,
            package_list: Seq::empty(),
            package_cursor: None,
            selected_packages: Seq::empty(),
            custom_package_input: Seq::empty(),
            view_state: ViewState::MainMenu,
            session: SessionStatus::Idle,
            script_process: None,
            script_output: Seq::empty(),
            script_last_view_state: ViewState::MainMenu,
            installation_type: None,
            uninstall_type: None,
            scroll_position: 0,
            terminal_clear: false,
        }
    }

    /// Whether a command is running.
    pub open spec fn running(self) -> bool {
        self.session == SessionStatus::Running
    }

    /// The cursor of the main menu moves one entry down.
    pub open spec fn next(self) -> AppView {
        AppView { menu: after_down(self.menu, MENU_ITEMS@.len()), ..self }
    }

    /// The cursor of the main menu moves one entry up.
    pub open spec fn previous(self) -> AppView {
        AppView { menu: after_up(self.menu, MENU_ITEMS@.len()), ..self }
    }

    /// Another screen is shown, and the terminal is to be cleared for it.
    pub open spec fn set_view_state(self, view_state: ViewState) -> AppView {
        AppView { view_state, terminal_clear: true, ..self }
    }

    /// The state once the terminal has been cleared.
    pub open spec fn cleared(self) -> AppView {
        AppView { terminal_clear: false, ..self }
    }

    /// The overlay shows an error, in place of whatever it showed.
    pub open spec fn set_error(self, text: Seq<char>) -> AppView {
        AppView { modal: ModalView::Error(text), ..self }
    }

    /// The overlay shows a message, in place of whatever it showed.
    pub open spec fn set_info(self, text: Seq<char>) -> AppView {
        AppView { modal: ModalView::Info(text), ..self }
    }

    /// The overlay shows a question, in place of whatever it showed.
    pub open spec fn set_confirmation(self, text: Seq<char>, action: DeferredActionView) -> AppView {
        AppView { modal: ModalView::Confirmation(text, action), ..self }
    }

    /// An error leaves the overlay; anything else stays.
    pub open spec fn hide_error(self) -> AppView {
        if self.modal is Error {
            AppView { modal: ModalView::Hidden, ..self }
        } else {
            self
        }
    }

    /// A message leaves the overlay; anything else stays.
    pub open spec fn hide_info(self) -> AppView {
        if self.modal is Info {
            AppView { modal: ModalView::Hidden, ..self }
        } else {
            self
        }
    }

    /// A question leaves the overlay, unanswered; anything else stays.
    pub open spec fn hide_confirmation(self) -> AppView {
        if self.modal is Confirmation {
            AppView { modal: ModalView::Hidden, ..self }
        } else {
            self
        }
    }

    /// Launches `program` unless a command is running already.
    pub open spec fn run_command(self, program: Seq<char>, args: Seq<Seq<char>>) -> Step {
        if self.running() {
            quiet(self)
        } else {
            Step {
                state: AppView { session: SessionStatus::Running, script_process: None, ..self },
                effect: EffectView::Launch { program, args },
            }
        }
    }

    /// Launches `program` and shows its progress, unless a command is running already.
    pub open spec fn run_command_progress(self, program: Seq<char>, args: Seq<Seq<char>>) -> Step {
        if self.running() {
            quiet(self)
        } else {
            AppView {
                scroll_position: 0,
                script_output: Seq::empty(),
                script_last_view_state: self.view_state,
                view_state: ViewState::ScriptProgress,
                terminal_clear: true,
                ..self
            }.run_command(program, args)
        }
    }

    /// Launches the check for updates, unless a command is running already.
    pub open spec fn check_updates(self) -> Step {
        if self.running() {
            quiet(self)
        } else {
            AppView {
                script_output: Seq::empty(),
                script_last_view_state: self.view_state,
                view_state: ViewState::UpdateCheck,
                terminal_clear: true,
                ..self
            }.run_command(SUDO@, seq![CHECK_UPDATE_SCRIPT@, FLAG_NO_INFO@])
        }
    }

    /// Launches the update to `version` from the screen the check started on.
    pub open spec fn start_update(self, version: Seq<char>) -> Step {
        if self.running() {
            quiet(self)
        } else {
            self.set_view_state(self.script_last_view_state).run_command_progress(
                SUDO@,
                seq![UPDATE_SCRIPT@, FLAG_NO_CONFIRM@, FLAG_VERSION@, version],
            )
        }
    }

    /// Launches the installation of the kind `kind`.
    pub open spec fn install(self, kind: Seq<char>) -> Step {
        self.run_command_progress(SUDO@, seq![INSTALL_SCRIPT@, kind, FLAG_NO_CONFIRM@])
    }

    /// Launches the clean-up of the kind `kind`.
    pub open spec fn uninstall(self, kind: Seq<char>) -> Step {
        self.run_command_progress(SUDO@, seq![UNINSTALL_SCRIPT@, kind, FLAG_NO_CONFIRM@])
    }

    /// Launches the installation of the kind under the cursor.
    pub open spec fn run_installation_script(self) -> Step {
        match self.installation_type {
            Some(i) => self.install(INSTALLATION_TYPES[i as int].1@),
            None => quiet(self),
        }
    }

    /// Does what an accepted confirmation stands for.
    pub open spec fn run_deferred(self, action: DeferredActionView) -> Step {
        match action {
            DeferredActionView::RunInstall(kind) => self.install(kind),
            DeferredActionView::RunUninstall(kind) => self.uninstall(kind),
            DeferredActionView::RunUpdate(version) => self.start_update(version),
        }
    }

    /// The entry "install": an error on a system that is installed already or
    /// says no name; on any other the kinds of installation, the first under
    /// the cursor.
    pub open spec fn handle_install(self, os_name: Option<Seq<char>>) -> AppView {
        match os_name {
            Some(name) => if has_substring(name, OS_NAME@) {
                self.set_error(ALREADY_INSTALLED@)
            } else {
                AppView {
                    installation_type: Some(0),
                    ..self.set_view_state(ViewState::InstallationType)
                }
            },
            None => self.set_error(OS_NOT_DETECTED@),
        }
    }

    /// The entry "update": the check for updates on an installed system, an
    /// error on any other.
    pub open spec fn handle_update(self, os_name: Option<Seq<char>>) -> Step {
        match os_name {
            Some(name) => if has_substring(name, OS_NAME@) {
                self.check_updates()
            } else {
                quiet(self.set_error(NOT_SUPPORTED@ + name))
            },
            None => quiet(self.set_error(OS_NOT_DETECTED@)),
        }
    }

    /// The entry "clean": the kinds of clean-up on an installed system, the
    /// first under the cursor; an error on any other.
    pub open spec fn handle_uninstall(self, os_name: Option<Seq<char>>) -> AppView {
        match os_name {
            Some(name) => if has_substring(name, OS_NAME@) {
                AppView { uninstall_type: Some(0), ..self.set_view_state(ViewState::UninstallType) }
            } else {
                self.set_error(NOT_SUPPORTED@ + name)
            },
            None => self.set_error(OS_NOT_DETECTED@),
        }
    }

    /// The question whether to install the kind under the cursor.
    pub open spec fn handle_installation_type(self) -> AppView {
        match self.installation_type {
            Some(i) => self.set_confirmation(
                INSTALL_WARNING_HEAD@ + INSTALLATION_TYPES[i as int].0@ + INSTALL_WARNING_TAIL@,
                DeferredActionView::RunInstall(INSTALLATION_TYPES[i as int].1@),
            ),
            None => self,
        }
    }

    /// The question whether to clean in the way under the cursor.
    pub open spec fn handle_uninstall_type(self) -> AppView {
        match self.uninstall_type {
            Some(i) => self.set_confirmation(
                UNINSTALL_WARNINGS[i as int]@,
                DeferredActionView::RunUninstall(UNINSTALL_TYPES[i as int].1@),
            ),
            None => self,
        }
    }

    /// Fills the package list from the text of the package file, or with the
    /// first entry alone where the file could not be read.
    pub open spec fn load_packages(self, text: Option<Seq<char>>) -> AppView {
        let list = seq![CUSTOM_PACKAGES_ENTRY@] + catalog_packages(text);
        AppView {
            package_list: list,
            selected_packages: Seq::new(list.len(), |i: int| false),
            package_cursor: Some(0),
            view_state: ViewState::PackageList,
            ..self
        }
    }

    /// The selection under the cursor is flipped; on the first entry the
    /// screen for free input is shown instead.
    pub open spec fn toggle_package(self) -> AppView {
        match self.package_cursor {
            Some(i) => if i == 0 {
                AppView { view_state: ViewState::CustomPackageInput, ..self }
            } else {
                AppView {
                    selected_packages: self.selected_packages.update(
                        i as int,
                        !self.selected_packages[i as int],
                    ),
                    ..self
                }
            },
            None => self,
        }
    }

    /// The selected packages are installed; where none is selected nothing is
    /// launched and the overlay shows an error that says so.
    pub open spec fn install_selected_packages(self) -> Step {
        let chosen = chosen_packages(self.package_list, self.selected_packages);
        if chosen.len() == 0 {
            quiet(self.set_error(NO_PACKAGES_SELECTED@))
        } else {
            self.run_command_progress(PACKAGE_MANAGER@, package_args(chosen))
        }
    }

    /// The selected packages are installed; where none is selected nothing is
    /// launched and the overlay shows an error that says so.
    pub open spec fn start_package_installation(self) -> Step {
        let chosen = chosen_packages(self.package_list, self.selected_packages);
        if chosen.len() == 0 {
            quiet(self.set_error(NO_PACKAGES_SELECTED@))
        } else {
            self.run_command_progress(PACKAGE_MANAGER@, package_args(chosen))
        }
    }

    /// The packages named in the free input are installed and the input is
    /// emptied; where it names none the status line says so.
    pub open spec fn install_custom_packages(self) -> Step {
        let names = split_words(self.custom_package_input);
        if names.len() == 0 {
            quiet(AppView { status: NO_PACKAGES_GIVEN@, ..self })
        } else if self.running() {
            quiet(self)
        } else {
            AppView { custom_package_input: Seq::empty(), ..self }.run_command_progress(
                PACKAGE_MANAGER@,
                package_args(names),
            )
        }
    }

    /// What Enter selects on the screen that is shown.
    pub open spec fn run_selected_action(self, os_name: Option<Seq<char>>) -> Step {
        match self.view_state {
            ViewState::MainMenu => match self.menu {
                Some(i) => if i == 0 {
                    quiet(self.handle_install(os_name))
                } else if i == 1 {
                    self.handle_update(os_name)
                } else if i == 2 {
                    quiet(self.handle_uninstall(os_name))
                } else if i == 3 {
                    Step { state: self, effect: EffectView::ReadPackageCatalog }
                } else {
                    quiet(self)
                },
                None => quiet(self),
            },
            ViewState::PackageList => self.install_selected_packages(),
            ViewState::CustomPackageInput => self.install_custom_packages(),
            ViewState::ScriptProgress => quiet(self),
            ViewState::InstallationType => if self.modal is Confirmation {
                self.run_installation_script()
            } else {
                quiet(self.handle_installation_type())
            },
            ViewState::UpdateCheck => quiet(self),
            ViewState::UninstallType => if self.modal is Confirmation {
                quiet(self)
            } else {
                quiet(self.handle_uninstall_type())
            },
        }
    }

    /// Records the process that the launched command runs as.
    pub open spec fn process_started(self, pid: u32) -> AppView {
        if self.running() {
            AppView { script_process: Some(pid), ..self }
        } else {
            self
        }
    }

    /// Takes in one report of the running command.
    pub open spec fn apply_event(self, event: CommandEvent) -> AppView {
        match event {
            CommandEvent::OutputLine(line) => AppView {
                script_output: self.script_output.push(line),
                ..self
            },
            CommandEvent::Completed => AppView {
                session: SessionStatus::Succeeded,
                script_process: None,
                ..self
            },
            CommandEvent::Exit(code) => AppView {
                modal: ModalView::Error(COMMAND_FAILED@),
                session: SessionStatus::Failed(code),
                script_process: None,
                ..self
            },
            CommandEvent::StartError(error) => AppView {
                modal: ModalView::Error(START_FAILED@ + error),
                session: SessionStatus::StartFailed,
                script_process: None,
                ..self
            },
            CommandEvent::WaitError(error) => AppView {
                modal: ModalView::Error(WAIT_FAILED@ + error),
                session: SessionStatus::WaitFailed,
                script_process: None,
                ..self
            },
        }
    }

    /// Takes in a run of reports, in order.
    pub open spec fn apply_events(self, events: Seq<CommandEvent>) -> AppView
        decreases events.len(),
    {
        if events.len() == 0 {
            self
        } else {
            self.apply_events(events.drop_last()).apply_event(events.last())
        }
    }

    /// Takes in what the running command has reported since the last tick.
    /// Reports that come while no command is running are dropped.
    pub open spec fn update_script_progress(self, events: Seq<CommandEvent>) -> AppView {
        if self.running() {
            self.apply_events(events)
        } else {
            self
        }
    }

    /// The version that the output of the update check names.
    pub open spec fn candidate_version(self) -> Seq<char> {
        joined_trimmed(self.script_output)
    }

    /// Closes the update check: asks whether to update where the check named
    /// a version other than the installed one, says that the system is up to
    /// date otherwise, and in both cases goes back to the screen the check
    /// started on. An error that is shown stays.
    pub open spec fn conclude_update_check(self, os_version: Option<Seq<char>>) -> AppView {
        let candidate = self.candidate_version();
        let modal = if self.modal is Error {
            self.modal
        } else if candidate.len() > 0 && candidate != installed_version(os_version) {
            ModalView::Confirmation(
                UPDATE_FOUND_HEAD@ + candidate + UPDATE_FOUND_TAIL@,
                DeferredActionView::RunUpdate(candidate),
            )
        } else {
            ModalView::Info(UP_TO_DATE@)
        };
        AppView {
            modal,
            session: SessionStatus::Idle,
            script_process: None,
            ..self.set_view_state(self.script_last_view_state)
        }
    }

    /// One turn of the loop before the key is read: takes in the reports,
    /// then closes an update check that has ended.
    pub open spec fn tick(self, events: Seq<CommandEvent>, os_version: Option<Seq<char>>) -> AppView {
        let taken = self.update_script_progress(events);
        if taken.view_state == ViewState::UpdateCheck && !taken.running() {
            taken.conclude_update_check(os_version)
        } else {
            taken
        }
    }

    /// Ends the session and goes to `back_to`; a process that runs is to be killed.
    pub open spec fn cancel(self, back_to: ViewState) -> Step {
        let state = AppView {
            status: if self.script_process is Some {
                TASK_CANCELLED@
            } else {
                self.status
            },
            script_process: None,
            session: SessionStatus::Idle,
            ..self.set_view_state(back_to)
        };
        match self.script_process {
            Some(pid) => Step { state, effect: EffectView::Kill { pid } },
            None => quiet(state),
        }
    }

    /// Leaves the progress screen once the command has ended.
    pub open spec fn close_progress(self) -> AppView {
        if self.running() {
            self
        } else {
            AppView {
                session: SessionStatus::Idle,
                ..self.set_view_state(self.script_last_view_state)
            }
        }
    }

    /// The cursor of the package list moves one entry down.
    pub open spec fn package_down(self) -> AppView {
        if self.package_list.len() > 0 {
            AppView {
                package_cursor: after_down(self.package_cursor, self.package_list.len()),
                ..self
            }
        } else {
            self
        }
    }

    /// The cursor of the package list moves one entry up.
    pub open spec fn package_up(self) -> AppView {
        if self.package_list.len() > 0 {
            AppView {
                package_cursor: after_up(self.package_cursor, self.package_list.len()),
                ..self
            }
        } else {
            self
        }
    }

    /// The output is scrolled up by `by` lines, as far as its start.
    pub open spec fn scroll_up(self, by: usize) -> AppView {
        AppView {
            scroll_position: if self.scroll_position >= by {
                (self.scroll_position - by) as usize
            } else {
                0
            },
            ..self
        }
    }

    /// The output is scrolled down by `by` lines.
    pub open spec fn scroll_down(self, by: usize) -> AppView {
        AppView {
            scroll_position: if self.scroll_position + by <= usize::MAX {
                (self.scroll_position + by) as usize
            } else {
                usize::MAX
            },
            ..self
        }
    }

    /// What a key does on the main menu.
    pub open spec fn on_main_menu_key(self, key: Key, os_name: Option<Seq<char>>) -> Step {
        match key {
            Key::Char(c) => if c == 'q' {
                Step { state: self, effect: EffectView::Quit }
            } else {
                quiet(self)
            },
            Key::Up => quiet(self.previous()),
            Key::Down => quiet(self.next()),
            Key::Enter => self.run_selected_action(os_name),
            _ => quiet(self),
        }
    }

    /// What a key does on the package list.
    pub open spec fn on_package_list_key(self, key: Key) -> Step {
        match key {
            Key::Char(c) => if c == 'q' {
                Step { state: self, effect: EffectView::Quit }
            } else if c == ' ' {
                quiet(self.toggle_package())
            } else {
                quiet(self)
            },
            Key::Up => quiet(self.package_up()),
            Key::Down => quiet(self.package_down()),
            Key::Enter => if any_set(self.selected_packages) {
                self.start_package_installation()
            } else {
                quiet(self.toggle_package())
            },
            Key::Esc => quiet(self.set_view_state(ViewState::MainMenu)),
            _ => quiet(self),
        }
    }

    /// What a key does on the screen for free input. Every character is
    /// input there, `q` too.
    pub open spec fn on_custom_input_key(self, key: Key, os_name: Option<Seq<char>>) -> Step {
        match key {
            Key::Char(c) => quiet(
                AppView { custom_package_input: self.custom_package_input.push(c), ..self },
            ),
            Key::Backspace => quiet(
                AppView {
                    custom_package_input: without_last(self.custom_package_input),
                    ..self
                },
            ),
            Key::Enter => self.run_selected_action(os_name),
            Key::Esc => quiet(self.set_view_state(ViewState::PackageList)),
            _ => quiet(self),
        }
    }

    /// What a key does on the progress screen.
    pub open spec fn on_progress_key(self, key: Key) -> Step {
        match key {
            Key::Enter => quiet(self.close_progress()),
            Key::Esc => self.cancel(self.script_last_view_state),
            Key::Up => quiet(self.scroll_up(1)),
            Key::Down => quiet(self.scroll_down(1)),
            Key::PageUp => quiet(self.scroll_up(10)),
            Key::PageDown => quiet(self.scroll_down(10)),
            _ => quiet(self),
        }
    }

    /// What a key does on the list of installation kinds.
    pub open spec fn on_installation_type_key(self, key: Key, os_name: Option<Seq<char>>) -> Step {
        match key {
            Key::Char(c) => if c == 'q' {
                Step { state: self, effect: EffectView::Quit }
            } else {
                quiet(self)
            },
            Key::Up => quiet(
                AppView {
                    installation_type: after_up(
                        self.installation_type,
                        INSTALLATION_TYPES@.len(),
                    ),
                    ..self
                },
            ),
            Key::Down => quiet(
                AppView {
                    installation_type: after_down(
                        self.installation_type,
                        INSTALLATION_TYPES@.len(),
                    ),
                    ..self
                },
            ),
            Key::Enter => self.run_selected_action(os_name),
            Key::Esc => quiet(self.set_view_state(ViewState::MainMenu)),
            _ => quiet(self),
        }
    }

    /// What a key does while the check for updates runs.
    pub open spec fn on_update_check_key(self, key: Key) -> Step {
        match key {
            Key::Esc => self.cancel(ViewState::MainMenu),
            _ => quiet(self),
        }
    }

    /// What a key does on the list of clean-up kinds.
    pub open spec fn on_uninstall_type_key(self, key: Key, os_name: Option<Seq<char>>) -> Step {
        match key {
            Key::Char(c) => if c == 'q' {
                Step { state: self, effect: EffectView::Quit }
            } else {
                quiet(self)
            },
            Key::Up => quiet(
                AppView {
                    uninstall_type: after_up(self.uninstall_type, UNINSTALL_TYPES@.len()),
                    ..self
                },
            ),
            Key::Down => quiet(
                AppView {
                    uninstall_type: after_down(self.uninstall_type, UNINSTALL_TYPES@.len()),
                    ..self
                },
            ),
            Key::Enter => self.run_selected_action(os_name),
            Key::Esc => quiet(self.set_view_state(ViewState::MainMenu)),
            _ => quiet(self),
        }
    }

    /// What a key does to the overlay that is shown.
    pub open spec fn on_modal_key(self, key: Key) -> Step {
        match self.modal {
            ModalView::Hidden => quiet(self),
            ModalView::Error(_) => if key is Enter || key is Esc {
                quiet(self.hide_error())
            } else {
                quiet(self)
            },
            ModalView::Info(_) => if key is Enter || key is Esc {
                quiet(self.hide_info())
            } else {
                quiet(self)
            },
            ModalView::Confirmation(_, action) => if key is Enter {
                self.hide_confirmation().run_deferred(action)
            } else if key is Esc {
                quiet(self.hide_confirmation())
            } else {
                quiet(self)
            },
        }
    }

    /// What a key does: it goes to the overlay while one is shown, and to
    /// the screen otherwise.
    pub open spec fn on_key(self, key: Key, os_name: Option<Seq<char>>) -> Step {
        if !(self.modal is Hidden) {
            self.on_modal_key(key)
        } else {
            match self.view_state {
                ViewState::MainMenu => self.on_main_menu_key(key, os_name),
                ViewState::PackageList => self.on_package_list_key(key),
                ViewState::CustomPackageInput => self.on_custom_input_key(key, os_name),
                ViewState::ScriptProgress => self.on_progress_key(key),
                ViewState::InstallationType => self.on_installation_type_key(key, os_name),
                ViewState::UpdateCheck => self.on_update_check_key(key),
                ViewState::UninstallType => self.on_uninstall_type_key(key, os_name),
            }
        }
    }
}

} // verus!
