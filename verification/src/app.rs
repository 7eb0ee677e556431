//! The interface itself: its state and the steps that change it.

use crate::cursor::{move_down, move_up};
use crate::host::HostInfo;
use crate::messages::{
    ALREADY_INSTALLED, CHECK_UPDATE_SCRIPT, COMMAND_FAILED, CUSTOM_PACKAGES_ENTRY, FLAG_NO_CONFIRM,
    FLAG_NO_INFO, FLAG_VERSION, INSTALLATION_TYPES, INSTALL_SCRIPT, INSTALL_WARNING_HEAD,
    INSTALL_WARNING_TAIL, MENU_ITEMS, NOT_SUPPORTED, NO_PACKAGES_GIVEN, NO_PACKAGES_SELECTED,
    OS_NAME, OS_NOT_DETECTED, PACKAGE_MANAGER, START_FAILED, SUDO, TASK_CANCELLED, UNINSTALL_SCRIPT,
    UNINSTALL_TYPES, UNINSTALL_WARNINGS, UNKNOWN_VERSION, UPDATE_FOUND_HEAD, UPDATE_FOUND_TAIL,
    UPDATE_SCRIPT, UP_TO_DATE, WAIT_FAILED, WELCOME,
};
use crate::model::{
    any_set, catalog_packages, chosen_packages, chosen_upto, joined_trimmed, step, AppView,
    CommandEvent, DeferredActionView, EffectView, Key, ModalView, SessionStatus, ViewState,
};
use crate::packages::{package_manager_args, parse_package_catalog};
use crate::text::{
    append, contains, joined, lemma_texts_push, optional_text, pop_char, push_char,
    split_whitespace, texts, trim,
};
use vstd::prelude::*;

verus! {

/// What the runner of a command reports.
#[derive(Debug, PartialEq, Eq)]
pub enum CommandState {
    /// One line of what the command wrote.
    OutputLine(String),
    /// The command ended with exit code zero.
    Completed,
    /// The command ended otherwise: with the exit code given, or with none
    /// where a signal ended it.
    Exit(Option<i32>),
    /// The command could not be started; the system's words on why.
    StartError(String),
    /// Waiting for the command's end failed; the system's words on why.
    WaitError(String),
}

impl View for CommandState {
    type V = CommandEvent;

    open spec fn view(&self) -> CommandEvent {
        match self {
            CommandState::OutputLine(line) => CommandEvent::OutputLine(line@),
            CommandState::Completed => CommandEvent::Completed,
            CommandState::Exit(code) => CommandEvent::Exit(*code),
            CommandState::StartError(error) => CommandEvent::StartError(error@),
            CommandState::WaitError(error) => CommandEvent::WaitError(error@),
        }
    }
}

/// The views of the reports in `events`.
pub open spec fn events_view(events: Seq<CommandState>) -> Seq<CommandEvent> {
    events.map_values(|e: CommandState| e@)
}

/// What a confirmation does once it is accepted.
#[derive(Debug, PartialEq, Eq)]
pub enum DeferredAction {
    /// Install the system, of the kind given.
    RunInstall(String),
    /// Clean the system, in the way given.
    RunUninstall(String),
    /// Update the system to the version given.
    RunUpdate(String),
}

impl View for DeferredAction {
    type V = DeferredActionView;

    open spec fn view(&self) -> DeferredActionView {
        match self {
            DeferredAction::RunInstall(kind) => DeferredActionView::RunInstall(kind@),
            DeferredAction::RunUninstall(kind) => DeferredActionView::RunUninstall(kind@),
            DeferredAction::RunUpdate(version) => DeferredActionView::RunUpdate(version@),
        }
    }
}

/// The overlay: nothing, or one message that takes every key until it is
/// answered. Showing a message replaces the one that was shown.
#[derive(Debug, PartialEq, Eq)]
pub enum Modal {
    Hidden,
    Error(String),
    Confirmation(String, DeferredAction),
    Info(String),
}

impl View for Modal {
    type V = ModalView;

    open spec fn view(&self) -> ModalView {
        match self {
            Modal::Hidden => ModalView::Hidden,
            Modal::Error(text) => ModalView::Error(text@),
            Modal::Confirmation(text, action) => ModalView::Confirmation(text@, action@),
            Modal::Info(text) => ModalView::Info(text@),
        }
    }
}

/// What the program around the library has to do after a step.
#[derive(Debug, PartialEq, Eq)]
pub enum Effect {
    Nothing,
    /// Leave the program.
    Quit,
    /// Start `program` with `args`, report its process with
    /// [`App::process_started`] and what it writes and how it ends with
    /// [`App::tick`].
    Launch { program: String, args: Vec<String> },
    /// Terminate the process and forget the command it ran.
    Kill { pid: u32 },
    /// Read the package file and hand its text to [`App::load_packages`].
    ReadPackageCatalog,
}

impl View for Effect {
    type V = EffectView;

    open spec fn view(&self) -> EffectView {
        match self {
            Effect::Nothing => EffectView::Nothing,
            Effect::Quit => EffectView::Quit,
            Effect::Launch { program, args } => EffectView::Launch {
                program: program@,
                args: texts(args@),
            },
            Effect::Kill { pid } => EffectView::Kill { pid: *pid },
            Effect::ReadPackageCatalog => EffectView::ReadPackageCatalog,
        }
    }
}

/// The state of the interface.
pub struct App {
    menu: Option<usize>,
    status: String,
    modal: Modal,
    package_list: Vec<String>,
    package_cursor: Option<usize>,
    selected_packages: Vec<bool>,
    custom_package_input: String,
    view_state: ViewState,
    session: SessionStatus,
    script_process: Option<u32>,
    script_output: Vec<String>,
    script_last_view_state: ViewState,
    installation_type: Option<usize>,
    uninstall_type: Option<usize>,
    scroll_position: usize,
    terminal_clear: bool,
}

impl View for App {
    type V = AppView;

    closed spec fn view(&self) -> AppView {
        AppView {
            menu: self.menu,
            status: self.status@,
            modal: self.modal@,
            package_list: texts(self.package_list@),
            package_cursor: self.package_cursor,
            selected_packages: self.selected_packages@,
            custom_package_input: self.custom_package_input@,
            view_state: self.view_state,
            session: self.session,
            script_process: self.script_process,
            script_output: texts(self.script_output@),
            script_last_view_state: self.script_last_view_state,
            installation_type: self.installation_type,
            uninstall_type: self.uninstall_type,
            scroll_position: self.scroll_position,
            terminal_clear: self.terminal_clear,
        }
    }
}

impl App {
    /// What holds of the interface between any two steps.
    pub open spec fn wf(&self) -> bool {
        self@.wf()
    }

    /// The interface as it starts: on the main menu, its first entry selected.
    pub fn new() -> (app: App)
        ensures
            app@ == AppView::initial(),
            app.wf(),
    {
        let app = App {
            menu: Some(0),
            status: WELCOME.to_owned(),
            modal: Modal::Hidden,
            package_list: Vec::new(),
            package_cursor: None,
            selected_packages: Vec::new(),
            custom_package_input: String::new(),
            view_state: ViewState::MainMenu,
            session: SessionStatus::Idle,
            script_process: None,
            script_output: Vec::new(),
            script_last_view_state: ViewState::MainMenu,
            installation_type: None,
            uninstall_type: None,
            scroll_position: 0,
            terminal_clear: false,
        };
        assert(app@.package_list =~= Seq::empty());
        assert(app@.script_output =~= Seq::empty());
        app
    }

    /// Whether the state is one the interface can be in.
    pub fn is_well_formed(&self) -> (ok: bool)
        ensures
            ok == self.wf(),
    {
        let cursors = match self.menu {
            Some(i) => i < MENU_ITEMS.len(),
            None => true,
        } && match self.installation_type {
            Some(i) => i < INSTALLATION_TYPES.len(),
            None => true,
        } && match self.uninstall_type {
            Some(i) => i < UNINSTALL_TYPES.len(),
            None => true,
        } && match self.package_cursor {
            Some(i) => i < self.package_list.len(),
            None => true,
        };
        let lengths = self.selected_packages.len() == self.package_list.len();
        let first = lengths && (self.package_list.len() == 0 || !self.selected_packages[0]);
        let process = self.script_process.is_none() || self.session == SessionStatus::Running;
        cursors && first && process
    }

    /// Moves the cursor of the main menu one entry down.
    pub fn next(&mut self)
        requires
            old(self).wf(),
        ensures
            final(self)@ == old(self)@.next(),
            final(self).wf(),
    {
        self.menu = move_down(self.menu, MENU_ITEMS.len());
    }

    /// Moves the cursor of the main menu one entry up.
    pub fn previous(&mut self)
        requires
            old(self).wf(),
        ensures
            final(self)@ == old(self)@.previous(),
            final(self).wf(),
    {
        self.menu = move_up(self.menu, MENU_ITEMS.len());
    }

    /// Shows `view_state` and asks for the terminal to be cleared.
    pub fn set_view_state(&mut self, view_state: ViewState)
        requires
            old(self).wf(),
        ensures
            final(self)@ == old(self)@.set_view_state(view_state),
            final(self).wf(),
    {
        self.view_state = view_state;
        self.terminal_clear = true;
    }

    /// Shows an error in the overlay.
    pub fn set_error(&mut self, error: String)
        requires
            old(self).wf(),
        ensures
            final(self)@ == old(self)@.set_error(error@),
            final(self).wf(),
    {
        self.modal = Modal::Error(error);
    }

    /// Takes the error off the overlay, if it shows one.
    pub fn hide_error(&mut self)
        requires
            old(self).wf(),
        ensures
            final(self)@ == old(self)@.hide_error(),
            final(self).wf(),
    {
        if let Modal::Error(_) = &self.modal {
            self.modal = Modal::Hidden;
        }
    }

    /// Shows a message in the overlay.
    pub fn set_info(&mut self, message: String)
        requires
            old(self).wf(),
        ensures
            final(self)@ == old(self)@.set_info(message@),
            final(self).wf(),
    {
        self.modal = Modal::Info(message);
    }

    /// Takes the message off the overlay, if it shows one.
    pub fn hide_info(&mut self)
        requires
            old(self).wf(),
        ensures
            final(self)@ == old(self)@.hide_info(),
            final(self).wf(),
    {
        if let Modal::Info(_) = &self.modal {
            self.modal = Modal::Hidden;
        }
    }

    /// Shows a question in the overlay, with what accepting it does.
    pub fn set_confirmation(&mut self, confirmation: String, action: DeferredAction)
        requires
            old(self).wf(),
        ensures
            final(self)@ == old(self)@.set_confirmation(confirmation@, action@),
            final(self).wf(),
    {
        self.modal = Modal::Confirmation(confirmation, action);
    }

    /// Takes the question off the overlay, if it shows one; what accepting
    /// it would have done is dropped.
    pub fn hide_confirmation(&mut self)
        requires
            old(self).wf(),
        ensures
            final(self)@ == old(self)@.hide_confirmation(),
            final(self).wf(),
    {
        if let Modal::Confirmation(_, _) = &self.modal {
            self.modal = Modal::Hidden;
        }
    }

    /// Asks for `program` to be launched with `args` and takes the session
    /// as running. While a command is running nothing is launched and
    /// nothing changes.
    pub fn run_command(&mut self, program: String, args: Vec<String>) -> (effect: Effect)
        requires
            old(self).wf(),
        ensures
            step(final(self)@, effect@) == old(self)@.run_command(program@, texts(args@)),
            final(self).wf(),
    {
        if self.session == SessionStatus::Running {
            return Effect::Nothing;
        }
        self.session = SessionStatus::Running;
        self.script_process = None;
        Effect::Launch { program, args }
    }

    /// Asks for `program` to be launched with `args` and shows the progress
    /// screen, from which the screen shown now is reached again. While a
    /// command is running nothing is launched and nothing changes.
    pub fn run_command_progress(&mut self, program: String, args: Vec<String>) -> (effect: Effect)
        requires
            old(self).wf(),
        ensures
            step(final(self)@, effect@) == old(self)@.run_command_progress(
                program@,
                texts(args@),
            ),
            final(self).wf(),
    {
        if self.session == SessionStatus::Running {
            return Effect::Nothing;
        }
        self.scroll_position = 0;
        self.script_output = Vec::new();
        self.script_last_view_state = self.view_state;
        self.view_state = ViewState::ScriptProgress;
        self.terminal_clear = true;
        assert(texts(self.script_output@) =~= Seq::empty());
        self.run_command(program, args)
    }

    /// Asks for the check for updates to be launched and shows its screen.
    /// While a command is running nothing is launched and nothing changes.
    pub fn check_updates(&mut self) -> (effect: Effect)
        requires
            old(self).wf(),
        ensures
            step(final(self)@, effect@) == old(self)@.check_updates(),
            final(self).wf(),
    {
        if self.session == SessionStatus::Running {
            return Effect::Nothing;
        }
        self.script_output = Vec::new();
        self.script_last_view_state = self.view_state;
        self.set_view_state(ViewState::UpdateCheck);
        assert(texts(self.script_output@) =~= Seq::empty());
        let mut args: Vec<String> = Vec::new();
        args.push(CHECK_UPDATE_SCRIPT.to_owned());
        args.push(FLAG_NO_INFO.to_owned());
        assert(texts(args@) =~= seq![CHECK_UPDATE_SCRIPT@, FLAG_NO_INFO@]);
        self.run_command(SUDO.to_owned(), args)
    }

    /// Goes back to the screen the update check started on and asks for the
    /// update to `version` to be launched. While a command is running
    /// nothing is launched and nothing changes.
    pub fn start_update(&mut self, version: String) -> (effect: Effect)
        requires
            old(self).wf(),
        ensures
            step(final(self)@, effect@) == old(self)@.start_update(version@),
            final(self).wf(),
    {
        if self.session == SessionStatus::Running {
            return Effect::Nothing;
        }
        self.set_view_state(self.script_last_view_state);
        let mut args: Vec<String> = Vec::new();
        args.push(UPDATE_SCRIPT.to_owned());
        args.push(FLAG_NO_CONFIRM.to_owned());
        args.push(FLAG_VERSION.to_owned());
        args.push(version);
        assert(texts(args@) =~= seq![
            UPDATE_SCRIPT@,
            FLAG_NO_CONFIRM@,
            FLAG_VERSION@,
            version@,
        ]);
        self.run_command_progress(SUDO.to_owned(), args)
    }

    /// Asks for the installation of the kind `kind` to be launched.
    pub fn install(&mut self, kind: String) -> (effect: Effect)
        requires
            old(self).wf(),
        ensures
            step(final(self)@, effect@) == old(self)@.install(kind@),
            final(self).wf(),
    {
        let mut args: Vec<String> = Vec::new();
        args.push(INSTALL_SCRIPT.to_owned());
        args.push(kind);
        args.push(FLAG_NO_CONFIRM.to_owned());
        assert(texts(args@) =~= seq![INSTALL_SCRIPT@, kind@, FLAG_NO_CONFIRM@]);
        self.run_command_progress(SUDO.to_owned(), args)
    }

    /// Asks for the clean-up of the kind `kind` to be launched.
    pub fn uninstall(&mut self, kind: String) -> (effect: Effect)
        requires
            old(self).wf(),
        ensures
            step(final(self)@, effect@) == old(self)@.uninstall(kind@),
            final(self).wf(),
    {
        let mut args: Vec<String> = Vec::new();
        args.push(UNINSTALL_SCRIPT.to_owned());
        args.push(kind);
        args.push(FLAG_NO_CONFIRM.to_owned());
        assert(texts(args@) =~= seq![UNINSTALL_SCRIPT@, kind@, FLAG_NO_CONFIRM@]);
        self.run_command_progress(SUDO.to_owned(), args)
    }

    /// Asks for the installation of the kind under the cursor to be launched.
    pub fn run_installation_script(&mut self) -> (effect: Effect)
        requires
            old(self).wf(),
        ensures
            step(final(self)@, effect@) == old(self)@.run_installation_script(),
            final(self).wf(),
    {
        match self.installation_type {
            Some(i) => self.install(INSTALLATION_TYPES[i].1.to_owned()),
            None => Effect::Nothing,
        }
    }

    /// Does what an accepted confirmation stands for.
    pub fn run_deferred(&mut self, action: DeferredAction) -> (effect: Effect)
        requires
            old(self).wf(),
        ensures
            step(final(self)@, effect@) == old(self)@.run_deferred(action@),
            final(self).wf(),
    {
        match action {
            DeferredAction::RunInstall(kind) => self.install(kind),
            DeferredAction::RunUninstall(kind) => self.uninstall(kind),
            DeferredAction::RunUpdate(version) => self.start_update(version),
        }
    }

    /// The main menu's entry "install": refused with an error where the
    /// system is installed already or does not say what it is; otherwise the
    /// kinds of installation are shown.
    pub fn handle_install(&mut self, os_name: &Option<String>)
        requires
            old(self).wf(),
        ensures
            final(self)@ == old(self)@.handle_install(optional_text(*os_name)),
            final(self).wf(),
    {
        match os_name {
            Some(name) => {
                if contains(name.as_str(), OS_NAME) {
                    self.set_error(ALREADY_INSTALLED.to_owned());
                } else {
                    self.set_view_state(ViewState::InstallationType);
                    self.installation_type = Some(0);
                }
            },
            None => {
                self.set_error(OS_NOT_DETECTED.to_owned());
            },
        }
    }

    /// The main menu's entry "update": the check for updates is launched on
    /// an installed system, and refused with an error on any other.
    pub fn handle_update(&mut self, os_name: &Option<String>) -> (effect: Effect)
        requires
            old(self).wf(),
        ensures
            step(final(self)@, effect@) == old(self)@.handle_update(optional_text(*os_name)),
            final(self).wf(),
    {
        match os_name {
            Some(name) => {
                if contains(name.as_str(), OS_NAME) {
                    self.check_updates()
                } else {
                    self.set_error(joined(NOT_SUPPORTED, name.as_str()));
                    Effect::Nothing
                }
            },
            None => {
                self.set_error(OS_NOT_DETECTED.to_owned());
                Effect::Nothing
            },
        }
    }

    /// The main menu's entry "clean": the kinds of clean-up are shown on an
    /// installed system, and an error on any other.
    pub fn handle_uninstall(&mut self, os_name: &Option<String>)
        requires
            old(self).wf(),
        ensures
            final(self)@ == old(self)@.handle_uninstall(optional_text(*os_name)),
            final(self).wf(),
    {
        match os_name {
            Some(name) => {
                if contains(name.as_str(), OS_NAME) {
                    self.set_view_state(ViewState::UninstallType);
                    self.uninstall_type = Some(0);
                } else {
                    self.set_error(joined(NOT_SUPPORTED, name.as_str()));
                }
            },
            None => {
                self.set_error(OS_NOT_DETECTED.to_owned());
            },
        }
    }

    /// Asks whether to install the kind under the cursor.
    pub fn handle_installation_type(&mut self)
        requires
            old(self).wf(),
        ensures
            final(self)@ == old(self)@.handle_installation_type(),
            final(self).wf(),
    {
        if let Some(i) = self.installation_type {
            let kind = INSTALLATION_TYPES[i];
            let head = joined(INSTALL_WARNING_HEAD, kind.0);
            let confirmation = joined(head.as_str(), INSTALL_WARNING_TAIL);
            self.set_confirmation(confirmation, DeferredAction::RunInstall(kind.1.to_owned()));
        }
    }

    /// Asks whether to clean the system in the way under the cursor.
    pub fn handle_uninstall_type(&mut self)
        requires
            old(self).wf(),
        ensures
            final(self)@ == old(self)@.handle_uninstall_type(),
            final(self).wf(),
    {
        if let Some(i) = self.uninstall_type {
            let confirmation = UNINSTALL_WARNINGS[i].to_owned();
            let kind = UNINSTALL_TYPES[i].1.to_owned();
            self.set_confirmation(confirmation, DeferredAction::RunUninstall(kind));
        }
    }

    /// Fills the package list from the text of the package file, or with the
    /// entry for free input alone where there is no text, clears every
    /// selection and shows the list with the cursor on its first entry.
    pub fn load_packages(&mut self, text: &Option<String>)
        requires
            old(self).wf(),
        ensures
            final(self)@ == old(self)@.load_packages(optional_text(*text)),
            final(self).wf(),
    {
        let mut list: Vec<String> = Vec::new();
        list.push(CUSTOM_PACKAGES_ENTRY.to_owned());
        match text {
            Some(t) => {
                let mut names = parse_package_catalog(t.as_str());
                let ghost head = list@;
                let ghost tail = names@;
                list.append(&mut names);
                assert(texts(head + tail) =~= texts(head) + texts(tail));
            },
            None => {},
        }
        assert(texts(list@) =~= seq![CUSTOM_PACKAGES_ENTRY@] + catalog_packages(
            optional_text(*text),
        ));
        let mut flags: Vec<bool> = Vec::new();
        let mut i: usize = 0;
        while i < list.len()
            invariant
                i <= list.len(),
                flags@ == Seq::new(i as nat, |k: int| false),
            decreases list.len() - i,
        {
            flags.push(false);
            assert(flags@ =~= Seq::new((i + 1) as nat, |k: int| false));
            i += 1;
        }
        self.package_list = list;
        self.selected_packages = flags;
        self.package_cursor = Some(0);
        self.view_state = ViewState::PackageList;
    }

    /// Flips the selection of the package under the cursor. On the first
    /// entry nothing is flipped: the screen for free input is shown.
    pub fn toggle_package(&mut self)
        requires
            old(self).wf(),
        ensures
            final(self)@ == old(self)@.toggle_package(),
            final(self).wf(),
    {
        if let Some(i) = self.package_cursor {
            if i == 0 {
                self.view_state = ViewState::CustomPackageInput;
            } else {
                let flag = self.selected_packages[i];
                self.selected_packages.set(i, !flag);
            }
        }
    }

    /// The selected packages, in the order of the list.
    pub fn chosen(&self) -> (names: Vec<String>)
        requires
            self.wf(),
        ensures
            texts(names@) == chosen_packages(self@.package_list, self@.selected_packages),
    {
        let mut names: Vec<String> = Vec::new();
        let n = self.package_list.len();
        assert(texts(names@) =~= Seq::empty());
        if n <= 1 {
            return names;
        }
        let mut i: usize = 1;
        while i < n
            invariant
                1 <= i <= n,
                n == self.package_list.len() == self.selected_packages.len(),
                texts(names@) == chosen_upto(
                    texts(self.package_list@),
                    self.selected_packages@,
                    i as nat,
                ),
            decreases n - i,
        {
            if self.selected_packages[i] {
                let name = self.package_list[i].clone();
                proof {
                    lemma_texts_push(names@, name);
                }
                names.push(name);
            }
            i += 1;
        }
        names
    }

    /// Asks for the selected packages to be installed. Where none is selected
    /// nothing is launched: the overlay shows an error that says so, and the
    /// screen, the lists and the session stay as they are.
    pub fn install_selected_packages(&mut self) -> (effect: Effect)
        requires
            old(self).wf(),
        ensures
            step(final(self)@, effect@) == old(self)@.install_selected_packages(),
            final(self).wf(),
    {
        let names = self.chosen();
        if names.len() == 0 {
            self.set_error(NO_PACKAGES_SELECTED.to_owned());
            return Effect::Nothing;
        }
        self.run_command_progress(PACKAGE_MANAGER.to_owned(), package_manager_args(names))
    }

    /// Asks for the selected packages to be installed. Where none is selected
    /// nothing is launched: the overlay shows an error that says so, and the
    /// screen, the lists and the session stay as they are.
    pub fn start_package_installation(&mut self) -> (effect: Effect)
        requires
            old(self).wf(),
        ensures
            step(final(self)@, effect@) == old(self)@.start_package_installation(),
            final(self).wf(),
    {
        let names = self.chosen();
        if names.len() == 0 {
            self.set_error(NO_PACKAGES_SELECTED.to_owned());
            return Effect::Nothing;
        }
        self.run_command_progress(PACKAGE_MANAGER.to_owned(), package_manager_args(names))
    }

    /// Asks for the packages named in the free input to be installed and
    /// empties the input; where it names none, says so in the status line
    /// and launches nothing.
    pub fn install_custom_packages(&mut self) -> (effect: Effect)
        requires
            old(self).wf(),
        ensures
            step(final(self)@, effect@) == old(self)@.install_custom_packages(),
            final(self).wf(),
    {
        let names = split_whitespace(self.custom_package_input.as_str());
        if names.len() == 0 {
            self.status = NO_PACKAGES_GIVEN.to_owned();
            return Effect::Nothing;
        }
        if self.session == SessionStatus::Running {
            return Effect::Nothing;
        }
        self.custom_package_input = String::new();
        self.run_command_progress(PACKAGE_MANAGER.to_owned(), package_manager_args(names))
    }

    /// Does what Enter selects on the screen that is shown.
    pub fn run_selected_action(&mut self, os_name: &Option<String>) -> (effect: Effect)
        requires
            old(self).wf(),
        ensures
            step(final(self)@, effect@) == old(self)@.run_selected_action(optional_text(*os_name)),
            final(self).wf(),
    {
        match self.view_state {
            ViewState::MainMenu => match self.menu {
                Some(i) => {
                    if i == 0 {
                        self.handle_install(os_name);
                        Effect::Nothing
                    } else if i == 1 {
                        self.handle_update(os_name)
                    } else if i == 2 {
                        self.handle_uninstall(os_name);
                        Effect::Nothing
                    } else if i == 3 {
                        Effect::ReadPackageCatalog
                    } else {
                        Effect::Nothing
                    }
                },
                None => Effect::Nothing,
            },
            ViewState::PackageList => self.install_selected_packages(),
            ViewState::CustomPackageInput => self.install_custom_packages(),
            ViewState::ScriptProgress => Effect::Nothing,
            ViewState::InstallationType => {
                if let Modal::Confirmation(_, _) = &self.modal {
                    self.run_installation_script()
                } else {
                    self.handle_installation_type();
                    Effect::Nothing
                }
            },
            ViewState::UpdateCheck => Effect::Nothing,
            ViewState::UninstallType => {
                if let Modal::Confirmation(_, _) = &self.modal {
                } else {
                    self.handle_uninstall_type();
                }
                Effect::Nothing
            },
        }
    }

    /// Records the process that the launched command runs as. Outside a
    /// running session nothing is recorded.
    pub fn process_started(&mut self, pid: u32)
        requires
            old(self).wf(),
        ensures
            final(self)@ == old(self)@.process_started(pid),
            final(self).wf(),
    {
        if self.session == SessionStatus::Running {
            self.script_process = Some(pid);
        }
    }

    /// Takes in one report of the running command: a line is added to the
    /// output; an end closes the session and, unless the command succeeded,
    /// shows an error.
    pub fn apply_event(&mut self, event: &CommandState)
        requires
            old(self).wf(),
        ensures
            final(self)@ == old(self)@.apply_event(event@),
            final(self).wf(),
    {
        match event {
            CommandState::OutputLine(line) => {
                let line = line.clone();
                proof {
                    lemma_texts_push(self.script_output@, line);
                }
                self.script_output.push(line);
            },
            CommandState::Completed => {
                self.session = SessionStatus::Succeeded;
                self.script_process = None;
            },
            CommandState::Exit(code) => {
                self.modal = Modal::Error(COMMAND_FAILED.to_owned());
                self.session = SessionStatus::Failed(*code);
                self.script_process = None;
            },
            CommandState::StartError(error) => {
                self.modal = Modal::Error(joined(START_FAILED, error.as_str()));
                self.session = SessionStatus::StartFailed;
                self.script_process = None;
            },
            CommandState::WaitError(error) => {
                self.modal = Modal::Error(joined(WAIT_FAILED, error.as_str()));
                self.session = SessionStatus::WaitFailed;
                self.script_process = None;
            },
        }
    }

    /// Takes in what the running command has reported since the last call,
    /// in order, to the end of `events` even where the command's end is
    /// among them. While no command is running the reports are dropped.
    pub fn update_script_progress(&mut self, events: &Vec<CommandState>)
        requires
            old(self).wf(),
        ensures
            final(self)@ == old(self)@.update_script_progress(events_view(events@)),
            final(self).wf(),
    {
        if self.session != SessionStatus::Running {
            return;
        }
        let ghost start = self@;
        let ghost all = events_view(events@);
        let mut i: usize = 0;
        assert(all.take(0) =~= Seq::empty());
        while i < events.len()
            invariant
                i <= events.len(),
                all == events_view(events@),
                self.wf(),
                self@ == start.apply_events(all.take(i as int)),
            decreases events.len() - i,
        {
            assert(all.take(i + 1).drop_last() == all.take(i as int));
            assert(all.take(i + 1).last() == events@[i as int]@);
            self.apply_event(&events[i]);
            i += 1;
        }
        assert(all.take(all.len() as int) == all);
    }

    /// The version that the output of the update check names: its lines,
    /// each without the white space around it, one after another.
    pub fn candidate_version(&self) -> (version: String)
        ensures
            version@ == self@.candidate_version(),
    {
        let mut version = String::new();
        let mut i: usize = 0;
        let ghost lines = texts(self.script_output@);
        assert(lines.take(0) =~= Seq::empty());
        while i < self.script_output.len()
            invariant
                i <= self.script_output.len(),
                lines == texts(self.script_output@),
                version@ == joined_trimmed(lines.take(i as int)),
            decreases self.script_output.len() - i,
        {
            assert(lines.take(i + 1).drop_last() == lines.take(i as int));
            assert(lines.take(i + 1).last() == self.script_output@[i as int]@);
            let line = trim(self.script_output[i].as_str());
            append(&mut version, line.as_str());
            i += 1;
        }
        assert(lines.take(lines.len() as int) == lines);
        version
    }

    /// Closes the update check. Where its output names a version other than
    /// `os_version` (an unknown one counts as `0.0.0`), asks whether to
    /// update to it; otherwise says that the system is up to date. An error
    /// that is shown stays in place of either. The screen the check started
    /// on is shown again and the session is over.
    pub fn conclude_update_check(&mut self, os_version: &Option<String>)
        requires
            old(self).wf(),
        ensures
            final(self)@ == old(self)@.conclude_update_check(optional_text(*os_version)),
            final(self).wf(),
    {
        let shows_error = match &self.modal {
            Modal::Error(_) => true,
            _ => false,
        };
        if !shows_error {
            let candidate = self.candidate_version();
            let installed = match os_version {
                Some(v) => v.clone(),
                None => UNKNOWN_VERSION.to_owned(),
            };
            let found = candidate.as_str().unicode_len() > 0 && !(candidate == installed);
            if found {
                let head = joined(UPDATE_FOUND_HEAD, candidate.as_str());
                let confirmation = joined(head.as_str(), UPDATE_FOUND_TAIL);
                self.modal = Modal::Confirmation(confirmation, DeferredAction::RunUpdate(candidate));
            } else {
                self.modal = Modal::Info(UP_TO_DATE.to_owned());
            }
        }
        self.session = SessionStatus::Idle;
        self.script_process = None;
        self.set_view_state(self.script_last_view_state);
    }

    /// One turn of the loop before a key is read: takes in `events`, what
    /// the running command has reported since the last turn, and then
    /// closes an update check that has ended.
    pub fn tick(&mut self, events: &Vec<CommandState>, host: &HostInfo)
        requires
            old(self).wf(),
        ensures
            final(self)@ == old(self)@.tick(events_view(events@), optional_text(host.os_version)),
            final(self).wf(),
    {
        self.update_script_progress(events);
        if self.view_state == ViewState::UpdateCheck && self.session != SessionStatus::Running {
            self.conclude_update_check(&host.os_version);
        }
    }

    /// Ends the session and shows `back_to`. A process that runs is to be
    /// killed, and the status line says that the task was cancelled.
    pub fn cancel(&mut self, back_to: ViewState) -> (effect: Effect)
        requires
            old(self).wf(),
        ensures
            step(final(self)@, effect@) == old(self)@.cancel(back_to),
            final(self).wf(),
    {
        let process = self.script_process.take();
        self.session = SessionStatus::Idle;
        self.set_view_state(back_to);
        match process {
            Some(pid) => {
                self.status = TASK_CANCELLED.to_owned();
                Effect::Kill { pid }
            },
            None => Effect::Nothing,
        }
    }

    /// Leaves the progress screen for the one it was reached from, once the
    /// command has ended.
    pub fn close_progress(&mut self)
        requires
            old(self).wf(),
        ensures
            final(self)@ == old(self)@.close_progress(),
            final(self).wf(),
    {
        if self.session != SessionStatus::Running {
            self.session = SessionStatus::Idle;
            self.set_view_state(self.script_last_view_state);
        }
    }

    /// Moves the cursor of the package list one entry down.
    pub fn package_down(&mut self)
        requires
            old(self).wf(),
        ensures
            final(self)@ == old(self)@.package_down(),
            final(self).wf(),
    {
        if self.package_list.len() > 0 {
            self.package_cursor = move_down(self.package_cursor, self.package_list.len());
        }
    }

    /// Moves the cursor of the package list one entry up.
    pub fn package_up(&mut self)
        requires
            old(self).wf(),
        ensures
            final(self)@ == old(self)@.package_up(),
            final(self).wf(),
    {
        if self.package_list.len() > 0 {
            self.package_cursor = move_up(self.package_cursor, self.package_list.len());
        }
    }

    /// Scrolls the output up by `by` lines, as far as its start.
    pub fn scroll_up(&mut self, by: usize)
        requires
            old(self).wf(),
        ensures
            final(self)@ == old(self)@.scroll_up(by),
            final(self).wf(),
    {
        self.scroll_position = self.scroll_position.saturating_sub(by);
    }

    /// Scrolls the output down by `by` lines.
    pub fn scroll_down(&mut self, by: usize)
        requires
            old(self).wf(),
        ensures
            final(self)@ == old(self)@.scroll_down(by),
            final(self).wf(),
    {
        self.scroll_position = self.scroll_position.saturating_add(by);
    }

    /// Whether some package is selected.
    pub fn any_selected(&self) -> (any: bool)
        ensures
            any == any_set(self@.selected_packages),
    {
        let mut i: usize = 0;
        while i < self.selected_packages.len()
            invariant
                i <= self.selected_packages.len(),
                forall|k: int| 0 <= k < i ==> !self.selected_packages@[k],
            decreases self.selected_packages.len() - i,
        {
            if self.selected_packages[i] {
                return true;
            }
            i += 1;
        }
        false
    }

    /// A key on the main menu: `q` leaves, the arrows move the cursor, Enter
    /// does what the entry under it stands for.
    pub fn on_main_menu_key(&mut self, key: Key, os_name: &Option<String>) -> (effect: Effect)
        requires
            old(self).wf(),
        ensures
            step(final(self)@, effect@) == old(self)@.on_main_menu_key(
                key,
                optional_text(*os_name),
            ),
            final(self).wf(),
    {
        match key {
            Key::Char(c) => if c == 'q' {
                Effect::Quit
            } else {
                Effect::Nothing
            },
            Key::Up => {
                self.previous();
                Effect::Nothing
            },
            Key::Down => {
                self.next();
                Effect::Nothing
            },
            Key::Enter => self.run_selected_action(os_name),
            _ => Effect::Nothing,
        }
    }

    /// A key on the package list: `q` leaves, the arrows move the cursor,
    /// the space bar flips the selection under it, Enter installs what is
    /// selected (or acts as the space bar where nothing is), Esc goes back
    /// to the main menu.
    pub fn on_package_list_key(&mut self, key: Key) -> (effect: Effect)
        requires
            old(self).wf(),
        ensures
            step(final(self)@, effect@) == old(self)@.on_package_list_key(key),
            final(self).wf(),
    {
        match key {
            Key::Char(c) => if c == 'q' {
                Effect::Quit
            } else if c == ' ' {
                self.toggle_package();
                Effect::Nothing
            } else {
                Effect::Nothing
            },
            Key::Up => {
                self.package_up();
                Effect::Nothing
            },
            Key::Down => {
                self.package_down();
                Effect::Nothing
            },
            Key::Enter => if self.any_selected() {
                self.start_package_installation()
            } else {
                self.toggle_package();
                Effect::Nothing
            },
            Key::Esc => {
                self.set_view_state(ViewState::MainMenu);
                Effect::Nothing
            },
            _ => Effect::Nothing,
        }
    }

    /// A key on the screen for free input: a character is added to the
    /// input, Backspace removes the last one, Enter installs the packages
    /// named, Esc goes back to the package list.
    pub fn on_custom_input_key(&mut self, key: Key, os_name: &Option<String>) -> (effect: Effect)
        requires
            old(self).wf(),
        ensures
            step(final(self)@, effect@) == old(self)@.on_custom_input_key(
                key,
                optional_text(*os_name),
            ),
            final(self).wf(),
    {
        match key {
            Key::Char(c) => {
                push_char(&mut self.custom_package_input, c);
                Effect::Nothing
            },
            Key::Backspace => {
                let _ = pop_char(&mut self.custom_package_input);
                Effect::Nothing
            },
            Key::Enter => self.run_selected_action(os_name),
            Key::Esc => {
                self.set_view_state(ViewState::PackageList);
                Effect::Nothing
            },
            _ => Effect::Nothing,
        }
    }

    /// A key on the progress screen: Enter leaves it once the command has
    /// ended, Esc cancels the command and leaves it, the arrows and the page
    /// keys scroll the output.
    pub fn on_progress_key(&mut self, key: Key) -> (effect: Effect)
        requires
            old(self).wf(),
        ensures
            step(final(self)@, effect@) == old(self)@.on_progress_key(key),
            final(self).wf(),
    {
        match key {
            Key::Enter => {
                self.close_progress();
                Effect::Nothing
            },
            Key::Esc => self.cancel(self.script_last_view_state),
            Key::Up => {
                self.scroll_up(1);
                Effect::Nothing
            },
            Key::Down => {
                self.scroll_down(1);
                Effect::Nothing
            },
            Key::PageUp => {
                self.scroll_up(10);
                Effect::Nothing
            },
            Key::PageDown => {
                self.scroll_down(10);
                Effect::Nothing
            },
            _ => Effect::Nothing,
        }
    }

    /// A key on the list of installation kinds: `q` leaves, the arrows move
    /// the cursor, Enter asks whether to install the kind under it, Esc goes
    /// back to the main menu.
    pub fn on_installation_type_key(&mut self, key: Key, os_name: &Option<String>) -> (effect:
        Effect)
        requires
            old(self).wf(),
        ensures
            step(final(self)@, effect@) == old(self)@.on_installation_type_key(
                key,
                optional_text(*os_name),
            ),
            final(self).wf(),
    {
        match key {
            Key::Char(c) => if c == 'q' {
                Effect::Quit
            } else {
                Effect::Nothing
            },
            Key::Up => {
                self.installation_type = move_up(self.installation_type, INSTALLATION_TYPES.len());
                Effect::Nothing
            },
            Key::Down => {
                self.installation_type = move_down(
                    self.installation_type,
                    INSTALLATION_TYPES.len(),
                );
                Effect::Nothing
            },
            Key::Enter => self.run_selected_action(os_name),
            Key::Esc => {
                self.set_view_state(ViewState::MainMenu);
                Effect::Nothing
            },
            _ => Effect::Nothing,
        }
    }

    /// A key while the check for updates runs: Esc cancels it and goes back
    /// to the main menu; no other key does anything.
    pub fn on_update_check_key(&mut self, key: Key) -> (effect: Effect)
        requires
            old(self).wf(),
        ensures
            step(final(self)@, effect@) == old(self)@.on_update_check_key(key),
            final(self).wf(),
    {
        match key {
            Key::Esc => self.cancel(ViewState::MainMenu),
            _ => Effect::Nothing,
        }
    }

    /// A key on the list of clean-up kinds: `q` leaves, the arrows move the
    /// cursor, Enter asks whether to clean in the way under it, Esc goes
    /// back to the main menu.
    pub fn on_uninstall_type_key(&mut self, key: Key, os_name: &Option<String>) -> (effect: Effect)
        requires
            old(self).wf(),
        ensures
            step(final(self)@, effect@) == old(self)@.on_uninstall_type_key(
                key,
                optional_text(*os_name),
            ),
            final(self).wf(),
    {
        match key {
            Key::Char(c) => if c == 'q' {
                Effect::Quit
            } else {
                Effect::Nothing
            },
            Key::Up => {
                self.uninstall_type = move_up(self.uninstall_type, UNINSTALL_TYPES.len());
                Effect::Nothing
            },
            Key::Down => {
                self.uninstall_type = move_down(self.uninstall_type, UNINSTALL_TYPES.len());
                Effect::Nothing
            },
            Key::Enter => self.run_selected_action(os_name),
            Key::Esc => {
                self.set_view_state(ViewState::MainMenu);
                Effect::Nothing
            },
            _ => Effect::Nothing,
        }
    }

    /// A key while the overlay shows something: Enter and Esc both dismiss
    /// an error or a message; Enter accepts a question and does what it
    /// stands for, Esc dismisses it and does nothing; no other key does
    /// anything.
    pub fn on_modal_key(&mut self, key: Key) -> (effect: Effect)
        requires
            old(self).wf(),
        ensures
            step(final(self)@, effect@) == old(self)@.on_modal_key(key),
            final(self).wf(),
    {
        let accept = match key {
            Key::Enter => true,
            _ => false,
        };
        let dismiss = match key {
            Key::Esc => true,
            _ => false,
        };
        if !accept && !dismiss {
            return Effect::Nothing;
        }
        let mut shown = Modal::Hidden;
        std::mem::swap(&mut self.modal, &mut shown);
        match shown {
            Modal::Confirmation(_, action) => if accept {
                self.run_deferred(action)
            } else {
                Effect::Nothing
            },
            _ => Effect::Nothing,
        }
    }

    /// Takes a key. While the overlay shows something the key goes to it
    /// alone; otherwise it goes to the screen that is shown. The effect
    /// handed back is for the caller to perform.
    pub fn on_key(&mut self, key: Key, host: &HostInfo) -> (effect: Effect)
        requires
            old(self).wf(),
        ensures
            step(final(self)@, effect@) == old(self)@.on_key(key, optional_text(host.os_name)),
            final(self).wf(),
    {
        let overlay = match &self.modal {
            Modal::Hidden => false,
            _ => true,
        };
        if overlay {
            return self.on_modal_key(key);
        }
        match self.view_state {
            ViewState::MainMenu => self.on_main_menu_key(key, &host.os_name),
            ViewState::PackageList => self.on_package_list_key(key),
            ViewState::CustomPackageInput => self.on_custom_input_key(key, &host.os_name),
            ViewState::ScriptProgress => self.on_progress_key(key),
            ViewState::InstallationType => self.on_installation_type_key(key, &host.os_name),
            ViewState::UpdateCheck => self.on_update_check_key(key),
            ViewState::UninstallType => self.on_uninstall_type_key(key, &host.os_name),
        }
    }

    /// The screen that is shown.
    pub fn view_state(&self) -> (view_state: ViewState)
        ensures
            view_state == self@.view_state,
    {
        self.view_state
    }

    /// The status line.
    pub fn status(&self) -> (status: &str)
        ensures
            status@ == self@.status,
    {
        self.status.as_str()
    }

    /// What the overlay shows.
    pub fn modal(&self) -> (modal: &Modal)
        ensures
            modal@ == self@.modal,
    {
        &self.modal
    }

    /// The entry of the main menu under the cursor.
    pub fn menu_selected(&self) -> (selected: Option<usize>)
        ensures
            selected == self@.menu,
    {
        self.menu
    }

    /// The package list: the entry for free input, then the packages offered.
    pub fn package_list(&self) -> (list: &Vec<String>)
        ensures
            texts(list@) == self@.package_list,
    {
        &self.package_list
    }

    /// The entry of the package list under the cursor.
    pub fn package_selected(&self) -> (selected: Option<usize>)
        ensures
            selected == self@.package_cursor,
    {
        self.package_cursor
    }

    /// For each entry of the package list, whether it is selected.
    pub fn selected_packages(&self) -> (flags: &Vec<bool>)
        ensures
            flags@ == self@.selected_packages,
    {
        &self.selected_packages
    }

    /// The names typed on the screen for free input.
    pub fn custom_package_input(&self) -> (input: &str)
        ensures
            input@ == self@.custom_package_input,
    {
        self.custom_package_input.as_str()
    }

    /// Where the command session stands.
    pub fn session(&self) -> (session: SessionStatus)
        ensures
            session == self@.session,
    {
        self.session
    }

    /// The process of the running command, once it is known.
    pub fn script_process(&self) -> (process: Option<u32>)
        ensures
            process == self@.script_process,
    {
        self.script_process
    }

    /// The lines the command has written so far.
    pub fn script_output(&self) -> (output: &Vec<String>)
        ensures
            texts(output@) == self@.script_output,
    {
        &self.script_output
    }

    /// The screen from which the command was launched.
    pub fn script_last_view_state(&self) -> (view_state: ViewState)
        ensures
            view_state == self@.script_last_view_state,
    {
        self.script_last_view_state
    }

    /// The kind of installation under the cursor.
    pub fn installation_type_selected(&self) -> (selected: Option<usize>)
        ensures
            selected == self@.installation_type,
    {
        self.installation_type
    }

    /// The kind of clean-up under the cursor.
    pub fn uninstall_type_selected(&self) -> (selected: Option<usize>)
        ensures
            selected == self@.uninstall_type,
    {
        self.uninstall_type
    }

    /// How far the output is scrolled.
    pub fn scroll_position(&self) -> (position: usize)
        ensures
            position == self@.scroll_position,
    {
        self.scroll_position
    }

    /// Whether the terminal is to be cleared before the next drawing; the
    /// request is taken back by asking.
    pub fn take_terminal_clear(&mut self) -> (clear: bool)
        requires
            old(self).wf(),
        ensures
            clear == old(self)@.terminal_clear,
            final(self)@ == old(self)@.cleared(),
            final(self).wf(),
    {
        let clear = self.terminal_clear;
        self.terminal_clear = false;
        clear
    }
}

} // verus!
