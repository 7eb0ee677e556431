//! What holds of the interface whatever is done with it.

use crate::cursor::{after_down, after_up};
use crate::messages::{
    INSTALLATION_TYPES, MENU_ITEMS, NO_PACKAGES_SELECTED, START_FAILED, UNINSTALL_TYPES,
    UPDATE_FOUND_HEAD, UPDATE_FOUND_TAIL, UP_TO_DATE,
};
use crate::model::{
    chosen_upto, installed_version, joined_trimmed, quiet, AppView, CommandEvent,
    DeferredActionView, EffectView, Key, ModalView, SessionStatus, ViewState,
};
use crate::text::{
    has_clean_ends, is_blank, lemma_blank_has_no_words, lemma_clean_text_is_its_own_trim,
    lemma_trimmed_has_clean_ends,
};
use vstd::prelude::*;

verus! {

/// Asking for a launch takes a state the interface can be in to another such state.
pub proof fn lemma_launch_keeps_well_formed(
    s: AppView,
    program: Seq<char>,
    args: Seq<Seq<char>>,
    action: DeferredActionView,
)
    requires
        s.wf(),
    ensures
        s.run_command(program, args).state.wf(),
        s.run_command_progress(program, args).state.wf(),
        s.check_updates().state.wf(),
        s.run_deferred(action).state.wf(),
        s.run_installation_script().state.wf(),
{
}

/// Enter takes a state the interface can be in to another such state.
pub proof fn lemma_selected_action_keeps_well_formed(s: AppView, os_name: Option<Seq<char>>)
    requires
        s.wf(),
    ensures
        s.run_selected_action(os_name).state.wf(),
{
    match s.view_state {
        ViewState::MainMenu => {},
        ViewState::PackageList => {
            assert(s.install_selected_packages().state.wf());
        },
        ViewState::CustomPackageInput => {
            assert(s.install_custom_packages().state.wf());
        },
        ViewState::ScriptProgress => {},
        ViewState::InstallationType => {
            assert(s.run_installation_script().state.wf());
            assert(s.handle_installation_type().wf());
        },
        ViewState::UpdateCheck => {},
        ViewState::UninstallType => {
            assert(s.handle_uninstall_type().wf());
        },
    }
}

/// A key takes a state the interface can be in to another such state.
pub proof fn lemma_key_keeps_well_formed(s: AppView, key: Key, os_name: Option<Seq<char>>)
    requires
        s.wf(),
    ensures
        s.on_key(key, os_name).state.wf(),
{
    lemma_selected_action_keeps_well_formed(s, os_name);
    if !(s.modal is Hidden) {
        assert(s.on_modal_key(key).state.wf()) by {
            if let ModalView::Confirmation(_, action) = s.modal {
                lemma_launch_keeps_well_formed(
                    s.hide_confirmation(),
                    Seq::empty(),
                    Seq::empty(),
                    action,
                );
            }
        }
    } else {
        match s.view_state {
            ViewState::MainMenu => {
                assert(s.on_main_menu_key(key, os_name).state.wf());
            },
            ViewState::PackageList => {
                assert(s.start_package_installation().state.wf());
                assert(s.toggle_package().wf());
                assert(s.on_package_list_key(key).state.wf());
            },
            ViewState::CustomPackageInput => {
                assert(s.on_custom_input_key(key, os_name).state.wf());
            },
            ViewState::ScriptProgress => {
                assert(s.on_progress_key(key).state.wf());
            },
            ViewState::InstallationType => {
                assert(s.on_installation_type_key(key, os_name).state.wf());
            },
            ViewState::UpdateCheck => {
                assert(s.on_update_check_key(key).state.wf());
            },
            ViewState::UninstallType => {
                assert(s.on_uninstall_type_key(key, os_name).state.wf());
            },
        }
    }
}

/// The reports of a command take a state the interface can be in to another such state.
pub proof fn lemma_events_keep_well_formed(s: AppView, events: Seq<CommandEvent>)
    requires
        s.wf(),
    ensures
        s.apply_events(events).wf(),
    decreases events.len(),
{
    if events.len() > 0 {
        lemma_events_keep_well_formed(s, events.drop_last());
    }
}

/// A tick takes a state the interface can be in to another such state.
pub proof fn lemma_tick_keeps_well_formed(
    s: AppView,
    events: Seq<CommandEvent>,
    os_version: Option<Seq<char>>,
)
    requires
        s.wf(),
    ensures
        s.tick(events, os_version).wf(),
{
    lemma_events_keep_well_formed(s, events);
}

/// The interface starts in a state it can be in, and loading the package
/// list or learning the process of a command takes such a state to another.
pub proof fn lemma_other_steps_keep_well_formed(s: AppView, text: Option<Seq<char>>, pid: u32)
    requires
        s.wf(),
    ensures
        AppView::initial().wf(),
        s.load_packages(text).wf(),
        s.process_started(pid).wf(),
        s.cleared().wf(),
{
}

/// While a command is running no request launches another: each leaves the
/// state as it is and asks for nothing.
pub proof fn lemma_launch_is_refused_while_running(
    s: AppView,
    program: Seq<char>,
    args: Seq<Seq<char>>,
    action: DeferredActionView,
)
    requires
        s.running(),
    ensures
        s.run_command(program, args) == quiet(s),
        s.run_command_progress(program, args) == quiet(s),
        s.check_updates() == quiet(s),
        s.run_deferred(action) == quiet(s),
        s.run_installation_script() == quiet(s),
        !(s.install_selected_packages().effect is Launch),
        !(s.start_package_installation().effect is Launch),
        !(s.install_custom_packages().effect is Launch),
{
}

/// While a command is running no key launches another.
pub proof fn lemma_no_key_launches_while_running(s: AppView, key: Key, os_name: Option<Seq<char>>)
    requires
        s.running(),
    ensures
        !(s.on_key(key, os_name).effect is Launch),
{
}

/// A key that launches a command does so from a state in which none is
/// running, and leaves one running whose process is not yet known.
pub proof fn lemma_launch_starts_the_session(s: AppView, key: Key, os_name: Option<Seq<char>>)
    requires
        s.on_key(key, os_name).effect is Launch,
    ensures
        !s.running(),
        s.on_key(key, os_name).state.running(),
        s.on_key(key, os_name).state.script_process is None,
{
}

/// With the cursor on the first entry of the package list, toggling flips
/// no selection and shows the screen for free input.
pub proof fn lemma_first_entry_is_not_toggled(s: AppView)
    requires
        s.package_cursor == Some(0usize),
    ensures
        s.toggle_package().selected_packages == s.selected_packages,
        s.toggle_package().view_state == ViewState::CustomPackageInput,
        s.modal is Hidden && s.view_state == ViewState::PackageList ==> s.on_key(
            Key::Char(' '),
            None,
        ) == quiet(s.toggle_package()),
{
}

/// Toggling never selects the first entry of the package list.
pub proof fn lemma_toggle_leaves_first_entry(s: AppView)
    requires
        s.wf(),
        s.package_list.len() > 0,
    ensures
        !s.toggle_package().selected_packages[0],
{
}

/// Submitting a free input that is blank launches nothing and leaves the
/// screen, the session and the input as they are.
pub proof fn lemma_blank_input_launches_nothing(s: AppView, os_name: Option<Seq<char>>)
    requires
        is_blank(s.custom_package_input),
    ensures
        s.install_custom_packages().effect is Nothing,
        s.install_custom_packages().state.view_state == s.view_state,
        s.install_custom_packages().state.session == s.session,
        s.install_custom_packages().state.custom_package_input == s.custom_package_input,
        s.modal is Hidden && s.view_state == ViewState::CustomPackageInput ==> s.on_key(
            Key::Enter,
            os_name,
        ) == s.install_custom_packages(),
{
    lemma_blank_has_no_words(s.custom_package_input);
}

/// Esc on the progress screen or during the update check ends the session:
/// no process is remembered, none is taken as running, and the process that
/// ran is the one to be killed.
pub proof fn lemma_cancel_forgets_the_process(s: AppView, os_name: Option<Seq<char>>)
    requires
        s.modal is Hidden,
        s.view_state == ViewState::ScriptProgress || s.view_state == ViewState::UpdateCheck,
    ensures
        s.on_key(Key::Esc, os_name).state.script_process is None,
        s.on_key(Key::Esc, os_name).state.session == SessionStatus::Idle,
        s.on_key(Key::Esc, os_name).effect == match s.script_process {
            Some(pid) => EffectView::Kill { pid },
            None => EffectView::Nothing,
        },
{
}

/// Reports that end with a failure to start leave the error for it in the
/// overlay, no process and no running session; the next launch is accepted.
pub proof fn lemma_start_failure_clears_the_session(
    s: AppView,
    events: Seq<CommandEvent>,
    error: Seq<char>,
    program: Seq<char>,
    args: Seq<Seq<char>>,
)
    requires
        s.running(),
        events.len() > 0,
        events.last() == CommandEvent::StartError(error),
    ensures
        s.update_script_progress(events).modal == ModalView::Error(START_FAILED@ + error),
        s.update_script_progress(events).session == SessionStatus::StartFailed,
        s.update_script_progress(events).script_process is None,
        s.update_script_progress(events).run_command(program, args).effect is Launch,
{
}

/// While the overlay shows something, a key other than Enter and Esc
/// changes nothing, Esc never launches, and an error or a message is
/// dismissed by Enter and by Esc alike.
pub proof fn lemma_overlay_takes_every_key(s: AppView, key: Key, os_name: Option<Seq<char>>)
    requires
        !(s.modal is Hidden),
    ensures
        !(key is Enter) && !(key is Esc) ==> s.on_key(key, os_name) == quiet(s),
        s.on_key(Key::Esc, os_name).effect is Nothing,
        s.on_key(Key::Esc, os_name).state.modal is Hidden,
        s.on_key(Key::Enter, os_name).state.modal is Hidden,
        !(s.modal is Confirmation) ==> s.on_key(Key::Enter, os_name) == s.on_key(
            Key::Esc,
            os_name,
        ),
{
}

/// Reports that come while no command is running change nothing.
pub proof fn lemma_reports_outside_a_session_are_dropped(s: AppView, events: Seq<CommandEvent>)
    requires
        !s.running(),
    ensures
        s.update_script_progress(events) == s,
{
}

/// An accepted confirmation is carried out whole or not at all: either a
/// command is launched and its progress shown, or nothing changes.
pub proof fn lemma_confirmation_is_all_or_nothing(s: AppView, action: DeferredActionView)
    ensures
        s.run_deferred(action) == quiet(s) || (s.run_deferred(action).effect is Launch
            && s.run_deferred(action).state.running() && s.run_deferred(action).state.view_state
            == ViewState::ScriptProgress),
        s.running() <==> s.run_deferred(action) == quiet(s),
{
}

/// A session starts running only by a key that launches a command; reports
/// and ticks never start one.
pub proof fn lemma_session_runs_only_after_a_launch(
    s: AppView,
    key: Key,
    os_name: Option<Seq<char>>,
    events: Seq<CommandEvent>,
    os_version: Option<Seq<char>>,
)
    requires
        !s.running(),
    ensures
        s.on_key(key, os_name).state.running() ==> s.on_key(key, os_name).effect is Launch,
        !s.update_script_progress(events).running(),
        !s.tick(events, os_version).running(),
{
}

/// A known process belongs to a running session, whatever keys and ticks came before.
pub proof fn lemma_process_belongs_to_a_running_session(s: AppView)
    requires
        s.wf(),
        s.script_process is Some,
    ensures
        s.running(),
{
}

/// With nothing in the overlay, `q` leaves from the main menu and from the
/// three lists, and from no other screen; leaving changes nothing.
pub proof fn lemma_quit_is_honoured_on_the_lists_only(s: AppView, os_name: Option<Seq<char>>)
    requires
        s.modal is Hidden,
    ensures
        s.on_key(Key::Char('q'), os_name).effect is Quit <==> (s.view_state == ViewState::MainMenu
            || s.view_state == ViewState::PackageList || s.view_state
            == ViewState::InstallationType || s.view_state == ViewState::UninstallType),
        s.on_key(Key::Char('q'), os_name).effect is Quit ==> s.on_key(
            Key::Char('q'),
            os_name,
        ).state == s,
        s.view_state == ViewState::CustomPackageInput ==> s.on_key(
            Key::Char('q'),
            os_name,
        ).state.custom_package_input == s.custom_package_input.push('q'),
{
}

/// Lines that are all blank name no version.
pub proof fn lemma_blank_lines_name_no_version(lines: Seq<Seq<char>>)
    requires
        forall|i: int| 0 <= i < lines.len() ==> is_blank(#[trigger] lines[i]),
    ensures
        joined_trimmed(lines).len() == 0,
    decreases lines.len(),
{
    if lines.len() > 0 {
        assert forall|i: int| 0 <= i < lines.drop_last().len() implies is_blank(
            #[trigger] lines.drop_last()[i],
        ) by {
            assert(lines.drop_last()[i] == lines[i]);
        }
        lemma_blank_lines_name_no_version(lines.drop_last());
        lemma_trimmed_has_clean_ends(lines.last());
    }
}

/// An update check that wrote nothing, or blank lines alone, finds the
/// system up to date; the screen it started on is shown again and the
/// session is over.
pub proof fn lemma_update_check_with_blank_output(s: AppView, os_version: Option<Seq<char>>)
    requires
        forall|i: int| 0 <= i < s.script_output.len() ==> is_blank(#[trigger] s.script_output[i]),
        !(s.modal is Error),
    ensures
        s.conclude_update_check(os_version).modal == ModalView::Info(UP_TO_DATE@),
        s.conclude_update_check(os_version).view_state == s.script_last_view_state,
        s.conclude_update_check(os_version).session == SessionStatus::Idle,
{
    lemma_blank_lines_name_no_version(s.script_output);
}

/// An update check that wrote one line with no white space at its ends
/// names that line as the version: it asks whether to update to it where the
/// system has another version, and finds the system up to date where it has
/// this one.
pub proof fn lemma_update_check_with_one_line(
    s: AppView,
    line: Seq<char>,
    os_version: Option<Seq<char>>,
)
    requires
        s.script_output == seq![line],
        line.len() > 0,
        has_clean_ends(line),
        !(s.modal is Error),
    ensures
        s.candidate_version() == line,
        line != installed_version(os_version) ==> s.conclude_update_check(os_version).modal
            == ModalView::Confirmation(
            UPDATE_FOUND_HEAD@ + line + UPDATE_FOUND_TAIL@,
            DeferredActionView::RunUpdate(line),
        ),
        line == installed_version(os_version) ==> s.conclude_update_check(os_version).modal
            == ModalView::Info(UP_TO_DATE@),
{
    lemma_clean_text_is_its_own_trim(line);
    assert(seq![line].drop_last() =~= Seq::<Seq<char>>::empty());
    assert(joined_trimmed(seq![line].drop_last()) =~= Seq::<char>::empty());
    assert(joined_trimmed(seq![line]) =~= line);
}

/// What an update check finds: a question that carries the version named,
/// where one is named that the system does not have; otherwise the message
/// that the system is up to date.
pub proof fn lemma_update_check_outcome(s: AppView, os_version: Option<Seq<char>>)
    requires
        !(s.modal is Error),
    ensures
        ({
            let found = s.candidate_version();
            let after = s.conclude_update_check(os_version);
            if found.len() > 0 && found != installed_version(os_version) {
                after.modal == ModalView::Confirmation(
                    UPDATE_FOUND_HEAD@ + found + UPDATE_FOUND_TAIL@,
                    DeferredActionView::RunUpdate(found),
                )
            } else {
                after.modal == ModalView::Info(UP_TO_DATE@)
            }
        }),
{
}

/// Where no entry after the first is selected, no package is chosen.
pub proof fn lemma_nothing_selected_chooses_nothing(
    list: Seq<Seq<char>>,
    flags: Seq<bool>,
    n: nat,
)
    requires
        n <= flags.len(),
        forall|i: int| 1 <= i < flags.len() ==> !flags[i],
    ensures
        chosen_upto(list, flags, n).len() == 0,
    decreases n,
{
    if n > 1 {
        lemma_nothing_selected_chooses_nothing(list, flags, (n - 1) as nat);
    }
}

/// Asking for the installation of a selection that is empty launches
/// nothing: the overlay shows the error for it, which Enter or Esc
/// dismisses, and the screen, the lists, the status line and the session
/// stay as they are.
pub proof fn lemma_empty_selection_is_an_error(s: AppView, os_name: Option<Seq<char>>)
    requires
        s.wf(),
        forall|i: int| 1 <= i < s.selected_packages.len() ==> !s.selected_packages[i],
    ensures
        s.start_package_installation() == quiet(s.set_error(NO_PACKAGES_SELECTED@)),
        s.install_selected_packages() == quiet(s.set_error(NO_PACKAGES_SELECTED@)),
        s.set_error(NO_PACKAGES_SELECTED@) == (AppView {
            modal: ModalView::Error(NO_PACKAGES_SELECTED@),
            ..s
        }),
        s.set_error(NO_PACKAGES_SELECTED@).on_key(Key::Enter, os_name) == quiet(
            AppView { modal: ModalView::Hidden, ..s },
        ),
        s.set_error(NO_PACKAGES_SELECTED@).on_key(Key::Esc, os_name) == quiet(
            AppView { modal: ModalView::Hidden, ..s },
        ),
{
    lemma_nothing_selected_chooses_nothing(
        s.package_list,
        s.selected_packages,
        s.package_list.len(),
    );
}

/// The state after the package under `at` has been toggled.
pub open spec fn toggled(s: AppView, at: usize) -> AppView {
    AppView { package_cursor: Some(at), ..s }.toggle_package()
}

/// The order in which packages are selected does not show in what is
/// installed: the same selection is reached either way, and with it the same
/// launch.
pub proof fn lemma_selection_order_does_not_matter(s: AppView, first: usize, second: usize)
    requires
        s.wf(),
        1 <= first < s.package_list.len(),
        1 <= second < s.package_list.len(),
        first != second,
    ensures
        toggled(toggled(s, first), second).selected_packages == toggled(
            toggled(s, second),
            first,
        ).selected_packages,
        toggled(toggled(s, first), second).start_package_installation().effect == toggled(
            toggled(s, second),
            first,
        ).start_package_installation().effect,
{
    assert(toggled(toggled(s, first), second).selected_packages =~= toggled(
        toggled(s, second),
        first,
    ).selected_packages);
}

/// On each screen with a list, the arrow keys move that list's cursor by
/// one entry and wrap it at the ends; they move nothing else.
pub proof fn lemma_arrows_move_the_cursor(s: AppView, os_name: Option<Seq<char>>)
    requires
        s.modal is Hidden,
    ensures
        s.view_state == ViewState::MainMenu ==> s.on_key(Key::Down, os_name) == quiet(
            AppView { menu: after_down(s.menu, MENU_ITEMS@.len()), ..s },
        ) && s.on_key(Key::Up, os_name) == quiet(
            AppView { menu: after_up(s.menu, MENU_ITEMS@.len()), ..s },
        ),
        s.view_state == ViewState::PackageList && s.package_list.len() > 0 ==> s.on_key(
            Key::Down,
            os_name,
        ) == quiet(
            AppView { package_cursor: after_down(s.package_cursor, s.package_list.len()), ..s },
        ) && s.on_key(Key::Up, os_name) == quiet(
            AppView { package_cursor: after_up(s.package_cursor, s.package_list.len()), ..s },
        ),
        s.view_state == ViewState::InstallationType ==> s.on_key(Key::Down, os_name) == quiet(
            AppView {
                installation_type: after_down(s.installation_type, INSTALLATION_TYPES@.len()),
                ..s
            },
        ) && s.on_key(Key::Up, os_name) == quiet(
            AppView {
                installation_type: after_up(s.installation_type, INSTALLATION_TYPES@.len()),
                ..s
            },
        ),
        s.view_state == ViewState::UninstallType ==> s.on_key(Key::Down, os_name) == quiet(
            AppView { uninstall_type: after_down(s.uninstall_type, UNINSTALL_TYPES@.len()), ..s },
        ) && s.on_key(Key::Up, os_name) == quiet(
            AppView { uninstall_type: after_up(s.uninstall_type, UNINSTALL_TYPES@.len()), ..s },
        ),
{
}

/// A command that runs is on show: the screen is its progress or the check
/// for updates.
pub open spec fn session_on_show(s: AppView) -> bool {
    s.running() ==> s.view_state == ViewState::ScriptProgress || s.view_state
        == ViewState::UpdateCheck
}

/// Keys and ticks keep a running command on show.
pub proof fn lemma_running_command_stays_on_show(
    s: AppView,
    key: Key,
    os_name: Option<Seq<char>>,
    events: Seq<CommandEvent>,
    os_version: Option<Seq<char>>,
)
    requires
        session_on_show(s),
    ensures
        session_on_show(s.on_key(key, os_name).state),
        session_on_show(s.tick(events, os_version)),
{
    lemma_events_keep_the_screen(s, events);
}

/// No command runs at the start, and what happens between keys and ticks
/// keeps a running command on show: learning its process does, and so does
/// loading the package list, which is asked for on the main menu alone.
pub proof fn lemma_other_steps_keep_command_on_show(
    s: AppView,
    text: Option<Seq<char>>,
    pid: u32,
    key: Key,
    os_name: Option<Seq<char>>,
)
    requires
        session_on_show(s),
    ensures
        session_on_show(AppView::initial()),
        session_on_show(s.process_started(pid)),
        s.on_key(key, os_name).effect is ReadPackageCatalog ==> session_on_show(
            s.on_key(key, os_name).state.load_packages(text),
        ),
{
}

/// Reports change neither the screen nor the cursors nor the package list.
pub proof fn lemma_events_keep_the_screen(s: AppView, events: Seq<CommandEvent>)
    ensures
        s.apply_events(events).view_state == s.view_state,
        s.apply_events(events).script_last_view_state == s.script_last_view_state,
        s.apply_events(events).menu == s.menu,
        s.apply_events(events).package_list == s.package_list,
        s.apply_events(events).selected_packages == s.selected_packages,
        s.apply_events(events).package_cursor == s.package_cursor,
        s.apply_events(events).custom_package_input == s.custom_package_input,
    decreases events.len(),
{
    if events.len() > 0 {
        lemma_events_keep_the_screen(s, events.drop_last());
    }
}

/// While a command runs and is on show, no key leaves the program and none
/// asks for the package file: the only way out is to cancel.
pub proof fn lemma_no_key_quits_while_running(s: AppView, key: Key, os_name: Option<Seq<char>>)
    requires
        s.running(),
        session_on_show(s),
    ensures
        s.on_key(key, os_name).effect is Nothing || s.on_key(key, os_name).effect is Kill,
        s.on_key(key, os_name).effect is Kill ==> key is Esc && s.modal is Hidden,
{
}

} // verus!
