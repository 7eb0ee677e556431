//! The texts a screen shows, for the program around the library to draw.

use crate::app::{App, Modal};
use crate::messages::{
    CONFIRMATION_KEYS, DISMISS_KEYS, HINTS_CUSTOM_INPUT, HINTS_FINISHED, HINTS_MAIN_MENU,
    HINTS_PACKAGE_LIST, HINTS_RUNNING, HINTS_TYPE_LIST, HINTS_UPDATE_CHECK, MARK_SELECTED,
    MARK_UNSELECTED, TITLE_CONFIRMATION, TITLE_CUSTOM_INPUT, TITLE_ERROR, TITLE_INFO,
    TITLE_INSTALLATION_TYPE, TITLE_MAIN_MENU, TITLE_PACKAGE_LIST, TITLE_PROGRESS,
    TITLE_UNINSTALL_TYPE, TITLE_UPDATE_CHECK,
};
use crate::model::{AppView, ModalView, SessionStatus, ViewState};
use crate::text::{append, joined, lemma_texts_push, optional_text, push_char, texts};
use vstd::prelude::*;

verus! {

/// The title of a screen.
pub open spec fn title_of(view_state: ViewState) -> Seq<char> {
    match view_state {
        ViewState::MainMenu => TITLE_MAIN_MENU@,
        ViewState::PackageList => TITLE_PACKAGE_LIST@,
        ViewState::CustomPackageInput => TITLE_CUSTOM_INPUT@,
        ViewState::ScriptProgress => TITLE_PROGRESS@,
        ViewState::InstallationType => TITLE_INSTALLATION_TYPE@,
        ViewState::UpdateCheck => TITLE_UPDATE_CHECK@,
        ViewState::UninstallType => TITLE_UNINSTALL_TYPE@,
    }
}

/// The title of a screen.
pub fn title(view_state: ViewState) -> (text: &'static str)
    ensures
        text@ == title_of(view_state),
{
    match view_state {
        ViewState::MainMenu => TITLE_MAIN_MENU,
        ViewState::PackageList => TITLE_PACKAGE_LIST,
        ViewState::CustomPackageInput => TITLE_CUSTOM_INPUT,
        ViewState::ScriptProgress => TITLE_PROGRESS,
        ViewState::InstallationType => TITLE_INSTALLATION_TYPE,
        ViewState::UpdateCheck => TITLE_UPDATE_CHECK,
        ViewState::UninstallType => TITLE_UNINSTALL_TYPE,
    }
}

/// The hints under a screen. The main menu and the two lists of kinds show
/// none while a question is asked; the progress screen tells a running
/// command from one that has ended.
pub open spec fn hints_of(s: AppView) -> Option<Seq<char>> {
    match s.view_state {
        ViewState::MainMenu => if s.modal is Confirmation {
            None
        } else {
            Some(HINTS_MAIN_MENU@)
        },
        ViewState::PackageList => Some(HINTS_PACKAGE_LIST@),
        ViewState::CustomPackageInput => Some(HINTS_CUSTOM_INPUT@),
        ViewState::ScriptProgress => if s.session == SessionStatus::Running {
            Some(HINTS_RUNNING@)
        } else {
            Some(HINTS_FINISHED@)
        },
        ViewState::InstallationType | ViewState::UninstallType => if s.modal is Confirmation {
            None
        } else {
            Some(HINTS_TYPE_LIST@)
        },
        ViewState::UpdateCheck => Some(HINTS_UPDATE_CHECK@),
    }
}

/// The view of an optional text.
pub open spec fn optional_str(s: Option<&'static str>) -> Option<Seq<char>> {
    match s {
        Some(t) => Some(t@),
        None => None,
    }
}

/// The hints under the screen that is shown, if it shows any.
pub fn hints(app: &App) -> (text: Option<&'static str>)
    ensures
        optional_str(text) == hints_of(app@),
{
    let asking = match app.modal() {
        Modal::Confirmation(_, _) => true,
        _ => false,
    };
    match app.view_state() {
        ViewState::MainMenu => if asking {
            None
        } else {
            Some(HINTS_MAIN_MENU)
        },
        ViewState::PackageList => Some(HINTS_PACKAGE_LIST),
        ViewState::CustomPackageInput => Some(HINTS_CUSTOM_INPUT),
        ViewState::ScriptProgress => if app.session() == SessionStatus::Running {
            Some(HINTS_RUNNING)
        } else {
            Some(HINTS_FINISHED)
        },
        ViewState::InstallationType | ViewState::UninstallType => if asking {
            None
        } else {
            Some(HINTS_TYPE_LIST)
        },
        ViewState::UpdateCheck => Some(HINTS_UPDATE_CHECK),
    }
}

/// How an entry of the package list is shown: the first entry as it is,
/// every other after the mark of its selection.
pub open spec fn package_label(name: Seq<char>, index: int, selected: bool) -> Seq<char> {
    if index == 0 {
        name
    } else if selected {
        MARK_SELECTED@ + name
    } else {
        MARK_UNSELECTED@ + name
    }
}

/// How the package list is shown, entry by entry.
pub open spec fn package_labels_of(s: AppView) -> Seq<Seq<char>> {
    Seq::new(
        s.package_list.len(),
        |i: int| package_label(s.package_list[i], i, s.selected_packages[i]),
    )
}

/// How the package list is shown, entry by entry.
pub fn package_labels(app: &App) -> (labels: Vec<String>)
    requires
        app.wf(),
    ensures
        texts(labels@) == package_labels_of(app@),
{
    let list = app.package_list();
    let flags = app.selected_packages();
    let mut labels: Vec<String> = Vec::new();
    let mut i: usize = 0;
    while i < list.len()
        invariant
            i <= list.len() == flags.len(),
            texts(list@) == app@.package_list,
            flags@ == app@.selected_packages,
            texts(labels@).len() == i,
            forall|k: int|
                0 <= k < i ==> #[trigger] texts(labels@)[k] == package_label(
                    app@.package_list[k],
                    k,
                    app@.selected_packages[k],
                ),
        decreases list.len() - i,
    {
        let label = if i == 0 {
            list[i].clone()
        } else if flags[i] {
            joined(MARK_SELECTED, list[i].as_str())
        } else {
            joined(MARK_UNSELECTED, list[i].as_str())
        };
        assert(texts(list@)[i as int] == list@[i as int]@);
        proof {
            lemma_texts_push(labels@, label);
        }
        labels.push(label);
        i += 1;
    }
    assert(texts(labels@) =~= package_labels_of(app@));
    labels
}

/// The last `rows` of `lines`, or all of them where they are fewer.
pub open spec fn last_lines(lines: Seq<Seq<char>>, rows: nat) -> Seq<Seq<char>> {
    if rows >= lines.len() {
        lines
    } else {
        lines.skip(lines.len() - rows)
    }
}

/// The lines one after another, a line feed between each two.
pub open spec fn joined_lines(lines: Seq<Seq<char>>) -> Seq<char>
    decreases lines.len(),
{
    if lines.len() == 0 {
        Seq::empty()
    } else if lines.len() == 1 {
        lines[0]
    } else {
        joined_lines(lines.drop_last()) + seq!['\n'] + lines.last()
    }
}

/// The end of the command's output that fits into `rows` rows, as one text.
pub fn visible_output(app: &App, rows: usize) -> (shown: String)
    ensures
        shown@ == joined_lines(last_lines(app@.script_output, rows as nat)),
{
    let output = app.script_output();
    let n = output.len();
    let start: usize = if rows >= n {
        0
    } else {
        n - rows
    };
    let ghost all = texts(output@);
    let ghost tail = last_lines(all, rows as nat);
    assert(tail =~= all.skip(start as int));
    let mut shown = String::new();
    let mut i: usize = start;
    assert(tail.take(0) =~= Seq::empty());
    while i < n
        invariant
            start <= i <= n == output.len(),
            all == texts(output@),
            tail == all.skip(start as int),
            shown@ == joined_lines(tail.take(i - start)),
        decreases n - i,
    {
        let ghost upto = tail.take(i - start + 1);
        assert(upto.drop_last() == tail.take(i - start));
        assert(upto.last() == output@[i as int]@);
        if i > start {
            push_char(&mut shown, '\n');
        }
        append(&mut shown, output[i].as_str());
        assert(shown@ == joined_lines(upto)) by {
            if i == start {
                assert(joined_lines(tail.take(0)) == Seq::<char>::empty());
                assert(shown@ =~= upto[0]);
            } else {
                assert(shown@ =~= joined_lines(upto.drop_last()) + seq!['\n'] + upto.last());
            }
        }
        i += 1;
    }
    assert(tail.take(n - start) == tail);
    shown
}

/// The heading of what the overlay shows.
pub open spec fn modal_title_of(modal: ModalView) -> Option<Seq<char>> {
    match modal {
        ModalView::Hidden => None,
        ModalView::Error(_) => Some(TITLE_ERROR@),
        ModalView::Confirmation(_, _) => Some(TITLE_CONFIRMATION@),
        ModalView::Info(_) => Some(TITLE_INFO@),
    }
}

/// The text of what the overlay shows: the message, and under it the keys that answer it.
pub open spec fn modal_text_of(modal: ModalView) -> Option<Seq<char>> {
    match modal {
        ModalView::Hidden => None,
        ModalView::Error(text) => Some(text + DISMISS_KEYS@),
        ModalView::Confirmation(text, _) => Some(text + CONFIRMATION_KEYS@),
        ModalView::Info(text) => Some(text + DISMISS_KEYS@),
    }
}

/// The heading of what the overlay shows, if it shows anything.
pub fn modal_title(modal: &Modal) -> (title: Option<&'static str>)
    ensures
        optional_str(title) == modal_title_of(modal@),
{
    match modal {
        Modal::Hidden => None,
        Modal::Error(_) => Some(TITLE_ERROR),
        Modal::Confirmation(_, _) => Some(TITLE_CONFIRMATION),
        Modal::Info(_) => Some(TITLE_INFO),
    }
}

/// The text of what the overlay shows, if it shows anything.
pub fn modal_text(modal: &Modal) -> (text: Option<String>)
    ensures
        optional_text(text) == modal_text_of(modal@),
{
    match modal {
        Modal::Hidden => None,
        Modal::Error(text) => Some(joined(text.as_str(), DISMISS_KEYS)),
        Modal::Confirmation(text, _) => Some(joined(text.as_str(), CONFIRMATION_KEYS)),
        Modal::Info(text) => Some(joined(text.as_str(), DISMISS_KEYS)),
    }
}

} // verus!
