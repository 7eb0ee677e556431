//! The catalog of interface texts, in Russian and in English.

use crate::text::{chars_of, fill_placeholders, replace_placeholders};
use vstd::prelude::*;

verus! {

/// A language the interface can speak.
#[derive(Clone, Copy, PartialEq, Eq, Debug, Structural)]
pub enum Language {
    Russian,
    English,
}

/// One text of the catalog: its key, the Russian text, the English text.
pub type Entry = (&'static str, &'static str, &'static str);

/// The texts the interface shows, by key.
pub const CATALOG: [Entry; 62] = [
    (
        "app_title",
        "Система Коршун - Инструменты управления",
        "Kite Linux - Management Tools",
    ),
    (
        "menu",
        "Меню",
        "Menu",
    ),
    (
        "status",
        "Статус",
        "Status",
    ),
    (
        "package_list_title",
        "Выбор пакетов для установки",
        "Select packages to install",
    ),
    (
        "available_packages",
        "Доступные пакеты",
        "Available packages",
    ),
    (
        "menu_install",
        "Установка системы",
        "System Installation",
    ),
    (
        "menu_update",
        "Обновление системы",
        "System Update",
    ),
    (
        "menu_uninstall",
        "Очистка системы",
        "System Uninstall",
    ),
    (
        "menu_install_package",
        "Установка пакетов",
        "Install Packages",
    ),
    (
        "welcome_menu_status",
        "Добро пожаловать в инструменты управления Коршун",
        "Welcome to Kite Tools",
    ),
    (
        "select_installation_type",
        "Выбор типа установки",
        "Select installation type",
    ),
    (
        "available_installation_types",
        "Доступные варианты",
        "Available options",
    ),
    (
        "installation_types_stable",
        "Стабильная сборка",
        "Stable",
    ),
    (
        "installation_types_developer",
        "Сборка разработчика",
        "Developer",
    ),
    (
        "installation_types_experimental",
        "Экспериментальная сборка",
        "Experimental",
    ),
    (
        "installation_types_description_stable",
        "Стабильная сборка системы, рекомендуется для повседневного использования",
        "Stable",
    ),
    (
        "installation_types_description_developer",
        "Система с предустановленным инструментарием разработчика, включает дополнительные инструменты для разработки",
        "Developer",
    ),
    (
        "installation_types_description_experimental",
        "Экспериментальная версия с новейшими изменениями, может содержать нестабильные компоненты",
        "Experimental",
    ),
    (
        "select_uninstall_type",
        "Выбор типа очистки",
        "Select uninstall type",
    ),
    (
        "uninstall_types_config",
        "Очистка конфигураций",
        "Clear Configurations",
    ),
    (
        "uninstall_types_apps",
        "Очистка программ",
        "Clear Applications",
    ),
    (
        "uninstall_types_full",
        "Полная очистка системы",
        "Full System Clear",
    ),
    (
        "uninstall_types_description_config",
        "Удаление пользовательских настроек и конфигурационных файлов",
        "Clear Configurations",
    ),
    (
        "uninstall_types_description_apps",
        "Удаление установленных программ, сохраняя пользовательские данные",
        "Clear Applications",
    ),
    (
        "uninstall_types_description_full",
        "Полное удаление системы, включая все данные и настройки",
        "Full System Clear",
    ),
    (
        "update_check_title",
        "Проверка обновлений",
        "Update Check",
    ),
    (
        "available_updates",
        "Доступные обновления",
        "Available Updates",
    ),
    (
        "script_progress_title",
        "Установка пакетов",
        "Package Installation",
    ),
    (
        "script_output",
        "Вывод",
        "Output",
    ),
    (
        "instructions_custom_package_input",
        "Введите названия пакетов через пробел",
        "Enter package names separated by spaces",
    ),
    (
        "warning_installation",
        "Вы уверены, что хотите установить версию {}?\nВсе данные на диске будут удалены!",
        "Are you sure you want to install version {}?\nAll data on the disk will be deleted!",
    ),
    (
        "warning_uninstall_config",
        "Вы уверены, что хотите удалить все пользовательские настройки?",
        "Are you sure you want to uninstall all user configurations?",
    ),
    (
        "warning_uninstall_apps",
        "Вы уверены, что хотите удалить все установленные программы?",
        "Are you sure you want to uninstall all installed applications?",
    ),
    (
        "warning_uninstall_full",
        "ВНИМАНИЕ! Вы уверены, что хотите полностью удалить систему?\nВсе данные будут безвозвратно удалены!",
        "Are you sure you want to uninstall the entire system?\nAll data will be permanently deleted!",
    ),
    (
        "confirm_uninstall",
        "Подтвердите удаление",
        "Confirm uninstall",
    ),
    (
        "warning_update_found",
        "Найдена новая версия {}!\nВы действительно хотите обновить систему?",
        "New version {} found!\nAre you sure you want to update the system?",
    ),
    (
        "version_up_to_date",
        "Версия системы актуальна",
        "System version is up to date",
    ),
    (
        "command_success",
        "Программа завершилась успешно",
        "Command completed successfully",
    ),
    (
        "command_error",
        "Программа завершилась с ошибкой",
        "Command failed",
    ),
    (
        "command_error_start",
        "Ошибка запуска: {}",
        "Command failed: {}",
    ),
    (
        "command_error_process",
        "Ошибка выполнения: {}",
        "Command failed: {}",
    ),
    (
        "system_already_installed",
        "Система уже установлена",
        "System already installed",
    ),
    (
        "system_not_detected",
        "Не удалось определить операционную систему",
        "System not detected",
    ),
    (
        "update_not_supported",
        "Обновление не поддерживается для данной операционной системы: {}",
        "Update not supported for this operating system: {}",
    ),
    (
        "package_error_status",
        "Не указаны пакеты для установки",
        "No packages specified for installation",
    ),
    (
        "custom_packages",
        "[ Установить свои пакеты ]",
        "[ Install Custom Packages ]",
    ),
    (
        "main_menu_navigation_hints",
        "↑/↓: Навигация | Enter: Выбрать | q: Выход | F2: Переключение языка",
        "↑/↓: Navigation | Enter: Select | q: Exit | F2: Language Switch",
    ),
    (
        "package_list_navigation_hints",
        "↑/↓: Навигация | Пробел: Выбрать | Enter: Подтвердить установку | Esc: Назад | q: Выход",
        "↑/↓: Navigation | Space: Select | Enter: Confirm Installation | Esc: Back | q: Exit",
    ),
    (
        "custom_package_input_navigation_hints",
        "Enter: Установить | Esc: Назад",
        "Enter: Install | Esc: Back",
    ),
    (
        "script_running_hints",
        "Выполняется программа... | Esc: Отмена",
        "Script is running... | Esc: Cancel",
    ),
    (
        "script_finished_hints",
        "Программа завершена | Enter: Закрыть | Esc: Вернуться",
        "Script finished | Enter: Close | Esc: Back",
    ),
    (
        "installation_type_navigation_hints",
        "↑/↓: Навигация | Enter: Выбрать | q: Выход",
        "↑/↓: Navigation | Enter: Select | q: Exit",
    ),
    (
        "update_check_hints",
        "Проверка обновлений... | Esc: Отмена",
        "Update check... | Esc: Cancel",
    ),
    (
        "uninstall_type_navigation_hints",
        "↑/↓: Навигация | Enter: Выбрать | q: Выход",
        "↑/↓: Navigation | Enter: Select | q: Exit",
    ),
    (
        "uninstall_confirmation",
        "{}\n\nEnter - Подтвердить\nEsc - Отменить",
        "{}\n\nEnter - Confirm\nEsc - Cancel",
    ),
    (
        "uninstall_error_message",
        "{}\n\nНажмите Enter для продолжения",
        "{}\n\nPress Enter to continue",
    ),
    (
        "uninstall_info_message",
        "{}\n\nНажмите Enter для продолжения",
        "{}\n\nPress Enter to continue",
    ),
    (
        "package_input_title",
        "Ввод пакетов",
        "Package Input",
    ),
    (
        "confirmation",
        "Подтверждение",
        "Confirmation",
    ),
    (
        "error",
        "Ошибка",
        "Error",
    ),
    (
        "info",
        "Информация",
        "Info",
    ),
    (
        "task_cancelled",
        "Задача отменена",
        "Task Cancelled",
    ),
];

/// The map a list of entries stands for: an entry replaces an earlier one
/// with the same key.
pub open spec fn catalog_map(entries: Seq<Entry>) -> Map<Seq<char>, (Seq<char>, Seq<char>)>
    decreases entries.len(),
{
    if entries.len() == 0 {
        Map::empty()
    } else {
        catalog_map(entries.drop_last()).insert(
            entries.last().0@,
            (entries.last().1@, entries.last().2@),
        )
    }
}

/// The text under `key` in `lang`, or `key` itself where the map has none.
pub open spec fn localized(
    texts: Map<Seq<char>, (Seq<char>, Seq<char>)>,
    key: Seq<char>,
    lang: Language,
) -> Seq<char> {
    if texts.dom().contains(key) {
        match lang {
            Language::Russian => texts[key].0,
            Language::English => texts[key].1,
        }
    } else {
        key
    }
}

/// A catalog of texts, each in both languages, found by key.
pub struct Localization {
    entries: Vec<Entry>,
}

impl View for Localization {
    type V = Map<Seq<char>, (Seq<char>, Seq<char>)>;

    closed spec fn view(&self) -> Self::V {
        catalog_map(self.entries@)
    }
}

fn same_chars(a: &Vec<char>, b: &Vec<char>) -> (same: bool)
    ensures
        same == (a@ == b@),
{
    if a.len() != b.len() {
        return false;
    }
    let mut i: usize = 0;
    while i < a.len()
        invariant
            i <= a.len() == b.len(),
            forall|k: int| 0 <= k < i ==> a@[k] == b@[k],
        decreases a.len() - i,
    {
        if a[i] != b[i] {
            return false;
        }
        i += 1;
    }
    assert(a@ =~= b@);
    true
}

impl Localization {
    /// The catalog with every text of [`CATALOG`].
    pub fn new() -> (catalog: Self)
        ensures
            catalog@ == catalog_map(CATALOG@),
    {
        let mut entries: Vec<Entry> = Vec::new();
        let mut i: usize = 0;
        while i < CATALOG.len()
            invariant
                i <= CATALOG@.len(),
                entries@ == CATALOG@.take(i as int),
            decreases CATALOG@.len() - i,
        {
            entries.push(CATALOG[i]);
            assert(CATALOG@.take(i + 1) == CATALOG@.take(i as int).push(CATALOG@[i as int]));
            i += 1;
        }
        assert(CATALOG@.take(CATALOG@.len() as int) == CATALOG@);
        Localization { entries }
    }

    /// The text under `key` in `lang`; `key` itself where the catalog has no such key.
    pub fn get(&self, key: &str, lang: Language) -> (text: String)
        ensures
            text@ == localized(self@, key@, lang),
    {
        let wanted = chars_of(key);
        let mut i: usize = self.entries.len();
        assert(self.entries@.take(i as int) == self.entries@);
        while i > 0
            invariant
                i <= self.entries.len(),
                wanted@ == key@,
                localized(self@, key@, lang) == localized(
                    catalog_map(self.entries@.take(i as int)),
                    key@,
                    lang,
                ),
            decreases i,
        {
            let entry = self.entries[i - 1];
            let ghost upto = self.entries@.take(i as int);
            assert(upto.drop_last() == self.entries@.take(i - 1));
            assert(upto.last() == entry);
            let found = chars_of(entry.0);
            if same_chars(&found, &wanted) {
                let chosen = match lang {
                    Language::Russian => entry.1,
                    Language::English => entry.2,
                };
                return chosen.to_owned();
            }
            i -= 1;
        }
        key.to_owned()
    }

    /// The text under `key` in `lang` with each `{}` in it replaced by `arg`.
    pub fn get_fmt(&self, key: &str, lang: Language, arg: &str) -> (text: String)
        ensures
            text@ == fill_placeholders(localized(self@, key@, lang), arg@),
    {
        let pattern = self.get(key, lang);
        replace_placeholders(pattern.as_str(), arg)
    }
}

} // verus!
