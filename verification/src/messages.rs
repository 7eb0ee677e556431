//! The fixed texts, programs and options of the interface.

use vstd::prelude::*;

verus! {

/// The name under which the system reports itself once it is installed.
pub const OS_NAME: &'static str = "Kite Linux";

/// The version assumed for a system that reports none.
pub const UNKNOWN_VERSION: &'static str = "0.0.0";

/// The program that runs the maintenance scripts with the rights they need.
pub const SUDO: &'static str = "sudo";

/// The package manager.
pub const PACKAGE_MANAGER: &'static str = "yay";

/// The scripts that do the maintenance.
pub const INSTALL_SCRIPT: &'static str = "/usr/src/kite-tools/install.sh";

pub const UPDATE_SCRIPT: &'static str = "/usr/src/kite-tools/update.sh";

pub const CHECK_UPDATE_SCRIPT: &'static str = "/usr/src/kite-tools/check_update.sh";

pub const UNINSTALL_SCRIPT: &'static str = "/usr/src/kite-tools/uninstall.sh";

/// The file that lists the packages offered for installation.
pub const PACKAGE_LIST_PATH: &'static str = "/usr/src/kite-tools/custom_apps.lst";

/// The options handed to the scripts and to the package manager.
pub const FLAG_NO_CONFIRM: &'static str = "--no-confirm";

pub const FLAG_NO_INFO: &'static str = "--no-info";

pub const FLAG_VERSION: &'static str = "-v";

pub const FLAG_SYNC: &'static str = "-S";

pub const FLAG_NOCONFIRM: &'static str = "--noconfirm";

/// The entries of the main menu: what is shown, and what it stands for.
pub const MENU_ITEMS: [(&'static str, &'static str); 4] = [
    ("Установка системы", "install"),
    ("Обновление системы", "update"),
    ("Очистка системы", "uninstall"),
    ("Установка дополнительных пакетов", "install_package"),
];

/// The kinds of installation: the name shown, the argument handed to the
/// install script, and a description.
pub const INSTALLATION_TYPES: [(&'static str, &'static str, &'static str); 3] = [
    (
        "Stable",
        "stable",
        "Стабильная сборка системы, рекомендуется для повседневного использования",
    ),
    (
        "Development",
        "developer",
        "Система с предустановленным инструментарием разработчика, включает дополнительные инструменты для разработки",
    ),
    (
        "Experimental",
        "experimental",
        "Экспериментальная версия с новейшими изменениями, может содержать нестабильные компоненты",
    ),
];

/// The kinds of clean-up: the name shown, the argument handed to the
/// uninstall script, and a description.
pub const UNINSTALL_TYPES: [(&'static str, &'static str, &'static str); 3] = [
    (
        "Очистка конфигураций",
        "config",
        "Удаление пользовательских настроек и конфигурационных файлов",
    ),
    (
        "Очистка программ",
        "apps",
        "Удаление установленных программ, сохраняя пользовательские данные",
    ),
    ("Полная очистка системы", "full", "Полное удаление системы, включая все данные и настройки"),
];

/// The question asked before each kind of clean-up, in the order of [`UNINSTALL_TYPES`].
pub const UNINSTALL_WARNINGS: [&'static str; 3] = [
    "Вы уверены, что хотите удалить все пользовательские настройки?",
    "Вы уверены, что хотите удалить все установленные программы?",
    "ВНИМАНИЕ! Вы уверены, что хотите полностью удалить систему?\nВсе данные будут безвозвратно удалены!",
];

/// The first entry of the package list, which leads to free input of package names.
pub const CUSTOM_PACKAGES_ENTRY: &'static str = "[ Установить свои пакеты ]";

/// What the status line and the overlay say.
pub const WELCOME: &'static str = "Добро пожаловать в инструменты управления Коршун";

pub const NO_PACKAGES_GIVEN: &'static str = "Не указаны пакеты для установки";

pub const NO_PACKAGES_SELECTED: &'static str = "Не выбраны пакеты для установки";

pub const TASK_CANCELLED: &'static str = "Задача отменена";

pub const COMMAND_FAILED: &'static str = "Программа завершилась с ошибкой";

/// Stands before the system's words on why a program did not start.
pub const START_FAILED: &'static str = "Ошибка запуска: ";

/// Stands before the system's words on why waiting for a program failed.
pub const WAIT_FAILED: &'static str = "Ошибка выполнения: ";

pub const ALREADY_INSTALLED: &'static str = "Система уже установлена";

pub const OS_NOT_DETECTED: &'static str = "Не удалось определить операционную систему";

/// Stands before the name of a system that cannot be updated or cleaned.
pub const NOT_SUPPORTED: &'static str =
    "Обновление не поддерживается для данной операционной системы: ";

/// Stands before the kind of installation in the question asked before it.
pub const INSTALL_WARNING_HEAD: &'static str = "Вы уверены, что хотите установить версию ";

/// Stands after the kind of installation in the question asked before it.
pub const INSTALL_WARNING_TAIL: &'static str = "?\nВсе данные на диске будут удалены!";

/// Stands before the version in the question asked when an update is found.
pub const UPDATE_FOUND_HEAD: &'static str = "Найдена новая версия ";

/// Stands after the version in the question asked when an update is found.
pub const UPDATE_FOUND_TAIL: &'static str = "!\nВы действительно хотите обновить систему?";

pub const UP_TO_DATE: &'static str = "Версия системы актуальна";

/// The titles of the screens.
pub const TITLE_MAIN_MENU: &'static str = "Система Коршун - Инструменты управления";

pub const TITLE_PACKAGE_LIST: &'static str = "Выбор пакетов для установки";

pub const TITLE_CUSTOM_INPUT: &'static str = "Введите названия пакетов через пробел";

pub const TITLE_PROGRESS: &'static str = "Установка пакетов";

pub const TITLE_INSTALLATION_TYPE: &'static str = "Выбор типа установки";

pub const TITLE_UPDATE_CHECK: &'static str = "Проверка обновлений";

pub const TITLE_UNINSTALL_TYPE: &'static str = "Выбор типа очистки";

/// The hints under the screens.
pub const HINTS_MAIN_MENU: &'static str = "↑/↓: Навигация | Enter: Выбрать | q: Выход";

pub const HINTS_PACKAGE_LIST: &'static str =
    "↑/↓: Навигация | Пробел: Выбрать | Enter: Подтвердить установку | Esc: Назад | q: Выход";

pub const HINTS_CUSTOM_INPUT: &'static str = "Enter: Установить | Esc: Назад";

pub const HINTS_RUNNING: &'static str = "Выполняется программа... | Esc: Отмена";

pub const HINTS_FINISHED: &'static str = "Программа завершена | Enter: Закрыть | Esc: Вернуться";

pub const HINTS_TYPE_LIST: &'static str = "↑/↓: Навигация | Enter: Выбрать | Esc: Назад | q: Выход";

pub const HINTS_UPDATE_CHECK: &'static str = "Проверка обновлений... | Esc: Отмена";

/// Stands before the name of a package that is selected.
pub const MARK_SELECTED: &'static str = "[X] ";

/// Stands before the name of a package that is not selected.
pub const MARK_UNSELECTED: &'static str = "[ ] ";

/// The headings of the overlay.
pub const TITLE_CONFIRMATION: &'static str = "Подтверждение";

pub const TITLE_ERROR: &'static str = "Ошибка";

pub const TITLE_INFO: &'static str = "Информация";

/// Stands under a question in the overlay.
pub const CONFIRMATION_KEYS: &'static str = "\n\nEnter - Подтвердить\nEsc - Отменить";

/// Stands under an error or a message in the overlay.
pub const DISMISS_KEYS: &'static str = "\n\nНажмите Enter для продолжения";

} // verus!
