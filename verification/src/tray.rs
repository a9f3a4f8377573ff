//! The tray icon's menu: the transcription languages it offers, which of them
//! is ticked, and what a click on a menu item asks for.

use vstd::prelude::*;
use vstd::string::*;

use crate::text::{joined, same_text, strip_prefix};

verus! {

/// The languages of the tray's Language submenu, as (code, label) pairs, in
/// menu order. The codes are Whisper language codes; `auto` lets the model
/// detect the language.
pub open spec fn languages() -> Seq<(Seq<char>, Seq<char>)> {
    seq![
        ("auto"@, "Auto-detect"@),
        ("en"@, "English"@),
        ("he"@, "Hebrew"@),
        ("es"@, "Spanish"@),
        ("fr"@, "French"@),
        ("de"@, "German"@),
        ("ja"@, "Japanese"@),
        ("zh"@, "Chinese"@),
        ("pt"@, "Portuguese"@),
        ("ru"@, "Russian"@),
        ("ko"@, "Korean"@),
        ("ar"@, "Arabic"@),
        ("it"@, "Italian"@),
        ("nl"@, "Dutch"@),
        ("hi"@, "Hindi"@),
        ("tr"@, "Turkish"@),
        ("pl"@, "Polish"@),
        ("uk"@, "Ukrainian"@),
    ]
}

/// The number of languages in the menu.
pub const LANGUAGE_COUNT: usize = 18;

/// The code and label of the language at `i` in menu order.
pub fn language_at(i: usize) -> (entry: (&'static str, &'static str))
    requires
        i < LANGUAGE_COUNT,
    ensures
        (entry.0@, entry.1@) == languages()[i as int],
{
    match i {
        0 => ("auto", "Auto-detect"),
        1 => ("en", "English"),
        2 => ("he", "Hebrew"),
        3 => ("es", "Spanish"),
        4 => ("fr", "French"),
        5 => ("de", "German"),
        6 => ("ja", "Japanese"),
        7 => ("zh", "Chinese"),
        8 => ("pt", "Portuguese"),
        9 => ("ru", "Russian"),
        10 => ("ko", "Korean"),
        11 => ("ar", "Arabic"),
        12 => ("it", "Italian"),
        13 => ("nl", "Dutch"),
        14 => ("hi", "Hindi"),
        15 => ("tr", "Turkish"),
        16 => ("pl", "Polish"),
        _ => ("uk", "Ukrainian"),
    }
}

/// The menu item id of a language: `lang_` followed by its code.
pub open spec fn language_item_id(code: Seq<char>) -> Seq<char> {
    "lang_"@ + code
}

/// A check item of the Language submenu.
#[derive(Debug, PartialEq, Eq)]
pub struct LanguageMenuItem {
    pub id: String,
    pub label: String,
    pub checked: bool,
}

/// The Language submenu for the current language `current_lang`: one item
/// per language, in menu order, ticked exactly when its code is the current
/// language.
pub fn language_menu_items(current_lang: &str) -> (items: Vec<LanguageMenuItem>)
    ensures
        items.len() == languages().len(),
        forall|i: int|
            0 <= i < items.len() ==> {
                &&& (#[trigger] items[i]).id@ == language_item_id(languages()[i].0)
                &&& items[i].label@ == languages()[i].1
                &&& items[i].checked == (languages()[i].0 == current_lang@)
            },
{
    let mut items: Vec<LanguageMenuItem> = Vec::new();
    let mut i: usize = 0;
    while i < LANGUAGE_COUNT
        invariant
            i <= LANGUAGE_COUNT,
            items.len() == i,
            forall|j: int|
                0 <= j < i ==> {
                    &&& (#[trigger] items[j]).id@ == language_item_id(languages()[j].0)
                    &&& items[j].label@ == languages()[j].1
                    &&& items[j].checked == (languages()[j].0 == current_lang@)
                },
        decreases LANGUAGE_COUNT - i,
    {
        let (code, label) = language_at(i);
        items.push(
            LanguageMenuItem {
                id: joined("lang_", code),
                label: String::from_str(label),
                checked: same_text(code, current_lang),
            },
        );
        i = i + 1;
    }
    items
}

/// What a click on a tray menu item asks for.
#[derive(Debug, PartialEq, Eq)]
pub enum TrayCommand {
    /// Switch the transcription language to the given code.
    SelectLanguage(String),
    /// Show and focus the settings window.
    OpenSettings,
    /// Quit the application.
    Quit,
    /// Nothing.
    Ignore,
}

pub enum TrayCommandView {
    SelectLanguage(Seq<char>),
    OpenSettings,
    Quit,
    Ignore,
}

impl View for TrayCommand {
    type V = TrayCommandView;

    open spec fn view(&self) -> TrayCommandView {
        match self {
            TrayCommand::SelectLanguage(code) => TrayCommandView::SelectLanguage(code@),
            TrayCommand::OpenSettings => TrayCommandView::OpenSettings,
            TrayCommand::Quit => TrayCommandView::Quit,
            TrayCommand::Ignore => TrayCommandView::Ignore,
        }
    }
}

/// The command of the menu item with id `id`: ids that start with `lang_`
/// select the language named by the rest, `settings` opens the settings and
/// `quit` quits.
pub open spec fn tray_command(id: Seq<char>) -> TrayCommandView {
    if "lang_"@.is_prefix_of(id) {
        TrayCommandView::SelectLanguage(id.skip("lang_"@.len() as int))
    } else if id == "settings"@ {
        TrayCommandView::OpenSettings
    } else if id == "quit"@ {
        TrayCommandView::Quit
    } else {
        TrayCommandView::Ignore
    }
}

/// The command of the menu item with id `id`, as `tray_command` gives it.
pub fn menu_command(id: &str) -> (c: TrayCommand)
    ensures
        c@ == tray_command(id@),
{
    match strip_prefix(id, "lang_") {
        Some(code) => TrayCommand::SelectLanguage(code),
        None => if same_text(id, "settings") {
            TrayCommand::OpenSettings
        } else if same_text(id, "quit") {
            TrayCommand::Quit
        } else {
            TrayCommand::Ignore
        },
    }
}

/// Makes `code` the current language. Returns whether that changed it: when
/// `code` already is the current language nothing further (saving the
/// setting, rebuilding the menu, announcing the change) is to be done.
pub fn change_language(current: &mut String, code: &str) -> (changed: bool)
    ensures
        changed == (old(current)@ != code@),
        final(current)@ == code@,
{
    if same_text(current.as_str(), code) {
        false
    } else {
        *current = String::from_str(code);
        true
    }
}

// ---------------------------------------------------------------------------
// Laws

/// A language item's id, clicked, selects exactly that item's language.
pub proof fn language_item_selects_its_language(code: Seq<char>)
    ensures
        tray_command(language_item_id(code)) == TrayCommandView::SelectLanguage(code),
{
    reveal_strlit("lang_");
    let id = language_item_id(code);
    assert("lang_"@ =~= id.subrange(0, 5));
    assert(id.skip(5) =~= code);
}

/// No two languages of the menu share a code.
proof fn language_codes_are_distinct()
    ensures
        forall|i: int, j: int|
            0 <= i < j < languages().len() ==> languages()[i].0 != languages()[j].0,
{
    reveal_strlit("auto");
    reveal_strlit("en");
    reveal_strlit("he");
    reveal_strlit("es");
    reveal_strlit("fr");
    reveal_strlit("de");
    reveal_strlit("ja");
    reveal_strlit("zh");
    reveal_strlit("pt");
    reveal_strlit("ru");
    reveal_strlit("ko");
    reveal_strlit("ar");
    reveal_strlit("it");
    reveal_strlit("nl");
    reveal_strlit("hi");
    reveal_strlit("tr");
    reveal_strlit("pl");
    reveal_strlit("uk");
    assert forall|i: int, j: int| 0 <= i < j < languages().len() implies languages()[i].0
        != languages()[j].0 by {
        let a = languages()[i].0;
        let b = languages()[j].0;
        assert(a.len() != b.len() || a[0] != b[0] || a[1] != b[1]);
    }
}

/// The menu ticks the current language: at most one item is ticked, and
/// exactly one when the current language is one of the menu's.
pub proof fn exactly_current_language_is_ticked(current: Seq<char>)
    ensures
        forall|i: int, j: int|
            0 <= i < j < languages().len() ==> !(languages()[i].0 == current && languages()[j].0
                == current),
        (exists|i: int| 0 <= i < languages().len() && languages()[i].0 == current) ==> exists|i: int|
            0 <= i < languages().len() && #[trigger] languages()[i].0 == current && forall|j: int|
                0 <= j < languages().len() && j != i ==> languages()[j].0 != current,
{
    language_codes_are_distinct();
    if exists|i: int| 0 <= i < languages().len() && languages()[i].0 == current {
        let i = choose|i: int| 0 <= i < languages().len() && languages()[i].0 == current;
        assert forall|j: int| 0 <= j < languages().len() && j != i implies languages()[j].0
            != current by {
            if j < i {
                assert(languages()[j].0 != languages()[i].0);
            } else {
                assert(languages()[i].0 != languages()[j].0);
            }
        }
    }
}

/// Every language in the menu carries the label of its own code (the item
/// `lang_de` reads German, `lang_fr` French, and so on), and the menu offers
/// all eighteen of them.
pub proof fn each_language_has_its_own_label(i: int)
    requires
        0 <= i < languages().len(),
    ensures
        languages().len() == 18,
        languages()[i].0 == "auto"@ ==> languages()[i].1 == "Auto-detect"@,
        languages()[i].0 == "en"@ ==> languages()[i].1 == "English"@,
        languages()[i].0 == "he"@ ==> languages()[i].1 == "Hebrew"@,
        languages()[i].0 == "es"@ ==> languages()[i].1 == "Spanish"@,
        languages()[i].0 == "fr"@ ==> languages()[i].1 == "French"@,
        languages()[i].0 == "de"@ ==> languages()[i].1 == "German"@,
        languages()[i].0 == "ja"@ ==> languages()[i].1 == "Japanese"@,
        languages()[i].0 == "zh"@ ==> languages()[i].1 == "Chinese"@,
        languages()[i].0 == "pt"@ ==> languages()[i].1 == "Portuguese"@,
        languages()[i].0 == "ru"@ ==> languages()[i].1 == "Russian"@,
        languages()[i].0 == "ko"@ ==> languages()[i].1 == "Korean"@,
        languages()[i].0 == "ar"@ ==> languages()[i].1 == "Arabic"@,
        languages()[i].0 == "it"@ ==> languages()[i].1 == "Italian"@,
        languages()[i].0 == "nl"@ ==> languages()[i].1 == "Dutch"@,
        languages()[i].0 == "hi"@ ==> languages()[i].1 == "Hindi"@,
        languages()[i].0 == "tr"@ ==> languages()[i].1 == "Turkish"@,
        languages()[i].0 == "pl"@ ==> languages()[i].1 == "Polish"@,
        languages()[i].0 == "uk"@ ==> languages()[i].1 == "Ukrainian"@,
{
    language_codes_are_distinct();
    assert(forall|j: int| 0 <= j < languages().len() && j != i ==> languages()[j].0 != languages()[i].0);
}

/// Menu item ids: a language's item is `lang_` followed by its code, and a
/// click on an id that starts with `lang_` selects the language named by the
/// rest; `settings` opens the settings, `quit` quits, and any other id does
/// nothing.
pub proof fn menu_ids_and_commands(code: Seq<char>, id: Seq<char>)
    ensures
        language_item_id(code) == "lang_"@ + code,
        tray_command("lang_"@ + code) == TrayCommandView::SelectLanguage(code),
        tray_command("settings"@) == TrayCommandView::OpenSettings,
        tray_command("quit"@) == TrayCommandView::Quit,
        !(id.len() >= 5 && id.subrange(0, 5) == "lang_"@) && id != "settings"@ && id != "quit"@
            ==> tray_command(id) == TrayCommandView::Ignore,
{
    reveal_strlit("lang_");
    reveal_strlit("settings");
    reveal_strlit("quit");
    let t = "lang_"@ + code;
    assert("lang_"@ =~= t.subrange(0, 5));
    assert(t.skip(5) =~= code);
    assert("settings"@[0] != "lang_"@[0]);
    assert("quit"@[0] != "lang_"@[0]);
    assert(!"lang_"@.is_prefix_of("settings"@)) by {
        assert("settings"@.subrange(0, 5)[0] != "lang_"@[0]);
    }
    assert(!"lang_"@.is_prefix_of("quit"@));
    if !(id.len() >= 5 && id.subrange(0, 5) == "lang_"@) {
        assert(!"lang_"@.is_prefix_of(id));
    }
}

} // verus!
