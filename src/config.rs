//! User settings: languages, optional relay key, interface locale; and the
//! tray menu's commands on them.
use vstd::prelude::*;

verus! {

/// The user's settings.
#[derive(Debug)]
pub struct Config {
    /// Source language tag, or "auto".
    pub from: String,
    /// Target language tag.
    pub to: String,
    /// Key for the relay backend; without one the keyless backend is used.
    pub api_key: Option<String>,
    /// BCP-47 language tag of the interface.
    pub local: String,
}

/// A choice made in the tray menu, by item id.
#[derive(Clone, Copy, Debug, PartialEq, Eq, Structural)]
pub enum MenuCommand {
    SourceAuto,
    SourceEnglish,
    SourceChinese,
    TargetEnglish,
    TargetChinese,
    OpenHomepage,
    Exit,
    Unknown,
}

/// The target language a fresh configuration gets on a system with `locale`.
pub open spec fn default_target(locale: Seq<char>) -> Seq<char> {
    if locale.len() >= 2 && locale[0] == 'z' && locale[1] == 'h' {
        "zh"@
    } else {
        "en"@
    }
}

/// The command a menu item id stands for.
pub open spec fn command_of(id: Seq<char>) -> MenuCommand {
    if id == "from.auto"@ {
        MenuCommand::SourceAuto
    } else if id == "from.english"@ {
        MenuCommand::SourceEnglish
    } else if id == "from.chinese"@ {
        MenuCommand::SourceChinese
    } else if id == "to.english"@ {
        MenuCommand::TargetEnglish
    } else if id == "to.chinese"@ {
        MenuCommand::TargetChinese
    } else if id == "about.github"@ {
        MenuCommand::OpenHomepage
    } else if id == "exit"@ {
        MenuCommand::Exit
    } else {
        MenuCommand::Unknown
    }
}

/// Whether `id` names the same item as the literal `item`.
fn is_item(id: &str, item: &str) -> (r: bool)
    ensures
        r == (id@ == item@),
{
    String::from_str(id) == String::from_str(item)
}

/// The command that the menu item `id` stands for.
pub fn menu_command(id: &str) -> (r: MenuCommand)
    ensures
        r == command_of(id@),
{
    if is_item(id, "from.auto") {
        MenuCommand::SourceAuto
    } else if is_item(id, "from.english") {
        MenuCommand::SourceEnglish
    } else if is_item(id, "from.chinese") {
        MenuCommand::SourceChinese
    } else if is_item(id, "to.english") {
        MenuCommand::TargetEnglish
    } else if is_item(id, "to.chinese") {
        MenuCommand::TargetChinese
    } else if is_item(id, "about.github") {
        MenuCommand::OpenHomepage
    } else if is_item(id, "exit") {
        MenuCommand::Exit
    } else {
        MenuCommand::Unknown
    }
}

impl Config {
    /// The configuration used when none is stored: detect the source
    /// language, translate into Chinese on a Chinese system and into English
    /// otherwise, no relay key.
    pub fn with_defaults(sys_locale: String) -> (r: Config)
        ensures
            r.from@ == "auto"@,
            r.to@ == default_target(sys_locale@),
            r.api_key is None,
            r.local == sys_locale,
    {
        let s = sys_locale.as_str();
        let len = s.unicode_len();
        let chinese = len >= 2 && s.get_char(0) == 'z' && s.get_char(1) == 'h';
        let to = if chinese {
            String::from_str("zh")
        } else {
            String::from_str("en")
        };
        Config { from: String::from_str("auto"), to, api_key: None, local: sys_locale }
    }

    /// Applies a menu command: the language choices change `from` or `to`;
    /// every other command leaves the settings as they are.
    pub fn apply_menu_command(&mut self, cmd: MenuCommand)
        ensures
            final(self).api_key == old(self).api_key,
            final(self).local == old(self).local,
            final(self).from@ == match cmd {
                MenuCommand::SourceAuto => "auto"@,
                MenuCommand::SourceEnglish => "en"@,
                MenuCommand::SourceChinese => "zh"@,
                _ => old(self).from@,
            },
            final(self).to@ == match cmd {
                MenuCommand::TargetEnglish => "en"@,
                MenuCommand::TargetChinese => "zh"@,
                _ => old(self).to@,
            },
    {
        match cmd {
            MenuCommand::SourceAuto => self.from = String::from_str("auto"),
            MenuCommand::SourceEnglish => self.from = String::from_str("en"),
            MenuCommand::SourceChinese => self.from = String::from_str("zh"),
            MenuCommand::TargetEnglish => self.to = String::from_str("en"),
            MenuCommand::TargetChinese => self.to = String::from_str("zh"),
            _ => {},
        }
    }
}

} // verus!
