//! The game variants, their field-id tables, discovery of the executable and
//! the launch context built from it.
use vstd::prelude::*;
use vstd::string::StringExecFns;

verus! {

/// Companion-file size, in bytes, that separates the e-store build's small
/// loader from the large compatibility proxy.
pub const COMPANION_THRESHOLD: u64 = 1048576;

/// Number of candidate executables looked for.
pub const CANDIDATE_COUNT: usize = 11;

pub const FF7_USER_SAVE_DIR: u8 = 10;
pub const FF7_DOC_DIR: u8 = 11;
pub const FF7_INSTALL_DIR: u8 = 12;
pub const FF7_LOCALE_DATA_DIR: u8 = 13;
pub const FF7_GAME_VERSION: u8 = 18;
pub const FF7_DISABLE_CLOUD: u8 = 22;
pub const FF7_END_USER_INFO: u8 = 24;

pub const FF8_USER_SAVE_DIR: u8 = 9;
pub const FF8_DOC_DIR: u8 = 10;
pub const FF8_INSTALL_DIR: u8 = 11;
pub const FF8_LOCALE_DATA_DIR: u8 = 12;
pub const FF8_GAME_VERSION: u8 = 17;
pub const FF8_DISABLE_CLOUD: u8 = 21;
pub const FF8_BG_PAUSE_ENABLED: u8 = 23;
pub const FF8_END_USER_INFO: u8 = 24;

pub const ESTORE_USER_SAVE_DIR: u8 = 9;
pub const ESTORE_DOC_DIR: u8 = 10;
pub const ESTORE_INSTALL_DIR: u8 = 11;
pub const ESTORE_LOCALE_DATA_DIR: u8 = 12;
pub const ESTORE_GAME_VERSION: u8 = 17;
pub const ESTORE_END_USER_INFO: u8 = 20;

#[derive(Clone, Copy, Debug, PartialEq, Eq, Structural)]
pub enum StoreType {
    Standard,
    EStore,
}

#[derive(Clone, Copy, Debug, PartialEq, Eq, Structural)]
pub enum GameType {
    FF7(StoreType),
    FF8,
}

/// A configuration value that the launcher hands to the game.
#[derive(Clone, Copy, Debug, PartialEq, Eq, Structural)]
pub enum ConfigField {
    LocaleDataDir,
    UserSaveDir,
    DocDir,
    InstallDir,
    GameVersion,
    DisableCloud,
    BgPauseEnabled,
    EndUserInfo,
}

#[derive(Clone, Copy, Debug, PartialEq, Eq, Structural)]
pub enum Language {
    De,
    En,
    Es,
    Fr,
    It,
    Ja,
}

/// One candidate executable: its title and its language.
#[derive(Clone, Copy, Debug, PartialEq, Eq, Structural)]
pub struct Candidate {
    pub ff8: bool,
    pub lang: Language,
}

/// Why no single executable could be chosen.
#[derive(Clone, Copy, Debug, PartialEq, Eq, Structural)]
pub enum DiscoveryError {
    NoneFound,
    SeveralFound,
}

/// The field id of `field` for `game`, where that game takes the field.
pub open spec fn spec_field_id(game: GameType, field: ConfigField) -> Option<u8> {
    match game {
        GameType::FF7(StoreType::Standard) => match field {
            ConfigField::LocaleDataDir => Some(FF7_LOCALE_DATA_DIR),
            ConfigField::UserSaveDir => Some(FF7_USER_SAVE_DIR),
            ConfigField::DocDir => Some(FF7_DOC_DIR),
            ConfigField::InstallDir => Some(FF7_INSTALL_DIR),
            ConfigField::GameVersion => Some(FF7_GAME_VERSION),
            ConfigField::DisableCloud => Some(FF7_DISABLE_CLOUD),
            ConfigField::BgPauseEnabled => None,
            ConfigField::EndUserInfo => Some(FF7_END_USER_INFO),
        },
        GameType::FF7(StoreType::EStore) => match field {
            ConfigField::LocaleDataDir => Some(ESTORE_LOCALE_DATA_DIR),
            ConfigField::UserSaveDir => Some(ESTORE_USER_SAVE_DIR),
            ConfigField::DocDir => Some(ESTORE_DOC_DIR),
            ConfigField::InstallDir => Some(ESTORE_INSTALL_DIR),
            ConfigField::GameVersion => Some(ESTORE_GAME_VERSION),
            ConfigField::DisableCloud => None,
            ConfigField::BgPauseEnabled => None,
            ConfigField::EndUserInfo => Some(ESTORE_END_USER_INFO),
        },
        GameType::FF8 => match field {
            ConfigField::LocaleDataDir => Some(FF8_LOCALE_DATA_DIR),
            ConfigField::UserSaveDir => Some(FF8_USER_SAVE_DIR),
            ConfigField::DocDir => Some(FF8_DOC_DIR),
            ConfigField::InstallDir => Some(FF8_INSTALL_DIR),
            ConfigField::GameVersion => Some(FF8_GAME_VERSION),
            ConfigField::DisableCloud => Some(FF8_DISABLE_CLOUD),
            ConfigField::BgPauseEnabled => Some(FF8_BG_PAUSE_ENABLED),
            ConfigField::EndUserInfo => Some(FF8_END_USER_INFO),
        },
    }
}

/// Looks `field` up in the id table of `game`.
pub fn field_id(game: GameType, field: ConfigField) -> (r: Option<u8>)
    ensures
        r == spec_field_id(game, field),
{
    match game {
        GameType::FF7(StoreType::Standard) => match field {
            ConfigField::LocaleDataDir => Some(FF7_LOCALE_DATA_DIR),
            ConfigField::UserSaveDir => Some(FF7_USER_SAVE_DIR),
            ConfigField::DocDir => Some(FF7_DOC_DIR),
            ConfigField::InstallDir => Some(FF7_INSTALL_DIR),
            ConfigField::GameVersion => Some(FF7_GAME_VERSION),
            ConfigField::DisableCloud => Some(FF7_DISABLE_CLOUD),
            ConfigField::BgPauseEnabled => None,
            ConfigField::EndUserInfo => Some(FF7_END_USER_INFO),
        },
        GameType::FF7(StoreType::EStore) => match field {
            ConfigField::LocaleDataDir => Some(ESTORE_LOCALE_DATA_DIR),
            ConfigField::UserSaveDir => Some(ESTORE_USER_SAVE_DIR),
            ConfigField::DocDir => Some(ESTORE_DOC_DIR),
            ConfigField::InstallDir => Some(ESTORE_INSTALL_DIR),
            ConfigField::GameVersion => Some(ESTORE_GAME_VERSION),
            ConfigField::DisableCloud => None,
            ConfigField::BgPauseEnabled => None,
            ConfigField::EndUserInfo => Some(ESTORE_END_USER_INFO),
        },
        GameType::FF8 => match field {
            ConfigField::LocaleDataDir => Some(FF8_LOCALE_DATA_DIR),
            ConfigField::UserSaveDir => Some(FF8_USER_SAVE_DIR),
            ConfigField::DocDir => Some(FF8_DOC_DIR),
            ConfigField::InstallDir => Some(FF8_INSTALL_DIR),
            ConfigField::GameVersion => Some(FF8_GAME_VERSION),
            ConfigField::DisableCloud => Some(FF8_DISABLE_CLOUD),
            ConfigField::BgPauseEnabled => Some(FF8_BG_PAUSE_ENABLED),
            ConfigField::EndUserInfo => Some(FF8_END_USER_INFO),
        },
    }
}

/// Every field, in the order in which the game consumes them.
pub open spec fn field_order() -> Seq<ConfigField> {
    seq![
        ConfigField::LocaleDataDir,
        ConfigField::UserSaveDir,
        ConfigField::DocDir,
        ConfigField::InstallDir,
        ConfigField::GameVersion,
        ConfigField::DisableCloud,
        ConfigField::BgPauseEnabled,
        ConfigField::EndUserInfo,
    ]
}

/// Number of fields in `field_order()`.
pub const FIELD_COUNT: usize = 8;

/// Position of `f` in `field_order()`.
pub fn field_index(f: ConfigField) -> (r: usize)
    ensures
        r < FIELD_COUNT,
        FIELD_COUNT == field_order().len(),
        field_order()[r as int] == f,
{
    match f {
        ConfigField::LocaleDataDir => 0,
        ConfigField::UserSaveDir => 1,
        ConfigField::DocDir => 2,
        ConfigField::InstallDir => 3,
        ConfigField::GameVersion => 4,
        ConfigField::DisableCloud => 5,
        ConfigField::BgPauseEnabled => 6,
        ConfigField::EndUserInfo => 7,
    }
}

/// The fields of `s` that `game` takes, in the order of `s`.
pub open spec fn fields_taken(game: GameType, s: Seq<ConfigField>) -> Seq<ConfigField>
    decreases s.len(),
{
    if s.len() == 0 {
        Seq::empty()
    } else {
        let rest = fields_taken(game, s.drop_last());
        if spec_field_id(game, s.last()) is Some {
            rest.push(s.last())
        } else {
            rest
        }
    }
}

/// The fields sent to `game` during the handshake, in order.
pub fn handshake_fields(game: GameType) -> (r: Vec<ConfigField>)
    ensures
        r@ == fields_taken(game, field_order()),
{
    let order: Vec<ConfigField> = vec![
        ConfigField::LocaleDataDir,
        ConfigField::UserSaveDir,
        ConfigField::DocDir,
        ConfigField::InstallDir,
        ConfigField::GameVersion,
        ConfigField::DisableCloud,
        ConfigField::BgPauseEnabled,
        ConfigField::EndUserInfo,
    ];
    assert(order@ =~= field_order());
    let mut r: Vec<ConfigField> = Vec::new();
    let mut i: usize = 0;
    while i < order.len()
        invariant
            order@ == field_order(),
            i <= order@.len(),
            r@ == fields_taken(game, order@.take(i as int)),
        decreases order@.len() - i,
    {
        let f = order[i];
        assert(order@.take(i + 1).drop_last() =~= order@.take(i as int));
        if field_id(game, f).is_some() {
            r.push(f);
        }
        i = i + 1;
    }
    assert(order@.take(order@.len() as int) =~= order@);
    r
}

/// Title and language of candidate `i`, in the order in which they are
/// looked for.
pub open spec fn spec_candidate(i: int) -> Candidate {
    if i == 0 {
        Candidate { ff8: false, lang: Language::De }
    } else if i == 1 {
        Candidate { ff8: false, lang: Language::En }
    } else if i == 2 {
        Candidate { ff8: false, lang: Language::Es }
    } else if i == 3 {
        Candidate { ff8: false, lang: Language::Fr }
    } else if i == 4 {
        Candidate { ff8: false, lang: Language::Ja }
    } else if i == 5 {
        Candidate { ff8: true, lang: Language::De }
    } else if i == 6 {
        Candidate { ff8: true, lang: Language::En }
    } else if i == 7 {
        Candidate { ff8: true, lang: Language::Es }
    } else if i == 8 {
        Candidate { ff8: true, lang: Language::Fr }
    } else if i == 9 {
        Candidate { ff8: true, lang: Language::It }
    } else {
        Candidate { ff8: true, lang: Language::Ja }
    }
}

/// Candidate executable number `i`.
pub fn candidate(i: usize) -> (r: Candidate)
    requires
        i < CANDIDATE_COUNT,
    ensures
        r == spec_candidate(i as int),
{
    let ff8 = i >= 5;
    let lang = if i == 0 || i == 5 {
        Language::De
    } else if i == 1 || i == 6 {
        Language::En
    } else if i == 2 || i == 7 {
        Language::Es
    } else if i == 3 || i == 8 {
        Language::Fr
    } else if i == 9 {
        Language::It
    } else {
        Language::Ja
    };
    Candidate { ff8, lang }
}

pub open spec fn spec_lang_code(lang: Language) -> Seq<char> {
    match lang {
        Language::De => "de"@,
        Language::En => "en"@,
        Language::Es => "es"@,
        Language::Fr => "fr"@,
        Language::It => "it"@,
        Language::Ja => "ja"@,
    }
}

/// The two-letter code of `lang`, as it stands in the executable's name.
pub fn lang_code(lang: Language) -> (r: String)
    ensures
        r@ == spec_lang_code(lang),
{
    match lang {
        Language::De => String::from_str("de"),
        Language::En => String::from_str("en"),
        Language::Es => String::from_str("es"),
        Language::Fr => String::from_str("fr"),
        Language::It => String::from_str("it"),
        Language::Ja => String::from_str("ja"),
    }
}

pub open spec fn spec_candidate_file_name(c: Candidate) -> Seq<char> {
    (if c.ff8 {
        "ff8_"@
    } else {
        "ff7_"@
    }) + spec_lang_code(c.lang) + ".exe"@
}

/// File name of the executable `c`, such as `ff8_en.exe`.
pub fn candidate_file_name(c: Candidate) -> (r: String)
    ensures
        r@ == spec_candidate_file_name(c),
{
    let mut name = if c.ff8 {
        String::from_str("ff8_")
    } else {
        String::from_str("ff7_")
    };
    let code = lang_code(c.lang);
    name.append(code.as_str());
    name.append(".exe");
    name
}

/// How many entries of `s` are true.
pub open spec fn count_present(s: Seq<bool>) -> nat
    decreases s.len(),
{
    if s.len() == 0 {
        0
    } else {
        count_present(s.drop_last()) + if s.last() {
            1nat
        } else {
            0nat
        }
    }
}

/// Chooses the executable to start, given which candidates are present:
/// the one present, where exactly one is.
pub fn pick_executable(present: &Vec<bool>) -> (r: Result<usize, DiscoveryError>)
    ensures
        match r {
            Ok(i) => count_present(present@) == 1 && i < present@.len() && present@[i as int],
            Err(DiscoveryError::NoneFound) => count_present(present@) == 0,
            Err(DiscoveryError::SeveralFound) => count_present(present@) >= 2,
        },
{
    let mut count: usize = 0;
    let mut found: usize = 0;
    let mut i: usize = 0;
    while i < present.len()
        invariant
            i <= present@.len(),
            count == count_present(present@.take(i as int)),
            count <= i,
            count >= 1 ==> found < i && present@[found as int],
        decreases present@.len() - i,
    {
        assert(present@.take(i + 1).drop_last() =~= present@.take(i as int));
        if present[i] {
            if count == 0 {
                found = i;
            }
            count = count + 1;
        }
        i = i + 1;
    }
    assert(present@.take(present@.len() as int) =~= present@);
    if count == 0 {
        Err(DiscoveryError::NoneFound)
    } else if count > 1 {
        Err(DiscoveryError::SeveralFound)
    } else {
        Ok(found)
    }
}

/// The variant that candidate `c` runs, given the size of the companion file
/// where it is present: the e-store build is the Japanese VII with a small
/// companion file.
pub open spec fn spec_game_type(c: Candidate, companion_size: Option<u64>) -> GameType {
    if c.ff8 {
        GameType::FF8
    } else if c.lang == Language::Ja && companion_size is Some && companion_size->0
        < COMPANION_THRESHOLD {
        GameType::FF7(StoreType::EStore)
    } else {
        GameType::FF7(StoreType::Standard)
    }
}

/// Whether the companion file is the compatibility proxy: present and
/// at least as large as the threshold.
pub open spec fn spec_uses_proxy(companion_size: Option<u64>) -> bool {
    companion_size is Some && companion_size->0 >= COMPANION_THRESHOLD
}

pub fn game_type(c: Candidate, companion_size: Option<u64>) -> (r: GameType)
    ensures
        r == spec_game_type(c, companion_size),
{
    if c.ff8 {
        return GameType::FF8;
    }
    match (c.lang, companion_size) {
        (Language::Ja, Some(size)) if size < COMPANION_THRESHOLD => GameType::FF7(
            StoreType::EStore,
        ),
        _ => GameType::FF7(StoreType::Standard),
    }
}

pub fn uses_proxy(companion_size: Option<u64>) -> (r: bool)
    ensures
        r == spec_uses_proxy(companion_size),
{
    match companion_size {
        Some(size) => size >= COMPANION_THRESHOLD,
        None => false,
    }
}

/// For the Japanese VII with a companion file of any size, the file is
/// either the e-store loader or the compatibility proxy, never both and
/// never neither: sizes below the threshold are the loader, the threshold
/// and above the proxy.
pub proof fn lemma_companion_classified_once(c: Candidate, size: u64)
    requires
        !c.ff8,
        c.lang == Language::Ja,
    ensures
        spec_uses_proxy(Some(size)) == (size >= COMPANION_THRESHOLD),
        (spec_game_type(c, Some(size)) == GameType::FF7(StoreType::EStore)) == !spec_uses_proxy(
            Some(size),
        ),
{
}

} // verus!
