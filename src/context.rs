//! The launch context, fixed once per launch, and what follows from it: the
//! process to start, the names of the shared objects, and the configuration
//! records for the game.
use vstd::prelude::*;
use vstd::string::StringExecFns;

use crate::codec::{
    encode_text, holds_record, lemma_record_round_trip, record_bytes, record_fits, record_payload,
    utf16_of, CodecError,
};
use crate::launch::{
    candidate_file_name, lang_code, spec_candidate_file_name, spec_field_id, spec_game_type,
    spec_lang_code, spec_uses_proxy, Candidate, ConfigField, GameType, field_id, field_order,
    game_type, uses_proxy,
};

verus! {

/// Settings read from the launcher's configuration file.
#[derive(Clone, Copy, Debug, PartialEq, Eq, Structural)]
pub struct Config {
    pub window_width: u32,
    pub window_height: u32,
    pub refresh_rate: u32,
    pub fullscreen: bool,
    pub keep_aspect_ratio: bool,
    pub enable_linear_filtering: bool,
    pub original_mode: bool,
    pub pause_game_on_background: bool,
    pub sfx_volume: u32,
    pub music_volume: u32,
    pub launch_chocobo: bool,
}

/// Everything one launch decides before it starts the game.
#[derive(Clone, Debug)]
pub struct Context {
    pub game_to_launch: GameType,
    pub game_lang: String,
    pub use_ffnx: bool,
    pub config: Config,
}

/// The named objects shared with the game.
#[derive(Clone, Copy, Debug, PartialEq, Eq, Structural)]
pub enum SharedObject {
    GameCanRead,
    GameDidRead,
    LauncherCanRead,
    LauncherDidRead,
    SharedMemory,
}

impl Context {
    /// The context for starting candidate `c`, given the size of the
    /// companion file where it is present.
    pub fn new(c: Candidate, companion_size: Option<u64>, config: Config) -> (r: Context)
        ensures
            r.game_to_launch == spec_game_type(c, companion_size),
            r.game_lang@ == spec_lang_code(c.lang),
            r.use_ffnx == spec_uses_proxy(companion_size),
            r.config == config,
    {
        Context {
            game_to_launch: game_type(c, companion_size),
            game_lang: lang_code(c.lang),
            use_ffnx: uses_proxy(companion_size),
            config,
        }
    }
}

/// Whether the launch goes through the handshake: always but where the
/// compatibility proxy starts the game itself.
pub open spec fn spec_uses_handshake(ctx: &Context) -> bool {
    !ctx.use_ffnx || ctx.config.launch_chocobo
}

pub fn uses_handshake(ctx: &Context) -> (r: bool)
    ensures
        r == spec_uses_handshake(ctx),
{
    !ctx.use_ffnx || ctx.config.launch_chocobo
}

/// Whether the video and sound settings files are written before the start.
pub fn writes_settings_files(ctx: &Context) -> (r: bool)
    ensures
        r == !ctx.use_ffnx,
{
    !ctx.use_ffnx
}

pub open spec fn spec_process_to_start(ctx: &Context, c: Candidate) -> Seq<char> {
    if ctx.config.launch_chocobo {
        "chocobo_"@ + ctx.game_lang@ + ".exe"@
    } else {
        spec_candidate_file_name(c)
    }
}

/// File name of the executable to start: the chosen candidate, or the
/// companion title in the same language where the configuration asks for it.
pub fn process_to_start(ctx: &Context, c: Candidate) -> (r: String)
    ensures
        r@ == spec_process_to_start(ctx, c),
{
    if ctx.config.launch_chocobo {
        let mut name = String::from_str("chocobo_");
        name.append(ctx.game_lang.as_str());
        name.append(".exe");
        name
    } else {
        candidate_file_name(c)
    }
}

pub open spec fn spec_name_prefix(ctx: &Context) -> Seq<char> {
    if ctx.config.launch_chocobo {
        "choco"@
    } else {
        match ctx.game_to_launch {
            GameType::FF7(_) => "ff7"@,
            GameType::FF8 => "ff8"@,
        }
    }
}

/// The prefix shared by the names of this launch's shared objects.
pub fn name_prefix(ctx: &Context) -> (r: String)
    ensures
        r@ == spec_name_prefix(ctx),
{
    if ctx.config.launch_chocobo {
        String::from_str("choco")
    } else {
        match ctx.game_to_launch {
            GameType::FF7(_) => String::from_str("ff7"),
            GameType::FF8 => String::from_str("ff8"),
        }
    }
}

pub open spec fn spec_object_suffix(obj: SharedObject) -> Seq<char> {
    match obj {
        SharedObject::GameCanRead => "_gameCanReadMsgSem"@,
        SharedObject::GameDidRead => "_gameDidReadMsgSem"@,
        SharedObject::LauncherCanRead => "_launcherCanReadMsgSem"@,
        SharedObject::LauncherDidRead => "_launcherDidReadMsgSem"@,
        SharedObject::SharedMemory => "_sharedMemoryWithLauncher"@,
    }
}

/// The system-wide name of `obj` for this launch.
pub fn shared_object_name(ctx: &Context, obj: SharedObject) -> (r: String)
    ensures
        r@ == spec_name_prefix(ctx) + spec_object_suffix(obj),
{
    let mut name = name_prefix(ctx);
    match obj {
        SharedObject::GameCanRead => name.append("_gameCanReadMsgSem"),
        SharedObject::GameDidRead => name.append("_gameDidReadMsgSem"),
        SharedObject::LauncherCanRead => name.append("_launcherCanReadMsgSem"),
        SharedObject::LauncherDidRead => name.append("_launcherDidReadMsgSem"),
        SharedObject::SharedMemory => name.append("_sharedMemoryWithLauncher"),
    }
    name
}

/// Builds the record that carries `text` as `field` for `game`, for a slot
/// of `capacity` bytes. `None` where the game does not take the field.
pub fn encode_field(game: GameType, field: ConfigField, text: &str, capacity: usize) -> (r:
    Option<Result<Vec<u8>, CodecError>>)
    ensures
        match r {
            None => spec_field_id(game, field) is None,
            Some(Ok(bytes)) => spec_field_id(game, field) is Some && record_fits(
                utf16_of(text@).len() as int,
                capacity as int,
            ) && bytes@ == record_bytes(spec_field_id(game, field)->0, utf16_of(text@)),
            Some(Err(e)) => spec_field_id(game, field) is Some && !record_fits(
                utf16_of(text@).len() as int,
                capacity as int,
            ) && e == CodecError::RecordTooLarge,
        },
{
    match field_id(game, field) {
        None => None,
        Some(id) => {
            Some(encode_text(id, text, capacity))
        },
    }
}

pub open spec fn locale_text(ctx: &Context) -> Seq<char> {
    "lang-"@ + ctx.game_lang@
}

/// The locale data directory handed to the game: `lang-<language>`.
pub fn locale_data_dir(ctx: &Context) -> (r: String)
    ensures
        r@ == locale_text(ctx),
{
    let mut text = String::from_str("lang-");
    text.append(ctx.game_lang.as_str());
    text
}

/// The record that tells the game its locale data directory,
/// `lang-<language>`, for a slot of `capacity` bytes.
pub fn send_locale_data_dir(ctx: &Context, capacity: usize) -> (r: Result<Vec<u8>, CodecError>)
    ensures
        match r {
            Ok(bytes) => record_fits(utf16_of(locale_text(ctx)).len() as int, capacity as int)
                && bytes@ == record_bytes(
                spec_field_id(ctx.game_to_launch, ConfigField::LocaleDataDir)->0,
                utf16_of(locale_text(ctx)),
            ),
            Err(e) => !record_fits(utf16_of(locale_text(ctx)).len() as int, capacity as int)
                && e == CodecError::RecordTooLarge,
        },
{
    let text = locale_data_dir(ctx);
    let r = encode_field(ctx.game_to_launch, ConfigField::LocaleDataDir, text.as_str(), capacity);
    match r {
        Some(bytes) => bytes,
        None => Err(CodecError::RecordTooLarge),
    }
}

/// For every game and every field it takes, the record that `encode_field`
/// builds for a text, read back from a slot that starts with it, gives that
/// game's id for the field and the text's code units; `decode_text` then
/// returns that id and exactly that text.
pub proof fn lemma_field_round_trip(
    game: GameType,
    field: ConfigField,
    text: Seq<char>,
    slot: Seq<u8>,
)
    requires
        spec_field_id(game, field) is Some,
        utf16_of(text).len() <= u32::MAX,
        record_bytes(spec_field_id(game, field)->0, utf16_of(text)).len() <= slot.len(),
        slot.subrange(0, record_bytes(spec_field_id(game, field)->0, utf16_of(text)).len() as int)
            == record_bytes(spec_field_id(game, field)->0, utf16_of(text)),
    ensures
        holds_record(slot),
        slot[0] == spec_field_id(game, field)->0,
        record_payload(slot) == utf16_of(text),
{
    lemma_record_round_trip(spec_field_id(game, field)->0, utf16_of(text), slot);
}

/// The records of the first `k` fields of `field_order()` that `game` takes
/// and that have a value in `values`, the value of field `j` standing at
/// `values[j]`.
pub open spec fn planned_records(game: GameType, values: Seq<Option<String>>, k: int) -> Seq<
    Seq<u8>,
>
    decreases k,
{
    if k <= 0 {
        Seq::empty()
    } else {
        let rest = planned_records(game, values, k - 1);
        let id = spec_field_id(game, field_order()[k - 1]);
        if id is Some && values[k - 1] is Some {
            rest.push(record_bytes(id->0, utf16_of(values[k - 1]->0@)))
        } else {
            rest
        }
    }
}

/// Whether every value among the first `k` fields that `game` takes fits a
/// slot of `capacity` bytes.
pub open spec fn values_fit(game: GameType, values: Seq<Option<String>>, k: int, capacity: int) -> bool {
    forall|j: int|
        0 <= j < k && spec_field_id(game, #[trigger] field_order()[j]) is Some && values[j] is Some
            ==> record_fits(utf16_of(values[j]->0@).len() as int, capacity)
}

/// Builds the handshake's records for `game`, in the order in which the game
/// consumes them: one for each field that the game takes and that has a
/// value, `values[j]` holding the value of field `j` of `field_order()`.
/// Fields without a value are left to the game's own defaults. Fails, with
/// no records, where a value would not fit a slot of `capacity` bytes.
pub fn handshake_records(game: GameType, values: &Vec<Option<String>>, capacity: usize) -> (r:
    Result<Vec<Vec<u8>>, CodecError>)
    requires
        values@.len() == field_order().len(),
    ensures
        match r {
            Ok(records) => values_fit(game, values@, field_order().len() as int, capacity as int) && records@.len()
                == planned_records(game, values@, field_order().len() as int).len() && forall|i: int|
                0 <= i < records@.len() ==> #[trigger] records@[i]@ == planned_records(
                    game,
                    values@,
                    field_order().len() as int,
                )[i],
            Err(e) => !values_fit(game, values@, field_order().len() as int, capacity as int) && e
                == CodecError::RecordTooLarge,
        },
{
    let order: Vec<ConfigField> = vec![
        ConfigField::LocaleDataDir,
        ConfigField::UserSaveDir,
        ConfigField::DocDir,
        ConfigField::InstallDir,
        ConfigField::GameVersion,
        ConfigField::DisableCloud,
        ConfigField::BgPauseEnabled,
        ConfigField::EndUserInfo,
    ];
    assert(order@ =~= field_order());
    let mut records: Vec<Vec<u8>> = Vec::new();
    let mut k: usize = 0;
    while k < order.len()
        invariant
            order@ == field_order(),
            values@.len() == field_order().len(),
            k <= order@.len(),
            values_fit(game, values@, k as int, capacity as int),
            records@.len() == planned_records(game, values@, k as int).len(),
            forall|i: int|
                0 <= i < records@.len() ==> #[trigger] records@[i]@ == planned_records(
                    game,
                    values@,
                    k as int,
                )[i],
        decreases order@.len() - k,
    {
        let ghost before = records@;
        match (field_id(game, order[k]), &values[k]) {
            (Some(id), Some(text)) => {
                match encode_text(id, text.as_str(), capacity) {
                    Ok(bytes) => {
                        records.push(bytes);
                        assert forall|i: int|
                            0 <= i < records@.len() implies #[trigger] records@[i]@
                            == planned_records(game, values@, k + 1)[i] by {
                            if i < before.len() {
                                assert(records@[i] == before[i]);
                            }
                        }
                    },
                    Err(e) => {
                        assert(!values_fit(game, values@, field_order().len() as int, capacity as int)) by {
                            assert(spec_field_id(game, field_order()[k as int]) is Some);
                        }
                        return Err(e);
                    },
                }
            },
            _ => {},
        }
        k = k + 1;
    }
    Ok(records)
}

} // verus!
