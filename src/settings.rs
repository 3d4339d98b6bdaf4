//! The flat little-endian settings files written for the game before it
//! starts, and the directory they go to.
use vstd::prelude::*;
use vstd::string::StringExecFns;

use crate::codec::le_u32_bytes;
use crate::context::{Config, Context};
use crate::launch::{GameType, StoreType};

verus! {

/// Where the game's installation directory is found.
#[derive(Clone, Copy, Debug, PartialEq, Eq, Structural)]
pub enum InstallBase {
    /// Under the user's documents folder.
    Documents,
    /// The launcher's working directory.
    WorkingDir,
}

pub open spec fn flag(b: bool) -> u32 {
    if b {
        1
    } else {
        0
    }
}

/// The display settings file: width, height, refresh rate, fullscreen, a
/// reserved zero, aspect ratio, linear filtering and original mode, each a
/// little-endian `u32`; then, for VIII only, pause on background.
pub open spec fn video_record(game: GameType, c: Config) -> Seq<u8> {
    let common = le_u32_bytes(c.window_width) + le_u32_bytes(c.window_height) + le_u32_bytes(
        c.refresh_rate,
    ) + le_u32_bytes(flag(c.fullscreen)) + le_u32_bytes(0) + le_u32_bytes(
        flag(c.keep_aspect_ratio),
    ) + le_u32_bytes(flag(c.enable_linear_filtering)) + le_u32_bytes(flag(c.original_mode));
    match game {
        GameType::FF8 => common + le_u32_bytes(flag(c.pause_game_on_background)),
        GameType::FF7(_) => common,
    }
}

/// The sound settings file: effects volume, then music volume.
pub open spec fn sound_record(c: Config) -> Seq<u8> {
    le_u32_bytes(c.sfx_volume) + le_u32_bytes(c.music_volume)
}

fn push_u32(out: &mut Vec<u8>, v: u32)
    ensures
        final(out)@ == old(out)@ + le_u32_bytes(v),
{
    out.push((v & 0xff) as u8);
    out.push(((v >> 8) & 0xff) as u8);
    out.push(((v >> 16) & 0xff) as u8);
    out.push(((v >> 24) & 0xff) as u8);
    assert(final(out)@ =~= old(out)@ + le_u32_bytes(v));
}

fn push_flag(out: &mut Vec<u8>, b: bool)
    ensures
        final(out)@ == old(out)@ + le_u32_bytes(flag(b)),
{
    push_u32(out, if b { 1 } else { 0 });
}

/// Appends the display settings file of `ctx` to `out`.
pub fn write_ffvideo(ctx: &Context, out: &mut Vec<u8>)
    ensures
        final(out)@ == old(out)@ + video_record(ctx.game_to_launch, ctx.config),
{
    let c = &ctx.config;
    let mut rec: Vec<u8> = Vec::new();
    push_u32(&mut rec, c.window_width);
    assert(rec@ =~= le_u32_bytes(c.window_width));
    push_u32(&mut rec, c.window_height);
    push_u32(&mut rec, c.refresh_rate);
    push_flag(&mut rec, c.fullscreen);
    push_u32(&mut rec, 0);
    push_flag(&mut rec, c.keep_aspect_ratio);
    push_flag(&mut rec, c.enable_linear_filtering);
    push_flag(&mut rec, c.original_mode);
    if let GameType::FF8 = ctx.game_to_launch {
        push_flag(&mut rec, c.pause_game_on_background);
    }
    assert(rec@ == video_record(ctx.game_to_launch, ctx.config));
    out.append(&mut rec);
}

/// Appends the sound settings file of `ctx` to `out`.
pub fn write_ffsound(ctx: &Context, out: &mut Vec<u8>)
    ensures
        final(out)@ == old(out)@ + sound_record(ctx.config),
{
    let mut rec: Vec<u8> = Vec::new();
    push_u32(&mut rec, ctx.config.sfx_volume);
    assert(rec@ =~= le_u32_bytes(ctx.config.sfx_volume));
    push_u32(&mut rec, ctx.config.music_volume);
    out.append(&mut rec);
}

pub open spec fn spec_video_file_name(game: GameType) -> Seq<char> {
    match game {
        GameType::FF7(_) => "ff7video.cfg"@,
        GameType::FF8 => "ff8video.cfg"@,
    }
}

pub fn video_file_name(game: GameType) -> (r: String)
    ensures
        r@ == spec_video_file_name(game),
{
    match game {
        GameType::FF7(_) => String::from_str("ff7video.cfg"),
        GameType::FF8 => String::from_str("ff8video.cfg"),
    }
}

pub open spec fn spec_sound_file_name(game: GameType) -> Seq<char> {
    match game {
        GameType::FF7(_) => "ff7sound.cfg"@,
        GameType::FF8 => "ff8sound.cfg"@,
    }
}

pub fn sound_file_name(game: GameType) -> (r: String)
    ensures
        r@ == spec_sound_file_name(game),
{
    match game {
        GameType::FF7(_) => String::from_str("ff7sound.cfg"),
        GameType::FF8 => String::from_str("ff8sound.cfg"),
    }
}

pub open spec fn spec_install_base(game: GameType) -> InstallBase {
    match game {
        GameType::FF7(StoreType::EStore) => InstallBase::WorkingDir,
        _ => InstallBase::Documents,
    }
}

/// Where the installation directory of `ctx`'s game lies: the e-store build
/// runs from the working directory, the others from under the documents
/// folder.
pub fn install_base(ctx: &Context) -> (r: InstallBase)
    ensures
        r == spec_install_base(ctx.game_to_launch),
{
    match ctx.game_to_launch {
        GameType::FF7(StoreType::EStore) => InstallBase::WorkingDir,
        _ => InstallBase::Documents,
    }
}

pub open spec fn spec_install_path(game: GameType, base_dir: Seq<char>) -> Seq<char> {
    match spec_install_base(game) {
        InstallBase::WorkingDir => base_dir,
        InstallBase::Documents => base_dir + "\\Square Enix\\FINAL FANTASY "@ + match game {
            GameType::FF8 => "VIII Steam"@,
            GameType::FF7(_) => "VII Steam"@,
        },
    }
}

/// The game's installation directory, given the directory that
/// `install_base` names.
pub fn get_game_install_path(ctx: &Context, base_dir: &str) -> (r: String)
    ensures
        r@ == spec_install_path(ctx.game_to_launch, base_dir@),
{
    let mut path = String::from_str(base_dir);
    if let InstallBase::Documents = install_base(ctx) {
        path.append("\\Square Enix\\FINAL FANTASY ");
        match ctx.game_to_launch {
            GameType::FF8 => path.append("VIII Steam"),
            GameType::FF7(_) => path.append("VII Steam"),
        }
    }
    path
}

/// Path of the settings file `file_name` in the installation directory.
pub fn settings_file_path(install_path: &str, file_name: &str) -> (r: String)
    ensures
        r@ == install_path@ + "\\"@ + file_name@,
{
    let mut path = String::from_str(install_path);
    path.append("\\");
    path.append(file_name);
    path
}

} // verus!
