use ff78_launcher::channel::SLOT_SIZE;
use ff78_launcher::context::{
    name_prefix, process_to_start, send_locale_data_dir, shared_object_name, uses_handshake,
    writes_settings_files, Config, Context, SharedObject,
};
use ff78_launcher::handshake::{
    step, Action, Event, FaultGuard, FaultResponse, Handshake, HandshakeState, Resource,
    Resources,
};
use ff78_launcher::launch::{
    candidate, candidate_file_name, field_id, handshake_fields, pick_executable, ConfigField,
    DiscoveryError, GameType, StoreType, CANDIDATE_COUNT, COMPANION_THRESHOLD,
};
use ff78_launcher::settings::{
    get_game_install_path, install_base, settings_file_path, sound_file_name, video_file_name,
    write_ffsound, write_ffvideo, InstallBase,
};

fn config() -> Config {
    Config {
        window_width: 1280,
        window_height: 720,
        refresh_rate: 60,
        fullscreen: true,
        keep_aspect_ratio: false,
        enable_linear_filtering: true,
        original_mode: false,
        pause_game_on_background: true,
        sfx_volume: 100,
        music_volume: 0x01020304,
        launch_chocobo: false,
    }
}

fn present(names: &[&str]) -> Vec<bool> {
    (0..CANDIDATE_COUNT)
        .map(|i| names.contains(&candidate_file_name(candidate(i)).as_str()))
        .collect()
}

#[test]
fn candidate_names_in_order() {
    let names: Vec<String> = (0..CANDIDATE_COUNT).map(|i| candidate_file_name(candidate(i))).collect();
    assert_eq!(
        names,
        vec![
            "ff7_de.exe", "ff7_en.exe", "ff7_es.exe", "ff7_fr.exe", "ff7_ja.exe", "ff8_de.exe",
            "ff8_en.exe", "ff8_es.exe", "ff8_fr.exe", "ff8_it.exe", "ff8_ja.exe",
        ]
    );
}

#[test]
fn discovery_picks_the_single_present_candidate() {
    assert_eq!(pick_executable(&present(&["ff8_fr.exe"])), Ok(8));
    assert_eq!(pick_executable(&present(&["ff7_de.exe"])), Ok(0));
}

#[test]
fn discovery_reports_none_or_several() {
    assert_eq!(pick_executable(&present(&[])), Err(DiscoveryError::NoneFound));
    assert_eq!(
        pick_executable(&present(&["ff7_en.exe", "ff8_en.exe"])),
        Err(DiscoveryError::SeveralFound)
    );
    assert_eq!(
        pick_executable(&present(&["ff7_en.exe", "ff7_ja.exe", "ff8_ja.exe"])),
        Err(DiscoveryError::SeveralFound)
    );
}

#[test]
fn companion_threshold_belongs_to_the_proxy_side() {
    let ja = candidate(4);
    let below = Context::new(ja, Some(COMPANION_THRESHOLD - 1), config());
    assert_eq!(below.game_to_launch, GameType::FF7(StoreType::EStore));
    assert!(!below.use_ffnx);
    let at = Context::new(ja, Some(COMPANION_THRESHOLD), config());
    assert_eq!(at.game_to_launch, GameType::FF7(StoreType::Standard));
    assert!(at.use_ffnx);
    assert!(!uses_handshake(&at));
    let above = Context::new(ja, Some(COMPANION_THRESHOLD + 1), config());
    assert_eq!(above.game_to_launch, GameType::FF7(StoreType::Standard));
    assert!(above.use_ffnx);
    assert!(!uses_handshake(&above));
    assert!(!writes_settings_files(&above));
}

#[test]
fn ff8_english_without_companion_runs_full_handshake() {
    let i = pick_executable(&present(&["ff8_en.exe"])).unwrap();
    let ctx = Context::new(candidate(i), None, config());
    assert_eq!(ctx.game_to_launch, GameType::FF8);
    assert_eq!(ctx.game_lang, "en");
    assert!(!ctx.use_ffnx);
    assert!(uses_handshake(&ctx));
    assert!(writes_settings_files(&ctx));
    let fields = handshake_fields(ctx.game_to_launch);
    assert_eq!(fields.len(), 8);
    assert!(fields.contains(&ConfigField::BgPauseEnabled));
    assert_eq!(field_id(GameType::FF8, ConfigField::BgPauseEnabled), Some(23));
    assert_eq!(install_base(&ctx), InstallBase::Documents);
    let install = get_game_install_path(&ctx, "C:\\Users\\me\\Documents");
    assert_eq!(install, "C:\\Users\\me\\Documents\\Square Enix\\FINAL FANTASY VIII Steam");
    assert_eq!(
        settings_file_path(&install, &video_file_name(ctx.game_to_launch)),
        "C:\\Users\\me\\Documents\\Square Enix\\FINAL FANTASY VIII Steam\\ff8video.cfg"
    );
    assert_eq!(sound_file_name(ctx.game_to_launch), "ff8sound.cfg");
    assert_eq!(process_to_start(&ctx, candidate(i)), "ff8_en.exe");
}

#[test]
fn ff7_japanese_with_small_companion_uses_estore_table() {
    let i = pick_executable(&present(&["ff7_ja.exe"])).unwrap();
    let ctx = Context::new(candidate(i), Some(512 * 1024), config());
    assert_eq!(ctx.game_to_launch, GameType::FF7(StoreType::EStore));
    assert_eq!(ctx.game_lang, "ja");
    assert!(!ctx.use_ffnx);
    assert!(uses_handshake(&ctx));
    assert_eq!(
        handshake_fields(ctx.game_to_launch),
        vec![
            ConfigField::LocaleDataDir,
            ConfigField::UserSaveDir,
            ConfigField::DocDir,
            ConfigField::InstallDir,
            ConfigField::GameVersion,
            ConfigField::EndUserInfo,
        ]
    );
    assert_eq!(field_id(ctx.game_to_launch, ConfigField::DisableCloud), None);
    assert_eq!(field_id(ctx.game_to_launch, ConfigField::EndUserInfo), Some(20));
    assert_eq!(install_base(&ctx), InstallBase::WorkingDir);
    assert_eq!(get_game_install_path(&ctx, "D:\\Games\\FF7"), "D:\\Games\\FF7");
}

#[test]
fn standard_ff7_fields_in_order() {
    let game = GameType::FF7(StoreType::Standard);
    let fields = handshake_fields(game);
    let ids: Vec<u8> = fields.iter().map(|f| field_id(game, *f).unwrap()).collect();
    assert_eq!(ids, vec![13, 10, 11, 12, 18, 22, 24]);
}

#[test]
fn locale_record_bytes() {
    let ctx = Context::new(candidate(1), None, config());
    let bytes = send_locale_data_dir(&ctx, SLOT_SIZE).unwrap();
    let mut expected = vec![13u8, 7, 0, 0, 0];
    for b in "lang-en".bytes() {
        expected.push(b);
        expected.push(0);
    }
    expected.push(0);
    assert_eq!(bytes, expected);
    let ff8 = Context::new(candidate(10), None, config());
    assert_eq!(send_locale_data_dir(&ff8, SLOT_SIZE).unwrap()[0], 12);
    assert!(send_locale_data_dir(&ff8, 19).is_err());
    assert!(send_locale_data_dir(&ff8, 20).is_ok());
}

#[test]
fn shared_object_names() {
    let ctx = Context::new(candidate(3), None, config());
    assert_eq!(name_prefix(&ctx), "ff7");
    assert_eq!(shared_object_name(&ctx, SharedObject::GameCanRead), "ff7_gameCanReadMsgSem");
    assert_eq!(shared_object_name(&ctx, SharedObject::GameDidRead), "ff7_gameDidReadMsgSem");
    assert_eq!(
        shared_object_name(&ctx, SharedObject::LauncherCanRead),
        "ff7_launcherCanReadMsgSem"
    );
    assert_eq!(
        shared_object_name(&ctx, SharedObject::LauncherDidRead),
        "ff7_launcherDidReadMsgSem"
    );
    assert_eq!(
        shared_object_name(&ctx, SharedObject::SharedMemory),
        "ff7_sharedMemoryWithLauncher"
    );
}

#[test]
fn companion_title_changes_process_and_prefix() {
    let mut c = config();
    c.launch_chocobo = true;
    let ctx = Context::new(candidate(6), Some(COMPANION_THRESHOLD * 4), c);
    assert_eq!(process_to_start(&ctx, candidate(6)), "chocobo_en.exe");
    assert_eq!(name_prefix(&ctx), "choco");
    assert!(uses_handshake(&ctx));
    assert!(!writes_settings_files(&ctx));
}

#[test]
fn video_settings_layout() {
    let ff7 = Context::new(candidate(0), None, config());
    let mut out = vec![0xEEu8];
    write_ffvideo(&ff7, &mut out);
    let expected_ff7: Vec<u8> = [0xEEu8]
        .into_iter()
        .chain(1280u32.to_le_bytes())
        .chain(720u32.to_le_bytes())
        .chain(60u32.to_le_bytes())
        .chain(1u32.to_le_bytes())
        .chain(0u32.to_le_bytes())
        .chain(0u32.to_le_bytes())
        .chain(1u32.to_le_bytes())
        .chain(0u32.to_le_bytes())
        .collect();
    assert_eq!(out, expected_ff7);
    let ff8 = Context::new(candidate(5), None, config());
    let mut out8 = Vec::new();
    write_ffvideo(&ff8, &mut out8);
    assert_eq!(out8.len(), 36);
    assert_eq!(&out8[..32], &expected_ff7[1..]);
    assert_eq!(&out8[32..], &1u32.to_le_bytes());
}

#[test]
fn sound_settings_layout() {
    let ctx = Context::new(candidate(0), None, config());
    let mut out = Vec::new();
    write_ffsound(&ctx, &mut out);
    assert_eq!(out, vec![100, 0, 0, 0, 4, 3, 2, 1]);
}

#[test]
fn write_must_wait_for_ack() {
    let mut h = Handshake::new(2);
    assert_eq!(h.next_action(), Action::Write(0));
    assert!(h.apply(Event::LauncherWrote));
    assert_eq!(h.state, HandshakeState::AwaitingGameAck);
    assert_eq!(h.next_action(), Action::AwaitAck);
    assert!(!h.apply(Event::LauncherWrote));
    assert_eq!(h.sent, 1);
    assert!(h.apply(Event::GameAcked));
    assert_eq!(h.next_action(), Action::Write(1));
    assert!(!h.apply(Event::LauncherCompleted));
    assert!(h.apply(Event::LauncherWrote));
    assert!(h.apply(Event::GameAcked));
    assert_eq!(h.next_action(), Action::SignalCompleted);
    assert!(!h.apply(Event::LauncherWrote));
    assert!(h.apply(Event::LauncherCompleted));
    assert_eq!(h.state, HandshakeState::Completed);
    assert_eq!(h.next_action(), Action::WaitForExit);
    assert_eq!(step(HandshakeState::AwaitingGameAck, Event::LauncherWrote), None);
    assert_eq!(step(HandshakeState::Completed, Event::LauncherWrote), None);
}

#[test]
fn timeout_on_third_of_seven_aborts_and_releases_each_once() {
    let fields = handshake_fields(GameType::FF7(StoreType::Standard));
    assert_eq!(fields.len(), 7);
    let mut res = Resources::new();
    for r in [
        Resource::GameCanReadSem,
        Resource::GameDidReadSem,
        Resource::LauncherCanReadSem,
        Resource::LauncherDidReadSem,
        Resource::SharedMemory,
        Resource::MappedView,
        Resource::ListenerThread,
        Resource::GameProcess,
        Resource::GameThread,
    ] {
        res.acquire(r);
    }
    res.acquire(Resource::SharedMemory);
    let mut h = Handshake::new(fields.len());
    for _ in 0..2 {
        assert!(matches!(h.next_action(), Action::Write(_)));
        assert!(h.apply(Event::LauncherWrote));
        assert!(h.apply(Event::GameAcked));
    }
    assert_eq!(h.next_action(), Action::Write(2));
    assert!(h.apply(Event::LauncherWrote));
    assert!(h.apply(Event::TimedOut));
    assert_eq!(h.state, HandshakeState::Aborted);
    assert_eq!(h.next_action(), Action::WaitForExit);
    let order = res.release_order();
    assert_eq!(
        order,
        vec![
            Resource::GameThread,
            Resource::GameProcess,
            Resource::ListenerThread,
            Resource::MappedView,
            Resource::SharedMemory,
            Resource::LauncherDidReadSem,
            Resource::LauncherCanReadSem,
            Resource::GameDidReadSem,
            Resource::GameCanReadSem,
        ]
    );
    for r in [
        Resource::GameCanReadSem,
        Resource::GameDidReadSem,
        Resource::LauncherCanReadSem,
        Resource::LauncherDidReadSem,
        Resource::SharedMemory,
        Resource::MappedView,
    ] {
        assert_eq!(order.iter().filter(|x| **x == r).count(), 1);
    }
}

#[test]
fn protocol_violation_aborts() {
    let mut h = Handshake::new(3);
    assert!(h.apply(Event::ProtocolViolation));
    assert_eq!(h.state, HandshakeState::Aborted);
    assert!(!h.apply(Event::LauncherWrote));
    assert_eq!(h.next_action(), Action::WaitForExit);
}

#[test]
fn fault_guard_logs_once() {
    let mut g = FaultGuard::new();
    assert_eq!(g.on_fault(), FaultResponse::LogAndUninstall);
    assert_eq!(g.on_fault(), FaultResponse::UninstallOnly);
    assert_eq!(g.on_fault(), FaultResponse::UninstallOnly);
}
