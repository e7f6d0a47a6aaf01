use mgba::error::CoreError;
use mgba::key::{Key, KEY_COUNT};
use mgba::lifecycle::{audio_read_len, check_c_string, check_rom_path, vtable, RomState};
use mgba::startup::{startup_begin, startup_step, Startup, StartupAction, StartupEvent};
use mgba::{GBA_HEIGHT, GBA_PIXELS, GBA_SAMPLE_RATE, GBA_WIDTH};

#[test]
fn screen_and_audio_constants() {
    assert_eq!(GBA_WIDTH, 240);
    assert_eq!(GBA_HEIGHT, 160);
    assert_eq!(GBA_PIXELS, 38400);
    assert_eq!(GBA_SAMPLE_RATE, 32768);
}

#[test]
fn key_masks_follow_button_order() {
    assert_eq!(Key::A.mask(), 0x001);
    assert_eq!(Key::B.mask(), 0x002);
    assert_eq!(Key::Select.mask(), 0x004);
    assert_eq!(Key::Start.mask(), 0x008);
    assert_eq!(Key::Right.mask(), 0x010);
    assert_eq!(Key::Left.mask(), 0x020);
    assert_eq!(Key::Up.mask(), 0x040);
    assert_eq!(Key::Down.mask(), 0x080);
    assert_eq!(Key::R.mask(), 0x100);
    assert_eq!(Key::L.mask(), 0x200);
}

#[test]
fn all_keys_listed_once_in_order() {
    assert_eq!(Key::ALL.len(), KEY_COUNT);
    for (i, k) in Key::ALL.iter().enumerate() {
        assert_eq!(k.index() as usize, i);
        assert_eq!(k.mask(), 1u32 << i);
    }
}

#[test]
fn key_masks_are_disjoint_and_fill_ten_bits() {
    let mut combined = 0u32;
    for a in Key::ALL {
        assert_eq!(a.mask().count_ones(), 1);
        for b in Key::ALL {
            if a != b {
                assert_eq!(a.mask() & b.mask(), 0);
            }
        }
        combined |= a.mask();
    }
    assert_eq!(combined, 0x3FF);
    // A pressed set can be read back from its bitmask.
    let pressed = Key::A.mask() | Key::Start.mask() | Key::L.mask();
    let back: Vec<Key> = Key::ALL.iter().copied().filter(|k| pressed & k.mask() != 0).collect();
    assert_eq!(back, vec![Key::A, Key::Start, Key::L]);
}

#[test]
fn key_names() {
    let names: Vec<&str> = Key::ALL.iter().map(|k| k.name()).collect();
    assert_eq!(
        names,
        vec!["A", "B", "Select", "Start", "Right", "Left", "Up", "Down", "R", "L"]
    );
}

#[test]
fn error_messages() {
    assert_eq!(CoreError::CreateFailed.message(), "failed to create GBA core");
    assert_eq!(CoreError::InitFailed.message(), "failed to initialize GBA core");
    assert_eq!(CoreError::InvalidPath.message(), "invalid ROM path");
    assert_eq!(CoreError::RomLoadFailed.message(), "failed to load ROM");
    assert_eq!(CoreError::MissingFunction.message(), "missing core vtable function");
}

#[test]
fn c_strings_refuse_interior_nul() {
    assert_eq!(check_c_string(b"mgba"), Ok(()));
    assert_eq!(check_c_string(b""), Ok(()));
    assert_eq!(check_c_string(b"mg\0ba"), Err(CoreError::InvalidPath));
    assert_eq!(check_c_string(b"\0"), Err(CoreError::InvalidPath));
    assert_eq!(check_c_string(b"game.gba\0"), Err(CoreError::InvalidPath));
}

#[test]
fn rom_paths() {
    assert_eq!(check_rom_path(Some(b"roms/game.gba")), Ok(()));
    assert_eq!(check_rom_path(Some(b"roms/\0game.gba")), Err(CoreError::InvalidPath));
    assert_eq!(check_rom_path(None), Err(CoreError::InvalidPath));
}

#[test]
fn vtable_entries() {
    assert_eq!(vtable(Some(7u32)), Ok(7u32));
    assert_eq!(vtable::<u32>(None), Err(CoreError::MissingFunction));
}

#[test]
fn rom_state_tracks_successful_loads() {
    let mut s = RomState::new();
    assert!(!s.is_loaded());
    assert_eq!(s.finish_load(false), Err(CoreError::RomLoadFailed));
    assert!(!s.is_loaded());
    assert_eq!(s.finish_load(true), Ok(()));
    assert!(s.is_loaded());
    // A later failed load keeps the earlier ROM's mark.
    assert_eq!(s.finish_load(false), Err(CoreError::RomLoadFailed));
    assert!(s.is_loaded());
}

#[test]
fn audio_reads_fit_output_and_buffer() {
    assert_eq!(audio_read_len(100, 10), Some(5));
    assert_eq!(audio_read_len(3, 10), Some(3));
    assert_eq!(audio_read_len(100, 7), Some(3));
    assert_eq!(audio_read_len(0, 10), None);
    assert_eq!(audio_read_len(5, 1), None);
    assert_eq!(audio_read_len(5, 0), None);
    assert_eq!(audio_read_len(usize::MAX, usize::MAX), Some(usize::MAX / 2));
}

#[test]
fn startup_checks_port_first() {
    assert_eq!(startup_begin(b"mgba"), (Startup::Allocating, StartupAction::Allocate));
    assert_eq!(
        startup_begin(b"mg\0ba"),
        (Startup::Failed(CoreError::InvalidPath), StartupAction::Fail(CoreError::InvalidPath))
    );
}

#[test]
fn startup_success_path() {
    let (p, a) = startup_step(Startup::Allocating, StartupEvent::Allocated(true));
    assert_eq!((p, a), (Startup::Initializing, StartupAction::Initialize));
    let (p, a) = startup_step(p, StartupEvent::InitReturned(true));
    assert_eq!((p, a), (Startup::AttachingVideo, StartupAction::ConfigureAndAttachVideo));
    let (p, a) = startup_step(p, StartupEvent::VideoAttached(true));
    assert_eq!((p, a), (Startup::Ready, StartupAction::Finish));
}

#[test]
fn startup_failures_release_what_was_taken() {
    assert_eq!(
        startup_step(Startup::Allocating, StartupEvent::Allocated(false)),
        (Startup::Failed(CoreError::CreateFailed), StartupAction::Fail(CoreError::CreateFailed))
    );
    assert_eq!(
        startup_step(Startup::Initializing, StartupEvent::InitMissing),
        (
            Startup::Failed(CoreError::MissingFunction),
            StartupAction::FreeAndFail(CoreError::MissingFunction)
        )
    );
    assert_eq!(
        startup_step(Startup::Initializing, StartupEvent::InitReturned(false)),
        (
            Startup::Failed(CoreError::InitFailed),
            StartupAction::FreeAndFail(CoreError::InitFailed)
        )
    );
    assert_eq!(
        startup_step(Startup::AttachingVideo, StartupEvent::VideoAttached(false)),
        (
            Startup::Failed(CoreError::MissingFunction),
            StartupAction::TeardownAndFail(CoreError::MissingFunction)
        )
    );
}
