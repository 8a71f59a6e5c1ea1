use mumble_link::guard::{AttachOutcome, InitStatus, MumbleGuard};
use mumble_link::name::segment_name;
use mumble_link::record::{PoseBundle, UpdateError, Vec3Bits};
use mumble_link::RECORD_SIZE;

const OFF_VERSION: usize = 0;
const OFF_TICK: usize = 4;
const OFF_AVATAR_POSITION: usize = 8;
const OFF_AVATAR_FRONT: usize = 20;
const OFF_AVATAR_TOP: usize = 32;
const OFF_NAME: usize = 44;
const OFF_CAMERA_POSITION: usize = 556;
const OFF_CAMERA_FRONT: usize = 568;
const OFF_CAMERA_TOP: usize = 580;
const OFF_IDENTITY: usize = 592;
const OFF_CONTEXT_LEN: usize = 1104;
const OFF_CONTEXT: usize = 1108;
const OFF_DESCRIPTION: usize = 1364;

fn u32_at(bytes: &[u8], off: usize) -> u32 {
    u32::from_le_bytes([bytes[off], bytes[off + 1], bytes[off + 2], bytes[off + 3]])
}

fn u16_at(bytes: &[u8], off: usize) -> u16 {
    u16::from_le_bytes([bytes[off], bytes[off + 1]])
}

fn units_at(bytes: &[u8], off: usize, n: usize) -> Vec<u16> {
    (0..n).map(|j| u16_at(bytes, off + 2 * j)).collect()
}

fn vec_bits(x: f32, y: f32, z: f32) -> Vec3Bits {
    Vec3Bits {
        x: x.to_bits(),
        y: y.to_bits(),
        z: z.to_bits(),
    }
}

fn bundle(name: &str, context: &[u8]) -> PoseBundle {
    PoseBundle {
        avatar_position: vec_bits(1.0, 2.0, 3.0),
        avatar_front: vec_bits(4.0, 5.0, 6.0),
        avatar_top: vec_bits(7.0, 8.0, 9.0),
        camera_position: vec_bits(10.0, 11.0, 12.0),
        camera_front: vec_bits(13.0, 14.0, 15.0),
        camera_top: vec_bits(16.0, 17.0, 18.0),
        player_name: name.to_string(),
        context: context.to_vec(),
    }
}

fn attached_guard(initial: Vec<u8>) -> MumbleGuard {
    let mut g = MumbleGuard::new();
    let status = g.init(AttachOutcome::Attached(initial));
    assert_eq!(status, InitStatus::Ready);
    g
}

fn utf16_z(s: &str, n: usize) -> Vec<u16> {
    let mut units: Vec<u16> = s.encode_utf16().collect();
    while units.len() < n {
        units.push(0);
    }
    units
}

#[test]
fn init_absent_segment_is_quiet() {
    let mut g = MumbleGuard::new();
    let status = g.init(AttachOutcome::Failed(2));
    assert_eq!(status, InitStatus::NotAvailable);
    assert!(!status.should_log());
}

#[test]
fn init_other_failures_are_logged() {
    let mut g = MumbleGuard::new();
    let status = g.init(AttachOutcome::Failed(13));
    assert_eq!(status, InitStatus::Error(13));
    assert!(status.should_log());
    assert!(!InitStatus::Ready.should_log());
}

#[test]
fn init_failure_keeps_prior_handle() {
    let mut g = attached_guard(vec![0u8; RECORD_SIZE]);
    let status = g.init(AttachOutcome::Failed(2));
    assert_eq!(status, InitStatus::NotAvailable);
    assert!(g.record_bytes().is_some());
}

#[test]
fn update_before_init_is_rejected() {
    let mut g = MumbleGuard::new();
    let result = g.update(&bundle("Steve", b"ctx"));
    assert_eq!(result, Err(UpdateError::NotInitialized));
    assert!(g.record_bytes().is_none());
}

#[test]
fn first_update_scenario() {
    let mut g = attached_guard(vec![0u8; RECORD_SIZE]);
    let mut b = bundle("Steve", b"lobby");
    b.avatar_position = vec_bits(1.0, 2.0, 3.0);
    assert_eq!(g.update(&b), Ok(()));
    let bytes = g.record_bytes().unwrap();
    assert_eq!(u32_at(bytes, OFF_VERSION), 2);
    assert_eq!(u32_at(bytes, OFF_TICK), 1);
    assert_eq!(u32_at(bytes, OFF_AVATAR_POSITION), 1.0f32.to_bits());
    assert_eq!(u32_at(bytes, OFF_AVATAR_POSITION + 4), 3.0f32.to_bits());
    assert_eq!(u32_at(bytes, OFF_AVATAR_POSITION + 8), 2.0f32.to_bits());
}

#[test]
fn axis_permutation_on_all_six_vectors() {
    let mut g = attached_guard(vec![0u8; RECORD_SIZE]);
    assert_eq!(g.update(&bundle("Steve", b"")), Ok(()));
    let bytes = g.record_bytes().unwrap();
    let expected: [(usize, f32, f32, f32); 6] = [
        (OFF_AVATAR_POSITION, 1.0, 2.0, 3.0),
        (OFF_AVATAR_FRONT, 4.0, 5.0, 6.0),
        (OFF_AVATAR_TOP, 7.0, 8.0, 9.0),
        (OFF_CAMERA_POSITION, 10.0, 11.0, 12.0),
        (OFF_CAMERA_FRONT, 13.0, 14.0, 15.0),
        (OFF_CAMERA_TOP, 16.0, 17.0, 18.0),
    ];
    for (off, x, y, z) in expected {
        assert_eq!(u32_at(bytes, off), x.to_bits());
        assert_eq!(u32_at(bytes, off + 4), z.to_bits());
        assert_eq!(u32_at(bytes, off + 8), y.to_bits());
    }
}

#[test]
fn tick_counts_every_update() {
    let mut g = attached_guard(vec![0u8; RECORD_SIZE]);
    for expected in 1..=5u32 {
        assert_eq!(g.update(&bundle("Steve", b"c")), Ok(()));
        assert_eq!(u32_at(g.record_bytes().unwrap(), OFF_TICK), expected);
    }
}

#[test]
fn tick_continues_from_prior_value() {
    let mut initial = vec![0u8; RECORD_SIZE];
    initial[OFF_TICK..OFF_TICK + 4].copy_from_slice(&41u32.to_le_bytes());
    let mut g = attached_guard(initial);
    assert_eq!(g.update(&bundle("Steve", b"")), Ok(()));
    assert_eq!(u32_at(g.record_bytes().unwrap(), OFF_TICK), 42);
}

#[test]
fn tick_wraps_at_the_limit() {
    let mut initial = vec![0u8; RECORD_SIZE];
    initial[OFF_TICK..OFF_TICK + 4].copy_from_slice(&u32::MAX.to_le_bytes());
    let mut g = attached_guard(initial);
    assert_eq!(g.update(&bundle("Steve", b"")), Ok(()));
    assert_eq!(u32_at(g.record_bytes().unwrap(), OFF_TICK), 0);
}

#[test]
fn static_fields_written_once() {
    let mut g = attached_guard(vec![0u8; RECORD_SIZE]);
    assert_eq!(g.update(&bundle("Steve", b"a")), Ok(()));
    let bytes = g.record_bytes().unwrap();
    assert_eq!(units_at(bytes, OFF_NAME, 256), utf16_z("Minecraft", 256));
    assert_eq!(
        units_at(bytes, OFF_DESCRIPTION, 2048),
        utf16_z("Mumble Link implementation for Lunar Client.", 2048)
    );
    let name_before = bytes[OFF_NAME..OFF_NAME + 512].to_vec();
    let desc_before = bytes[OFF_DESCRIPTION..OFF_DESCRIPTION + 4096].to_vec();
    assert_eq!(g.update(&bundle("Alex", b"b")), Ok(()));
    let bytes = g.record_bytes().unwrap();
    assert_eq!(u32_at(bytes, OFF_VERSION), 2);
    assert_eq!(&bytes[OFF_NAME..OFF_NAME + 512], &name_before[..]);
    assert_eq!(&bytes[OFF_DESCRIPTION..OFF_DESCRIPTION + 4096], &desc_before[..]);
}

#[test]
fn static_fields_respected_when_version_already_set() {
    let mut initial = vec![0u8; RECORD_SIZE];
    initial[OFF_VERSION..OFF_VERSION + 4].copy_from_slice(&2u32.to_le_bytes());
    for b in initial[OFF_NAME..OFF_NAME + 512].iter_mut() {
        *b = 0xAB;
    }
    let mut g = attached_guard(initial);
    assert_eq!(g.update(&bundle("Steve", b"")), Ok(()));
    let bytes = g.record_bytes().unwrap();
    assert_eq!(u32_at(bytes, OFF_VERSION), 2);
    assert!(bytes[OFF_NAME..OFF_NAME + 512].iter().all(|&b| b == 0xAB));
}

#[test]
fn identity_fully_overwritten_each_update() {
    let mut g = attached_guard(vec![0u8; RECORD_SIZE]);
    assert_eq!(g.update(&bundle("Alexander", b"")), Ok(()));
    assert_eq!(
        units_at(g.record_bytes().unwrap(), OFF_IDENTITY, 256),
        utf16_z("Alexander", 256)
    );
    assert_eq!(g.update(&bundle("Bo", b"")), Ok(()));
    let units = units_at(g.record_bytes().unwrap(), OFF_IDENTITY, 256);
    assert_eq!(units, utf16_z("Bo", 256));
    assert!(units[2..].iter().all(|&u| u == 0));
}

#[test]
fn identity_handles_supplementary_plane_names() {
    let mut g = attached_guard(vec![0u8; RECORD_SIZE]);
    assert_eq!(g.update(&bundle("\u{1D11E}", b"")), Ok(()));
    let units = units_at(g.record_bytes().unwrap(), OFF_IDENTITY, 256);
    assert_eq!(units[0], 0xD834);
    assert_eq!(units[1], 0xDD1E);
    assert!(units[2..].iter().all(|&u| u == 0));
}

#[test]
fn trailing_nul_in_name_is_dropped() {
    let mut g = attached_guard(vec![0u8; RECORD_SIZE]);
    assert_eq!(g.update(&bundle("Bob\0", b"")), Ok(()));
    assert_eq!(
        units_at(g.record_bytes().unwrap(), OFF_IDENTITY, 256),
        utf16_z("Bob", 256)
    );
}

#[test]
fn context_length_tracks_latest_blob() {
    let mut g = attached_guard(vec![0u8; RECORD_SIZE]);
    let first = b"hello\0world";
    assert_eq!(g.update(&bundle("Steve", first)), Ok(()));
    let bytes = g.record_bytes().unwrap();
    assert_eq!(u32_at(bytes, OFF_CONTEXT_LEN), first.len() as u32);
    assert_eq!(&bytes[OFF_CONTEXT..OFF_CONTEXT + first.len()], &first[..]);

    assert_eq!(g.update(&bundle("Steve", b"hi")), Ok(()));
    let bytes = g.record_bytes().unwrap();
    assert_eq!(u32_at(bytes, OFF_CONTEXT_LEN), 2);
    assert_eq!(&bytes[OFF_CONTEXT..OFF_CONTEXT + 2], b"hi");
    // Bytes past the declared length are not cleared.
    assert_eq!(
        &bytes[OFF_CONTEXT + 2..OFF_CONTEXT + first.len()],
        &first[2..]
    );
}

#[test]
fn full_width_context_is_accepted() {
    let mut g = attached_guard(vec![0u8; RECORD_SIZE]);
    let blob = [0x5Au8; 256];
    assert_eq!(g.update(&bundle("Steve", &blob)), Ok(()));
    let bytes = g.record_bytes().unwrap();
    assert_eq!(u32_at(bytes, OFF_CONTEXT_LEN), 256);
    assert_eq!(&bytes[OFF_CONTEXT..OFF_CONTEXT + 256], &blob[..]);
}

#[test]
fn interior_nul_in_name_is_rejected() {
    let mut g = attached_guard(vec![0u8; RECORD_SIZE]);
    let before = g.record_bytes().unwrap().clone();
    let result = g.update(&bundle("Ste\0ve", b""));
    assert_eq!(result, Err(UpdateError::NameContainsNul));
    assert_eq!(g.record_bytes().unwrap(), &before);
}

#[test]
fn oversized_name_is_rejected() {
    let mut g = attached_guard(vec![0u8; RECORD_SIZE]);
    let before = g.record_bytes().unwrap().clone();
    let long = "a".repeat(300);
    let result = g.update(&bundle(&long, b""));
    assert_eq!(result, Err(UpdateError::NameTooLong));
    assert_eq!(g.record_bytes().unwrap(), &before);
}

#[test]
fn longest_fitting_name_is_accepted() {
    let mut g = attached_guard(vec![0u8; RECORD_SIZE]);
    let name = "a".repeat(255);
    assert_eq!(g.update(&bundle(&name, b"")), Ok(()));
    let units = units_at(g.record_bytes().unwrap(), OFF_IDENTITY, 256);
    assert_eq!(units, utf16_z(&name, 256));
    assert_eq!(units[255], 0);
}

#[test]
fn oversized_context_is_rejected() {
    let mut g = attached_guard(vec![0u8; RECORD_SIZE]);
    let before = g.record_bytes().unwrap().clone();
    let blob = vec![1u8; 257];
    let result = g.update(&bundle("Steve", &blob));
    assert_eq!(result, Err(UpdateError::ContextTooLong));
    assert_eq!(g.record_bytes().unwrap(), &before);
}

#[test]
fn empty_name_and_context_are_accepted() {
    let mut g = attached_guard(vec![0u8; RECORD_SIZE]);
    assert_eq!(g.update(&bundle("", b"")), Ok(()));
    let bytes = g.record_bytes().unwrap();
    assert_eq!(u32_at(bytes, OFF_CONTEXT_LEN), 0);
    assert!(units_at(bytes, OFF_IDENTITY, 256).iter().all(|&u| u == 0));
}

#[test]
fn segment_name_formats_the_user_id() {
    assert_eq!(segment_name(0), "/MumbleLink.0");
    assert_eq!(segment_name(7), "/MumbleLink.7");
    assert_eq!(segment_name(1000), "/MumbleLink.1000");
    assert_eq!(segment_name(u32::MAX), "/MumbleLink.4294967295");
}

#[test]
fn record_size_matches_the_wire_layout() {
    assert_eq!(RECORD_SIZE, OFF_DESCRIPTION + 2 * 2048);
    let g = attached_guard(vec![0u8; RECORD_SIZE]);
    assert_eq!(g.record_bytes().unwrap().len(), RECORD_SIZE);
}
