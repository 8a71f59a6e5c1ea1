//! The Link record and the per-tick update protocol.
//!
//! A [`LinkRecord`] is the byte image of one shared-memory record.
//! [`LinkRecord::apply_update`] carries one input bundle into the record:
//! one-time static initialization, the tick increment, the six pose vectors
//! (with the compatibility axis permutation), the identity string and the
//! context blob. [`update_rel`] is the exact relation between the record
//! before and after one successful update.

use crate::layout::{
    le16_at, le32_at, lemma_le16_range_stable, lemma_le32_stable, read_u32_at, write_bytes_field,
    write_u32_at, write_units_field, CONTEXT_BYTES, DESCRIPTION_UNITS, NAME_UNITS,
    OFF_AVATAR_FRONT, OFF_AVATAR_POSITION, OFF_AVATAR_TOP, OFF_CAMERA_FRONT, OFF_CAMERA_POSITION,
    OFF_CAMERA_TOP, OFF_CONTEXT, OFF_CONTEXT_LEN, OFF_DESCRIPTION, OFF_IDENTITY, OFF_NAME,
    OFF_TICK, OFF_VERSION,
};
use crate::wide::{encode_identity, identity_units, lemma_utf16_units_len, utf16_units};
use crate::RECORD_SIZE;
use vstd::prelude::*;

verus! {

/// The protocol version this library writes.
pub const SUPPORTED_VERSION: u32 = 2;

/// One pose vector in the game's (x, y, z) axis order. Each component is
/// the raw bit pattern of one IEEE-754 32-bit value; the library never
/// interprets the bits, it only places them.
#[derive(Clone, Copy, PartialEq, Eq, Structural, Debug)]
pub struct Vec3Bits {
    pub x: u32,
    pub y: u32,
    pub z: u32,
}

/// One structured input bundle, as handed in by the adapter layer on every
/// tick.
pub struct PoseBundle {
    pub avatar_position: Vec3Bits,
    pub avatar_front: Vec3Bits,
    pub avatar_top: Vec3Bits,
    pub camera_position: Vec3Bits,
    pub camera_front: Vec3Bits,
    pub camera_top: Vec3Bits,
    pub player_name: String,
    pub context: Vec<u8>,
}

/// Why an update call was rejected. A rejected update leaves the record
/// untouched.
#[derive(Clone, Copy, PartialEq, Eq, Structural, Debug)]
pub enum UpdateError {
    /// `update` was called on a guard with no stored handle: a successful
    /// `init` must come first.
    NotInitialized,
    /// The player name holds a nul character before its final position.
    NameContainsNul,
    /// The player name needs more UTF-16 units than the identity field holds.
    NameTooLong,
    /// The context blob is longer than the context field.
    ContextTooLong,
}

/// The protocol version field of a record image.
pub open spec fn version_of(r: Seq<u8>) -> u32 {
    le32_at(r, OFF_VERSION as int)
}

/// The tick counter field of a record image.
pub open spec fn tick_of(r: Seq<u8>) -> u32 {
    le32_at(r, OFF_TICK as int)
}

/// The three stored 32-bit components of a vector field, in storage order.
pub open spec fn stored_vec3(r: Seq<u8>, off: int) -> (u32, u32, u32) {
    (le32_at(r, off), le32_at(r, off + 4), le32_at(r, off + 8))
}

/// The avatar position field, in storage order.
pub open spec fn avatar_position_of(r: Seq<u8>) -> (u32, u32, u32) {
    stored_vec3(r, OFF_AVATAR_POSITION as int)
}

/// The avatar front field, in storage order.
pub open spec fn avatar_front_of(r: Seq<u8>) -> (u32, u32, u32) {
    stored_vec3(r, OFF_AVATAR_FRONT as int)
}

/// The avatar top field, in storage order.
pub open spec fn avatar_top_of(r: Seq<u8>) -> (u32, u32, u32) {
    stored_vec3(r, OFF_AVATAR_TOP as int)
}

/// The camera position field, in storage order.
pub open spec fn camera_position_of(r: Seq<u8>) -> (u32, u32, u32) {
    stored_vec3(r, OFF_CAMERA_POSITION as int)
}

/// The camera front field, in storage order.
pub open spec fn camera_front_of(r: Seq<u8>) -> (u32, u32, u32) {
    stored_vec3(r, OFF_CAMERA_FRONT as int)
}

/// The camera top field, in storage order.
pub open spec fn camera_top_of(r: Seq<u8>) -> (u32, u32, u32) {
    stored_vec3(r, OFF_CAMERA_TOP as int)
}

/// The application name field as 256 UTF-16 units.
pub open spec fn name_units_of(r: Seq<u8>) -> Seq<u16> {
    Seq::new(NAME_UNITS as nat, |j: int| le16_at(r, OFF_NAME + 2 * j))
}

/// The identity (player name) field as 256 UTF-16 units.
pub open spec fn identity_units_of(r: Seq<u8>) -> Seq<u16> {
    Seq::new(NAME_UNITS as nat, |j: int| le16_at(r, OFF_IDENTITY + 2 * j))
}

/// The description field as 2048 UTF-16 units.
pub open spec fn description_units_of(r: Seq<u8>) -> Seq<u16> {
    Seq::new(DESCRIPTION_UNITS as nat, |j: int| le16_at(r, OFF_DESCRIPTION + 2 * j))
}

/// The context length field of a record image.
pub open spec fn context_len_of(r: Seq<u8>) -> u32 {
    le32_at(r, OFF_CONTEXT_LEN as int)
}

/// The 256 raw bytes of the context field.
pub open spec fn context_bytes_of(r: Seq<u8>) -> Seq<u8> {
    r.subrange(OFF_CONTEXT as int, OFF_CONTEXT + CONTEXT_BYTES)
}

/// The stored image of an input vector: the second and third components
/// are swapped, a deliberate compatibility fix for a coordinate-order
/// defect in a deployed consumer. It must be preserved, not corrected.
pub open spec fn permuted(v: Vec3Bits) -> (u32, u32, u32) {
    (v.x, v.z, v.y)
}

/// `us` followed by zero units up to a field width of `n` units.
pub open spec fn padded_units(us: Seq<u16>, n: int) -> Seq<u16>
    recommends
        us.len() <= n,
{
    us + Seq::new((n - us.len()) as nat, |i: int| 0u16)
}

/// The tick counter after one update: incremented by one, wrapping on
/// overflow.
pub open spec fn wrap_inc(t: u32) -> u32 {
    if t == 0xFFFF_FFFFu32 {
        0u32
    } else {
        (t + 1) as u32
    }
}

/// The application name written once into the record.
pub open spec fn application_name() -> Seq<char> {
    "Minecraft"@
}

/// The application description written once into the record.
pub open spec fn application_description() -> Seq<char> {
    "Mumble Link implementation for Lunar Client."@
}

/// Which inputs an update accepts, and the error each rejected input
/// gives. The checks run before any write, so a rejected bundle leaves the
/// record untouched.
pub open spec fn validate_bundle(b: PoseBundle) -> Result<(), UpdateError> {
    if exists|i: int| 0 <= i < b.player_name@.len() - 1 && b.player_name@[i] == '\0' {
        Err(UpdateError::NameContainsNul)
    } else if identity_units(b.player_name@).len() >= NAME_UNITS {
        Err(UpdateError::NameTooLong)
    } else if b.context@.len() > CONTEXT_BYTES {
        Err(UpdateError::ContextTooLong)
    } else {
        Ok(())
    }
}

/// How one successful update changes the record image.
///
/// - The protocol version is 2 afterwards; the static name and description
///   fields are written exactly when the version was not yet 2, and kept
///   byte-identical otherwise.
/// - The tick counter is incremented by one, wrapping on overflow.
/// - Each of the six pose vectors stores the input's components in
///   (x, z, y) order.
/// - The identity field holds the player name's UTF-16 units, zero-padded
///   to its full width, so no residue of an earlier name survives.
/// - The context length equals the blob's byte count; the blob's bytes are
///   stored and the bytes beyond them keep their prior values.
pub open spec fn update_rel(prev: Seq<u8>, b: PoseBundle, next: Seq<u8>) -> bool {
    &&& next.len() == RECORD_SIZE
    &&& version_of(next) == SUPPORTED_VERSION
    &&& tick_of(next) == wrap_inc(tick_of(prev))
    &&& avatar_position_of(next) == permuted(b.avatar_position)
    &&& avatar_front_of(next) == permuted(b.avatar_front)
    &&& avatar_top_of(next) == permuted(b.avatar_top)
    &&& camera_position_of(next) == permuted(b.camera_position)
    &&& camera_front_of(next) == permuted(b.camera_front)
    &&& camera_top_of(next) == permuted(b.camera_top)
    &&& identity_units_of(next) == padded_units(
        identity_units(b.player_name@),
        NAME_UNITS as int,
    )
    &&& context_len_of(next) == b.context@.len()
    &&& context_bytes_of(next).subrange(0, b.context@.len() as int) == b.context@
    &&& context_bytes_of(next).skip(b.context@.len() as int) == context_bytes_of(prev).skip(
        b.context@.len() as int,
    )
    &&& if version_of(prev) != SUPPORTED_VERSION {
        &&& name_units_of(next) == padded_units(
            utf16_units(application_name()),
            NAME_UNITS as int,
        )
        &&& description_units_of(next) == padded_units(
            utf16_units(application_description()),
            DESCRIPTION_UNITS as int,
        )
    } else {
        &&& name_units_of(next) == name_units_of(prev)
        &&& description_units_of(next) == description_units_of(prev)
    }
}

/// The byte image of one mapped Link record.
pub struct LinkRecord {
    bytes: Vec<u8>,
}

impl View for LinkRecord {
    type V = Seq<u8>;

    closed spec fn view(&self) -> Seq<u8> {
        self.bytes@
    }
}

impl LinkRecord {
    /// A record image has exactly the record's size.
    pub open spec fn wf(&self) -> bool {
        self@.len() == RECORD_SIZE
    }

    /// Wrap the current bytes of a mapped record.
    pub fn from_bytes(bytes: Vec<u8>) -> (r: LinkRecord)
        requires
            bytes@.len() == RECORD_SIZE,
        ensures
            r@ == bytes@,
            r.wf(),
    {
        LinkRecord { bytes }
    }

    /// The record's byte image, for the caller to publish.
    pub fn bytes(&self) -> (r: &Vec<u8>)
        ensures
            r@ == self@,
    {
        &self.bytes
    }

    /// Carry one input bundle into the record.
    ///
    /// On acceptance the record afterwards relates to the record before by
    /// [`update_rel`]; a rejected bundle returns the error
    /// [`validate_bundle`] gives and leaves the record untouched.
    pub fn apply_update(&mut self, bundle: &PoseBundle) -> (r: Result<(), UpdateError>)
        requires
            old(self).wf(),
        ensures
            final(self).wf(),
            validate_bundle(*bundle) is Ok ==> r is Ok && update_rel(
                old(self)@,
                *bundle,
                final(self)@,
            ),
            validate_bundle(*bundle) is Err ==> r == validate_bundle(*bundle) && final(self)@
                == old(self)@,
    {
        let units = match encode_identity(bundle.player_name.as_str()) {
            Some(u) => u,
            None => {
                return Err(UpdateError::NameContainsNul);
            },
        };
        if units.len() >= NAME_UNITS {
            return Err(UpdateError::NameTooLong);
        }
        if bundle.context.len() > CONTEXT_BYTES {
            return Err(UpdateError::ContextTooLong);
        }
        let ghost b0 = self.bytes@;

        let version = read_u32_at(&self.bytes, OFF_VERSION);
        if version != SUPPORTED_VERSION {
            write_static(&mut self.bytes);
        }
        let ghost b1 = self.bytes@;

        let tick = read_u32_at(&self.bytes, OFF_TICK);
        let next_tick: u32 = if tick == 0xFFFF_FFFF {
            0
        } else {
            tick + 1
        };
        write_u32_at(&mut self.bytes, OFF_TICK, next_tick);
        let ghost b2 = self.bytes@;

        write_pose(&mut self.bytes, bundle);
        let ghost b3 = self.bytes@;

        write_units_field(&mut self.bytes, OFF_IDENTITY, &units, NAME_UNITS);
        let ghost b4 = self.bytes@;

        write_bytes_field(&mut self.bytes, OFF_CONTEXT, &bundle.context);
        let ghost b5 = self.bytes@;

        write_u32_at(&mut self.bytes, OFF_CONTEXT_LEN, bundle.context.len() as u32);
        let ghost b6 = self.bytes@;

        proof {
            lemma_apply_update_fields(b0, b1, b2, b3, b4, b5, b6, *bundle, units@, next_tick);
        }
        Ok(())
    }
}

/// Write the static application name, description and protocol version.
/// Every byte outside those three fields keeps its value.
fn write_static(buf: &mut Vec<u8>)
    requires
        old(buf).len() == RECORD_SIZE,
    ensures
        final(buf).len() == RECORD_SIZE,
        version_of(final(buf)@) == SUPPORTED_VERSION,
        name_units_of(final(buf)@) == padded_units(
            utf16_units(application_name()),
            NAME_UNITS as int,
        ),
        description_units_of(final(buf)@) == padded_units(
            utf16_units(application_description()),
            DESCRIPTION_UNITS as int,
        ),
        forall|i: int|
            0 <= i < RECORD_SIZE && !(OFF_VERSION <= i < OFF_VERSION + 4) && !(OFF_NAME <= i
                < OFF_NAME + 2 * NAME_UNITS) && !(OFF_DESCRIPTION <= i < OFF_DESCRIPTION + 2
                * DESCRIPTION_UNITS) ==> final(buf)@[i] == old(buf)@[i],
{
    proof {
        reveal_strlit("Minecraft");
        reveal_strlit("Mumble Link implementation for Lunar Client.");
        lemma_utf16_units_len(application_name());
        lemma_utf16_units_len(application_description());
    }
    let name_units = match encode_identity("Minecraft") {
        Some(u) => u,
        None => unreached(),
    };
    let description_units = match encode_identity("Mumble Link implementation for Lunar Client.") {
        Some(u) => u,
        None => unreached(),
    };
    write_units_field(buf, OFF_NAME, &name_units, NAME_UNITS);
    let ghost s1 = buf@;
    write_units_field(buf, OFF_DESCRIPTION, &description_units, DESCRIPTION_UNITS);
    let ghost s2 = buf@;
    write_u32_at(buf, OFF_VERSION, SUPPORTED_VERSION);
    proof {
        assert forall|i: int| OFF_NAME <= i < OFF_NAME + 2 * NAME_UNITS implies buf@[i]
            == s1[i] by {
            assert(s2[i] == s1[i]);
        }
        lemma_le16_range_stable(buf@, s1, OFF_NAME as int, NAME_UNITS as int);
        lemma_le16_range_stable(buf@, s2, OFF_DESCRIPTION as int, DESCRIPTION_UNITS as int);
        assert(name_units_of(buf@) =~= padded_units(
            utf16_units(application_name()),
            NAME_UNITS as int,
        ));
        assert(description_units_of(buf@) =~= padded_units(
            utf16_units(application_description()),
            DESCRIPTION_UNITS as int,
        ));
    }
}

/// Write the six pose vectors, each with the compatibility permutation.
/// Every byte outside the two vector blocks keeps its value.
fn write_pose(buf: &mut Vec<u8>, bundle: &PoseBundle)
    requires
        old(buf).len() == RECORD_SIZE,
    ensures
        final(buf).len() == RECORD_SIZE,
        avatar_position_of(final(buf)@) == permuted(bundle.avatar_position),
        avatar_front_of(final(buf)@) == permuted(bundle.avatar_front),
        avatar_top_of(final(buf)@) == permuted(bundle.avatar_top),
        camera_position_of(final(buf)@) == permuted(bundle.camera_position),
        camera_front_of(final(buf)@) == permuted(bundle.camera_front),
        camera_top_of(final(buf)@) == permuted(bundle.camera_top),
        forall|i: int|
            0 <= i < RECORD_SIZE && !(OFF_AVATAR_POSITION <= i < OFF_AVATAR_POSITION + 36) && !(
            OFF_CAMERA_POSITION <= i < OFF_CAMERA_POSITION + 36) ==> final(buf)@[i] == old(
                buf,
            )@[i],
{
    write_vec3(buf, OFF_AVATAR_POSITION, bundle.avatar_position);
    let ghost s1 = buf@;
    write_vec3(buf, OFF_AVATAR_FRONT, bundle.avatar_front);
    let ghost s2 = buf@;
    write_vec3(buf, OFF_AVATAR_TOP, bundle.avatar_top);
    let ghost s3 = buf@;
    write_vec3(buf, OFF_CAMERA_POSITION, bundle.camera_position);
    let ghost s4 = buf@;
    write_vec3(buf, OFF_CAMERA_FRONT, bundle.camera_front);
    let ghost s5 = buf@;
    write_vec3(buf, OFF_CAMERA_TOP, bundle.camera_top);
    proof {
        assert forall|i: int| OFF_AVATAR_POSITION <= i < OFF_AVATAR_POSITION + 12 implies buf@[i]
            == s1[i] by {
            assert(s2[i] == s1[i]);
            assert(s3[i] == s2[i]);
            assert(s4[i] == s3[i]);
            assert(s5[i] == s4[i]);
        }
        lemma_vec3_stable(buf@, s1, OFF_AVATAR_POSITION as int);
        assert forall|i: int| OFF_AVATAR_FRONT <= i < OFF_AVATAR_FRONT + 12 implies buf@[i]
            == s2[i] by {
            assert(s3[i] == s2[i]);
            assert(s4[i] == s3[i]);
            assert(s5[i] == s4[i]);
        }
        lemma_vec3_stable(buf@, s2, OFF_AVATAR_FRONT as int);
        assert forall|i: int| OFF_AVATAR_TOP <= i < OFF_AVATAR_TOP + 12 implies buf@[i]
            == s3[i] by {
            assert(s4[i] == s3[i]);
            assert(s5[i] == s4[i]);
        }
        lemma_vec3_stable(buf@, s3, OFF_AVATAR_TOP as int);
        assert forall|i: int| OFF_CAMERA_POSITION <= i < OFF_CAMERA_POSITION + 12 implies buf@[i]
            == s4[i] by {
            assert(s5[i] == s4[i]);
        }
        lemma_vec3_stable(buf@, s4, OFF_CAMERA_POSITION as int);
        lemma_vec3_stable(buf@, s5, OFF_CAMERA_FRONT as int);
    }
}

/// A vector field is unchanged between two equal-length buffers that
/// agree on its twelve bytes.
proof fn lemma_vec3_stable(a: Seq<u8>, b: Seq<u8>, off: int)
    requires
        a.len() == b.len(),
        0 <= off,
        off + 12 <= a.len(),
        forall|i: int| off <= i < off + 12 ==> a[i] == b[i],
    ensures
        stored_vec3(a, off) == stored_vec3(b, off),
{
    lemma_le32_stable(a, b, off);
    lemma_le32_stable(a, b, off + 4);
    lemma_le32_stable(a, b, off + 8);
}

/// Write one vector's components at `off` in (x, z, y) order. Every byte
/// outside the twelve written keeps its value.
fn write_vec3(buf: &mut Vec<u8>, off: usize, v: Vec3Bits)
    requires
        off + 12 <= old(buf).len(),
    ensures
        final(buf).len() == old(buf).len(),
        stored_vec3(final(buf)@, off as int) == permuted(v),
        forall|i: int|
            0 <= i < old(buf).len() && !(off <= i < off + 12) ==> final(buf)@[i] == old(buf)@[i],
{
    write_u32_at(buf, off, v.x);
    let ghost s1 = buf@;
    write_u32_at(buf, off + 4, v.z);
    let ghost s2 = buf@;
    write_u32_at(buf, off + 8, v.y);
    proof {
        assert forall|i: int| off <= i < off + 4 implies buf@[i] == s1[i] by {
            assert(s2[i] == s1[i]);
        }
        lemma_le32_stable(buf@, s1, off as int);
        lemma_le32_stable(buf@, s2, off + 4);
    }
}

/// Assemble [`update_rel`] from the per-phase images of one accepted
/// update: `b0` before the update, `b1` after the static fields, `b2`
/// after the tick, `b3` after the pose vectors, `b4` after the identity,
/// `b5` after the context bytes, `b6` after the context length.
#[verifier::rlimit(60)]
proof fn lemma_apply_update_fields(
    b0: Seq<u8>,
    b1: Seq<u8>,
    b2: Seq<u8>,
    b3: Seq<u8>,
    b4: Seq<u8>,
    b5: Seq<u8>,
    b6: Seq<u8>,
    bundle: PoseBundle,
    units: Seq<u16>,
    next_tick: u32,
)
    requires
        b0.len() == RECORD_SIZE,
        b1.len() == RECORD_SIZE,
        b2.len() == RECORD_SIZE,
        b3.len() == RECORD_SIZE,
        b4.len() == RECORD_SIZE,
        b5.len() == RECORD_SIZE,
        b6.len() == RECORD_SIZE,
        units == identity_units(bundle.player_name@),
        units.len() < NAME_UNITS,
        bundle.context@.len() <= CONTEXT_BYTES,
        // static phase
        version_of(b0) == SUPPORTED_VERSION ==> b1 == b0,
        version_of(b0) != SUPPORTED_VERSION ==> {
            &&& version_of(b1) == SUPPORTED_VERSION
            &&& name_units_of(b1) == padded_units(
                utf16_units(application_name()),
                NAME_UNITS as int,
            )
            &&& description_units_of(b1) == padded_units(
                utf16_units(application_description()),
                DESCRIPTION_UNITS as int,
            )
            &&& forall|i: int|
                0 <= i < RECORD_SIZE && !(OFF_VERSION <= i < OFF_VERSION + 4) && !(OFF_NAME <= i
                    < OFF_NAME + 2 * NAME_UNITS) && !(OFF_DESCRIPTION <= i < OFF_DESCRIPTION + 2
                    * DESCRIPTION_UNITS) ==> b1[i] == b0[i]
        },
        // tick phase
        next_tick == wrap_inc(tick_of(b1)),
        le32_at(b2, OFF_TICK as int) == next_tick,
        forall|i: int| 0 <= i < RECORD_SIZE && !(OFF_TICK <= i < OFF_TICK + 4) ==> b2[i] == b1[i],
        // pose phase
        avatar_position_of(b3) == permuted(bundle.avatar_position),
        avatar_front_of(b3) == permuted(bundle.avatar_front),
        avatar_top_of(b3) == permuted(bundle.avatar_top),
        camera_position_of(b3) == permuted(bundle.camera_position),
        camera_front_of(b3) == permuted(bundle.camera_front),
        camera_top_of(b3) == permuted(bundle.camera_top),
        forall|i: int|
            0 <= i < RECORD_SIZE && !(OFF_AVATAR_POSITION <= i < OFF_AVATAR_POSITION + 36) && !(
            OFF_CAMERA_POSITION <= i < OFF_CAMERA_POSITION + 36) ==> b3[i] == b2[i],
        // identity phase
        forall|j: int|
            0 <= j < NAME_UNITS ==> #[trigger] le16_at(b4, OFF_IDENTITY + 2 * j) == (if j
                < units.len() {
                units[j]
            } else {
                0u16
            }),
        forall|i: int|
            0 <= i < RECORD_SIZE && !(OFF_IDENTITY <= i < OFF_IDENTITY + 2 * NAME_UNITS) ==> b4[i]
                == b3[i],
        // context bytes phase
        forall|j: int| 0 <= j < bundle.context@.len() ==> b5[OFF_CONTEXT + j] == bundle.context@[j],
        forall|i: int|
            0 <= i < RECORD_SIZE && !(OFF_CONTEXT <= i < OFF_CONTEXT + bundle.context@.len())
                ==> b5[i] == b4[i],
        // context length phase
        le32_at(b6, OFF_CONTEXT_LEN as int) == bundle.context@.len() as u32,
        forall|i: int|
            0 <= i < RECORD_SIZE && !(OFF_CONTEXT_LEN <= i < OFF_CONTEXT_LEN + 4) ==> b6[i]
                == b5[i],
    ensures
        update_rel(b0, bundle, b6),
{
    // Version: bytes [0, 4) are untouched after the static phase.
    assert forall|i: int| OFF_VERSION <= i < OFF_VERSION + 4 implies b6[i] == b1[i] by {
        assert(b2[i] == b1[i]);
        assert(b3[i] == b2[i]);
        assert(b4[i] == b3[i]);
        assert(b5[i] == b4[i]);
    }
    lemma_le32_stable(b6, b1, OFF_VERSION as int);

    // Tick: bytes [4, 8) are untouched after the tick phase, and the tick
    // field survived the static phase.
    assert forall|i: int| OFF_TICK <= i < OFF_TICK + 4 implies b6[i] == b2[i] by {
        assert(b3[i] == b2[i]);
        assert(b4[i] == b3[i]);
        assert(b5[i] == b4[i]);
    }
    lemma_le32_stable(b6, b2, OFF_TICK as int);
    assert forall|i: int| OFF_TICK <= i < OFF_TICK + 4 implies b1[i] == b0[i] by {}
    lemma_le32_stable(b1, b0, OFF_TICK as int);

    // Pose vectors: their bytes are untouched after the pose phase.
    assert forall|i: int|
        (OFF_AVATAR_POSITION <= i < OFF_AVATAR_POSITION + 36) || (OFF_CAMERA_POSITION <= i
            < OFF_CAMERA_POSITION + 36) implies b6[i] == b3[i] by {
        assert(b4[i] == b3[i]);
        assert(b5[i] == b4[i]);
    }
    lemma_le32_stable(b6, b3, OFF_AVATAR_POSITION as int);
    lemma_le32_stable(b6, b3, OFF_AVATAR_POSITION + 4);
    lemma_le32_stable(b6, b3, OFF_AVATAR_POSITION + 8);
    lemma_le32_stable(b6, b3, OFF_AVATAR_FRONT as int);
    lemma_le32_stable(b6, b3, OFF_AVATAR_FRONT + 4);
    lemma_le32_stable(b6, b3, OFF_AVATAR_FRONT + 8);
    lemma_le32_stable(b6, b3, OFF_AVATAR_TOP as int);
    lemma_le32_stable(b6, b3, OFF_AVATAR_TOP + 4);
    lemma_le32_stable(b6, b3, OFF_AVATAR_TOP + 8);
    lemma_le32_stable(b6, b3, OFF_CAMERA_POSITION as int);
    lemma_le32_stable(b6, b3, OFF_CAMERA_POSITION + 4);
    lemma_le32_stable(b6, b3, OFF_CAMERA_POSITION + 8);
    lemma_le32_stable(b6, b3, OFF_CAMERA_FRONT as int);
    lemma_le32_stable(b6, b3, OFF_CAMERA_FRONT + 4);
    lemma_le32_stable(b6, b3, OFF_CAMERA_FRONT + 8);
    lemma_le32_stable(b6, b3, OFF_CAMERA_TOP as int);
    lemma_le32_stable(b6, b3, OFF_CAMERA_TOP + 4);
    lemma_le32_stable(b6, b3, OFF_CAMERA_TOP + 8);

    // Identity: its bytes are untouched after the identity phase.
    assert forall|i: int| OFF_IDENTITY <= i < OFF_IDENTITY + 2 * NAME_UNITS implies b6[i]
        == b4[i] by {
        assert(b5[i] == b4[i]);
    }
    lemma_le16_range_stable(b6, b4, OFF_IDENTITY as int, NAME_UNITS as int);
    assert(identity_units_of(b6) =~= padded_units(
        identity_units(bundle.player_name@),
        NAME_UNITS as int,
    ));

    // Context bytes: untouched after their phase; the tail survives from b0.
    assert forall|i: int| OFF_CONTEXT <= i < OFF_CONTEXT + CONTEXT_BYTES implies b6[i]
        == b5[i] by {}
    assert forall|i: int|
        OFF_CONTEXT + bundle.context@.len() <= i < OFF_CONTEXT + CONTEXT_BYTES implies b5[i]
        == b0[i] by {
        assert(b1[i] == b0[i]);
        assert(b2[i] == b1[i]);
        assert(b3[i] == b2[i]);
        assert(b4[i] == b3[i]);
    }
    assert(context_bytes_of(b6).subrange(0, bundle.context@.len() as int) =~= bundle.context@);
    assert(context_bytes_of(b6).skip(bundle.context@.len() as int) =~= context_bytes_of(b0).skip(
        bundle.context@.len() as int,
    ));

    // Static fields: untouched after the static phase.
    assert forall|i: int|
        (OFF_NAME <= i < OFF_NAME + 2 * NAME_UNITS) || (OFF_DESCRIPTION <= i < OFF_DESCRIPTION + 2
            * DESCRIPTION_UNITS) implies b6[i] == b1[i] by {
        assert(b2[i] == b1[i]);
        assert(b3[i] == b2[i]);
        assert(b4[i] == b3[i]);
        assert(b5[i] == b4[i]);
    }
    lemma_le16_range_stable(b6, b1, OFF_NAME as int, NAME_UNITS as int);
    lemma_le16_range_stable(b6, b1, OFF_DESCRIPTION as int, DESCRIPTION_UNITS as int);
    assert(name_units_of(b6) =~= name_units_of(b1));
    assert(description_units_of(b6) =~= description_units_of(b1));
    if version_of(b0) == SUPPORTED_VERSION {
        assert(name_units_of(b6) == name_units_of(b0));
        assert(description_units_of(b6) == description_units_of(b0));
    }
}

} // verus!
