//! NVS (non-volatile storage) settings for the shoulder sensor.
//!
//! Each variant of [`ShoulderSettings`] maps to a `u32` value:
//!
//! | Key              | Default | Description                                   |
//! |------------------|---------|-----------------------------------------------|
//! | `AngleSubjectId` | 6144    | Cyphal subject ID for angle publications      |
//! | `TempSubjectId`  | 6145    | Cyphal subject ID for temperature publications |
//! | `ZeroOffset`     | 0       | Zero-offset in radians (stored as `f32` bits) |
use vstd::prelude::*;
use crate::util::SerializationError;

verus! {

pub const DEFAULT_ANGLE_SUBJECT_ID: u16 = 6144;
pub const DEFAULT_TEMP_SUBJECT_ID: u16 = 6145;
/// Zero offset default: zero, as the bit pattern of a 32-bit float.
pub const DEFAULT_ZERO_OFFSET_BITS: u32 = 0;

/// Minimum vendor-specific Cyphal subject ID (inclusive).
pub const SUBJECT_ID_MIN: u16 = 6144;
/// Maximum vendor-specific Cyphal subject ID (inclusive).
pub const SUBJECT_ID_MAX: u16 = 7167;

/// Returns `true` if `id` is within the vendor-specific subject-ID range.
pub fn is_valid_subject_id(id: u16) -> (valid: bool)
    ensures
        valid == (SUBJECT_ID_MIN <= id <= SUBJECT_ID_MAX),
        valid == (6144 <= id <= 7167),
{
    id >= SUBJECT_ID_MIN && id <= SUBJECT_ID_MAX
}

/// NVS key variants for shoulder-sensor settings.
#[derive(Clone, Copy, Debug, PartialEq, Eq, Structural)]
pub enum ShoulderSettings {
    AngleSubjectId,
    TempSubjectId,
    ZeroOffset,
}

/// Bytes of a key.
pub const SHOULDER_KEY_LEN: usize = 4;

/// The number that stands for a key in storage.
pub open spec fn shoulder_number(s: ShoulderSettings) -> u8 {
    match s {
        ShoulderSettings::AngleSubjectId => 0,
        ShoulderSettings::TempSubjectId => 1,
        ShoulderSettings::ZeroOffset => 2,
    }
}

/// A key in storage: its number as a little-endian `u32`.
pub open spec fn shoulder_key(s: ShoulderSettings) -> Seq<u8> {
    seq![shoulder_number(s), 0u8, 0u8, 0u8]
}

impl ShoulderSettings {
    /// Writes the storage key into the beginning of `buffer`, and returns its length.
    pub fn serialize_into(&self, buffer: &mut [u8]) -> (r: Result<usize, SerializationError>)
        ensures
            r == if old(buffer)@.len() < SHOULDER_KEY_LEN {
                Err(SerializationError::BufferTooSmall)
            } else {
                Ok::<usize, SerializationError>(SHOULDER_KEY_LEN)
            },
            final(buffer)@ == if r is Ok {
                shoulder_key(*self) + old(buffer)@.skip(4)
            } else {
                old(buffer)@
            },
    {
        if buffer.len() < SHOULDER_KEY_LEN {
            return Err(SerializationError::BufferTooSmall);
        }
        let number: u8 = match *self {
            ShoulderSettings::AngleSubjectId => 0,
            ShoulderSettings::TempSubjectId => 1,
            ShoulderSettings::ZeroOffset => 2,
        };
        buffer[0] = number;
        buffer[1] = 0;
        buffer[2] = 0;
        buffer[3] = 0;
        proof {
            assert(buffer@ =~= shoulder_key(*self) + old(buffer)@.skip(4));
        }
        Ok(SHOULDER_KEY_LEN)
    }

    /// Reads a storage key from the beginning of `buffer`, and returns it with its length.
    pub fn deserialize_from(buffer: &[u8]) -> (r: Result<
        (ShoulderSettings, usize),
        SerializationError,
    >)
        ensures
            match r {
                Ok(p) => buffer@.len() >= 4 && p.1 == SHOULDER_KEY_LEN && buffer@.take(4)
                    == shoulder_key(p.0),
                Err(SerializationError::BufferTooSmall) => buffer@.len() < SHOULDER_KEY_LEN,
                Err(SerializationError::InvalidData) => buffer@.len() >= 4 && forall|
                    s: ShoulderSettings,
                |
                    buffer@.take(4) != #[trigger] shoulder_key(s),
            },
    {
        if buffer.len() < SHOULDER_KEY_LEN {
            return Err(SerializationError::BufferTooSmall);
        }
        let ghost head = buffer@.take(4);
        let high_clear = buffer[1] == 0 && buffer[2] == 0 && buffer[3] == 0;
        proof {
            assert forall|s: ShoulderSettings|
                head == #[trigger] shoulder_key(s) <==> buffer@[0] == shoulder_number(s)
                    && high_clear by {
                if buffer@[0] == shoulder_number(s) && high_clear {
                    assert(head =~= shoulder_key(s));
                }
            }
        }
        if high_clear && buffer[0] == 0 {
            proof {
                assert(head == shoulder_key(ShoulderSettings::AngleSubjectId));
            }
            Ok((ShoulderSettings::AngleSubjectId, SHOULDER_KEY_LEN))
        } else if high_clear && buffer[0] == 1 {
            proof {
                assert(head == shoulder_key(ShoulderSettings::TempSubjectId));
            }
            Ok((ShoulderSettings::TempSubjectId, SHOULDER_KEY_LEN))
        } else if high_clear && buffer[0] == 2 {
            proof {
                assert(head == shoulder_key(ShoulderSettings::ZeroOffset));
            }
            Ok((ShoulderSettings::ZeroOffset, SHOULDER_KEY_LEN))
        } else {
            Err(SerializationError::InvalidData)
        }
    }

    /// The length of a storage key.
    pub fn get_len(buffer: &[u8]) -> (r: Result<usize, SerializationError>)
        ensures
            r == Ok::<usize, SerializationError>(SHOULDER_KEY_LEN),
            r == Ok::<usize, SerializationError>(4),
    {
        Ok(SHOULDER_KEY_LEN)
    }
}

/// A key that was written is read back, whatever follows it.
pub proof fn law_shoulder_key_is_read_back(
    s: ShoulderSettings,
    rest: Seq<u8>,
    read: ShoulderSettings,
)
    requires
        (shoulder_key(s) + rest).take(4) == shoulder_key(read),
    ensures
        read == s,
{
    assert((shoulder_key(s) + rest).take(4)[0] == shoulder_number(s));
    assert(shoulder_key(read)[0] == shoulder_number(read));
}

/// A key takes four bytes, which are a little-endian number: 0, 1 and 2 for the angle, the
/// temperature and the zero offset.
pub proof fn law_shoulder_key_layout(s: ShoulderSettings)
    ensures
        ({
            let key = shoulder_key(s);
            &&& key.len() == 4 && SHOULDER_KEY_LEN == 4
            &&& key[0] == match s {
                ShoulderSettings::AngleSubjectId => 0u8,
                ShoulderSettings::TempSubjectId => 1,
                ShoulderSettings::ZeroOffset => 2,
            }
            &&& key[1] == 0 && key[2] == 0 && key[3] == 0
            &&& shoulder_number(s) == key[0]
        }),
{
}

} // verus!
