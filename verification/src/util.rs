//! Settings of a node that are kept in non-volatile storage.
use vstd::prelude::*;
use vstd::string::*;
use crate::text::{lowercase, str_eq, str_to_lowercase, trim, trimmed};

verus! {

/// The text names no setting.
#[derive(Clone, Copy, Debug, PartialEq, Eq, Structural)]
pub struct ParseSettingsError {}

/// A setting.
#[derive(Clone, Copy, Debug, PartialEq, Eq, Structural)]
pub enum Settings {
    CanId,
    CanReportInterval,
}

/// Why a storage key could not be written or read.
#[derive(Clone, Copy, Debug, PartialEq, Eq, Structural)]
pub enum SerializationError {
    BufferTooSmall,
    InvalidData,
}

/// The setting that a lowercase name without surrounding whitespace stands for.
pub open spec fn setting_named(name: Seq<char>) -> Result<Settings, ParseSettingsError> {
    if name == "canid"@ || name == "id"@ {
        Ok(Settings::CanId)
    } else if name == "canreportinterval"@ || name == "reportinterval"@ {
        Ok(Settings::CanReportInterval)
    } else {
        Err(ParseSettingsError {  })
    }
}

/// The number that stands for a setting in storage.
pub open spec fn setting_number(s: Settings) -> int {
    match s {
        Settings::CanId => 0,
        Settings::CanReportInterval => 1,
    }
}

/// The number of bytes of a key: those of a machine word.
pub open spec fn key_len() -> int {
    usize::BITS as int / 8
}

/// The key that stands for a number below 256: a machine word, little-endian.
pub open spec fn word_key(number: int) -> Seq<u8> {
    Seq::new(key_len() as nat, |i: int| if i == 0 { number as u8 } else { 0u8 })
}

/// The result of a fetch from storage; the default where nothing was found or the fetch failed.
pub open spec fn fetched_value(fetched: Result<Option<u32>, ()>, default: u32) -> u32 {
    match fetched {
        Ok(Some(v)) => v,
        _ => default,
    }
}

/// The value that was fetched from storage, or the default on any error.
pub fn fetched_or_default(fetched: Result<Option<u32>, ()>, default: u32) -> (v: u32)
    ensures
        v == fetched_value(fetched, default),
{
    match fetched {
        Ok(Some(v)) => v,
        _ => default,
    }
}

impl Settings {
    /// The setting with this name, which is lowercase and has no whitespace around it.
    pub fn from_name(name: &str) -> (r: Result<Settings, ParseSettingsError>)
        ensures
            r == setting_named(name@),
    {
        if str_eq(name, "canid") || str_eq(name, "id") {
            Ok(Settings::CanId)
        } else if str_eq(name, "canreportinterval") || str_eq(name, "reportinterval") {
            Ok(Settings::CanReportInterval)
        } else {
            Err(ParseSettingsError {  })
        }
    }

    /// The setting that a text names, in any case and with any whitespace around it.
    pub fn from_str(s: &str) -> (r: Result<Settings, ParseSettingsError>)
        ensures
            r == setting_named(trimmed(lowercase(s@))),
    {
        let lower = str_to_lowercase(s);
        let name = trim(lower.as_str());
        Settings::from_name(name.as_str())
    }

    /// Writes the storage key into the beginning of `buffer`, and returns its length.
    pub fn serialize_into(&self, buffer: &mut [u8]) -> (r: Result<usize, SerializationError>)
        ensures
            r == if old(buffer)@.len() < key_len() {
                Err(SerializationError::BufferTooSmall)
            } else {
                Ok::<usize, SerializationError>(key_len() as usize)
            },
            final(buffer)@ == if r is Ok {
                word_key(setting_number(*self)) + old(buffer)@.skip(key_len())
            } else {
                old(buffer)@
            },
    {
        let number: u8 = match *self {
            Settings::CanId => 0,
            Settings::CanReportInterval => 1,
        };
        let len: usize = (usize::BITS / 8) as usize;
        if buffer.len() < len {
            return Err(SerializationError::BufferTooSmall);
        }
        let mut i: usize = 0;
        while i < len
            invariant
                i <= len,
                len == key_len(),
                len <= buffer@.len(),
                buffer@.len() == old(buffer)@.len(),
                number == setting_number(*self),
                forall|j: int| 0 <= j < i ==> buffer@[j] == word_key(number as int)[j],
                forall|j: int| i <= j < buffer@.len() ==> buffer@[j] == old(buffer)@[j],
            decreases len - i,
        {
            buffer[i] = if i == 0 {
                number
            } else {
                0
            };
            i += 1;
        }
        proof {
            assert(buffer@ =~= word_key(setting_number(*self)) + old(buffer)@.skip(key_len()));
        }
        Ok(len)
    }

    /// Reads a storage key from the beginning of `buffer`, and returns it with its length.
    pub fn deserialize_from(buffer: &[u8]) -> (r: Result<(Settings, usize), SerializationError>)
        requires
            buffer@.len() >= key_len() ==> exists|s: Settings| #[trigger]
                word_key(setting_number(s)) == buffer@.take(key_len()),
        ensures
            r is Err <==> buffer@.len() < key_len(),
            r matches Err(e) ==> e == SerializationError::BufferTooSmall,
            r matches Ok(p) ==> p.1 == key_len() && word_key(setting_number(p.0)) == buffer@.take(
                key_len(),
            ),
    {
        let len: usize = (usize::BITS / 8) as usize;
        if buffer.len() < len {
            return Err(SerializationError::BufferTooSmall);
        }
        let ghost stored = choose|s: Settings| #[trigger]
            word_key(setting_number(s)) == buffer@.take(key_len());
        proof {
            assert(buffer@.take(key_len())[0] == word_key(setting_number(stored))[0]);
        }
        if buffer[0] == 0 {
            Ok((Settings::CanId, len))
        } else {
            Ok((Settings::CanReportInterval, len))
        }
    }

    /// The length of a storage key.
    pub fn get_len(buffer: &[u8]) -> (r: Result<usize, SerializationError>)
        ensures
            r == Ok::<usize, SerializationError>(key_len() as usize),
    {
        Ok((usize::BITS / 8) as usize)
    }
}

/// A key that was written is read back.
pub proof fn law_setting_key_is_read_back(s: Settings, rest: Seq<u8>, read: Settings)
    requires
        word_key(setting_number(read)) == (word_key(setting_number(s)) + rest).take(key_len()),
    ensures
        read == s,
{
    let key = word_key(setting_number(s));
    assert((key + rest).take(key_len()) =~= key);
    assert(key[0] == word_key(setting_number(read))[0]);
}

/// The names of the settings, and no others.
pub proof fn law_names_of_settings(name: Seq<char>)
    ensures
        setting_named(name) == Ok::<Settings, ParseSettingsError>(Settings::CanId) <==> name
            == "canid"@ || name == "id"@,
        setting_named(name) == Ok::<Settings, ParseSettingsError>(Settings::CanReportInterval)
            <==> (name == "canreportinterval"@ || name == "reportinterval"@),
        setting_named("canid"@) is Ok && setting_named("id"@) is Ok,
        setting_named(name) is Err <==> name != "canid"@ && name != "id"@ && name
            != "canreportinterval"@ && name != "reportinterval"@,
{
    reveal_strlit("canid");
    reveal_strlit("id");
    reveal_strlit("canreportinterval");
    reveal_strlit("reportinterval");
    assert("canid"@.len() == 5 && "id"@.len() == 2);
    assert("canreportinterval"@.len() == 17 && "reportinterval"@.len() == 14);
}

/// A key is a machine word, little-endian: 0 for the node ID and 1 for the report interval.
pub proof fn law_setting_key_layout(s: Settings)
    ensures
        8 * key_len() == usize::BITS,
        ({
            let key = word_key(setting_number(s));
            &&& 8 * key.len() == usize::BITS
            &&& key[0] == match s {
                Settings::CanId => 0u8,
                Settings::CanReportInterval => 1,
            }
            &&& forall|i: int| 1 <= i < key.len() ==> key[i] == 0
        }),
{
}

/// What was found counts; the default stands in for what was not found or could not be fetched.
pub proof fn law_default_stands_in(v: u32, default: u32)
    ensures
        fetched_value(Ok(Some(v)), default) == v,
        fetched_value(Ok(None), default) == default,
        fetched_value(Err(()), default) == default,
{
}

} // verus!
