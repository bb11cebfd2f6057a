//! Node information builder for `uavcan.node.GetInfo`.
//!
//! # Defaults (when not explicitly overridden)
//! | Field | Default |
//! |---|---|
//! | `name` | the package name given to [`NodeInfoConfig::build_with_env`] |
//! | `software_version.major` | parsed from the package's major version |
//! | `software_version.minor` | parsed from the package's minor version |
//! | `software_vcs_revision_id` | `0` |
//! | `hardware_version` | `{ major: 1, minor: 0 }` |
//! | `protocol_version` | `{ major: 1, minor: 0 }` (fixed) |
//! | `unique_id` | required — must be provided via [`NodeInfoConfig::new`] |
use vstd::prelude::*;
use vstd::slice::slice_to_vec;
use vstd::string::*;
use crate::byte_buf::ByteBuf;
use crate::text::{
    digits_value, parse_decimal, parse_hexadecimal, parsed_decimal, parsed_hexadecimal,
};

verus! {

/// Longest node name of `uavcan.node.GetInfo.1.0`.
pub const NODE_NAME_MAX: usize = 50;

/// `uavcan.node.Version.1.0`.
#[derive(Clone, Copy, Debug, PartialEq, Eq, Structural)]
pub struct Version {
    pub major: u8,
    pub minor: u8,
}

/// `uavcan.node.GetInfo.1.0` response.
#[derive(Debug)]
pub struct GetInfoResponse {
    pub protocol_version: Version,
    pub hardware_version: Version,
    pub software_version: Version,
    pub software_vcs_revision_id: u64,
    pub unique_id: [u8; 16],
    pub name: Vec<u8>,
    pub software_image_crc: Vec<u64>,
    pub certificate_of_authenticity: Vec<u8>,
}

/// Builder for [`GetInfoResponse`].
///
/// All fields have sensible defaults; override only what you need.
#[derive(Clone, Copy, Debug)]
pub struct NodeInfoConfig {
    pub unique_id: [u8; 16],
    pub name: Option<&'static str>,
    pub software_version: Option<(u8, u8)>,
    pub hardware_version: Option<(u8, u8)>,
    pub vcs_revision_id: Option<u64>,
}

/// The version number in a string; zero where it holds none.
pub open spec fn version_number(s: Seq<char>) -> int {
    match parsed_decimal(s, 255) {
        Some(v) => v,
        None => 0,
    }
}

fn parse_version_number(s: &str) -> (v: u8)
    ensures
        v == version_number(s@),
{
    match parse_decimal(s, 255) {
        Some(v) => v as u8,
        None => 0,
    }
}

/// The revision ID in a short commit hash; zero where there is no hash or it is no number.
pub open spec fn revision_id(hash: Option<&str>) -> int {
    match hash {
        Some(h) => match parsed_hexadecimal(h@, u64::MAX as int) {
            Some(v) => v,
            None => 0,
        },
        None => 0,
    }
}

/// The VCS revision ID for a short commit hash, which is a hexadecimal number.
pub fn revision_of(hash: Option<&str>) -> (id: u64)
    ensures
        id == revision_id(hash),
{
    match hash {
        Some(h) => match parse_hexadecimal(h, u64::MAX) {
            Some(id) => id,
            None => 0,
        },
        None => 0,
    }
}

/// The bytes of a node name that fit: all of them, or none where the name is too long.
pub open spec fn fitted_name(name: Seq<u8>) -> Seq<u8> {
    if name.len() <= NODE_NAME_MAX {
        name
    } else {
        Seq::empty()
    }
}

impl NodeInfoConfig {
    /// Create a builder with the required 16-byte unique device ID.
    ///
    /// All other fields use defaults until explicitly set.
    pub fn new(unique_id: [u8; 16]) -> (c: NodeInfoConfig)
        ensures
            c == (NodeInfoConfig {
                unique_id,
                name: None,
                software_version: None,
                hardware_version: None,
                vcs_revision_id: None,
            }),
    {
        NodeInfoConfig {
            unique_id,
            name: None,
            software_version: None,
            hardware_version: None,
            vcs_revision_id: None,
        }
    }

    /// Set the node name (e.g. `"my-device"`).
    pub fn with_name(self, name: &'static str) -> (c: NodeInfoConfig)
        ensures
            c == (NodeInfoConfig { name: Some(name), ..self }),
    {
        let mut c = self;
        c.name = Some(name);
        c
    }

    /// Set the software version (`major`, `minor`).
    pub fn with_software_version(self, major: u8, minor: u8) -> (c: NodeInfoConfig)
        ensures
            c == (NodeInfoConfig { software_version: Some((major, minor)), ..self }),
    {
        let mut c = self;
        c.software_version = Some((major, minor));
        c
    }

    /// Set the software version from string slices.
    ///
    /// Non-numeric strings silently default to `0`.
    pub fn with_software_version_str(self, major: &str, minor: &str) -> (c: NodeInfoConfig)
        ensures
            c == (NodeInfoConfig {
                software_version: Some(
                    (version_number(major@) as u8, version_number(minor@) as u8),
                ),
                ..self
            }),
            version_number(major@) <= 255,
            version_number(minor@) <= 255,
    {
        let maj: u8 = parse_version_number(major);
        let min: u8 = parse_version_number(minor);
        let mut c = self;
        c.software_version = Some((maj, min));
        c
    }

    /// Set the hardware version (`major`, `minor`).
    pub fn with_hardware_version(self, major: u8, minor: u8) -> (c: NodeInfoConfig)
        ensures
            c == (NodeInfoConfig { hardware_version: Some((major, minor)), ..self }),
    {
        let mut c = self;
        c.hardware_version = Some((major, minor));
        c
    }

    /// Set the VCS (git) revision ID, typically the short commit hash as a `u64`.
    pub fn with_vcs_revision_id(self, id: u64) -> (c: NodeInfoConfig)
        ensures
            c == (NodeInfoConfig { vcs_revision_id: Some(id), ..self }),
    {
        let mut c = self;
        c.vcs_revision_id = Some(id);
        c
    }

    /// Build the [`GetInfoResponse`].
    ///
    /// Uses the given package name and version for any fields not explicitly set.
    pub fn build_with_env(
        self,
        pkg_name: &'static str,
        version_major: &'static str,
        version_minor: &'static str,
    ) -> (info: GetInfoResponse)
        ensures
            info.protocol_version == (Version { major: 1, minor: 0 }),
            info.hardware_version == match self.hardware_version {
                Some(v) => Version { major: v.0, minor: v.1 },
                None => Version { major: 1, minor: 0 },
            },
            info.software_version == match self.software_version {
                Some(v) => Version { major: v.0, minor: v.1 },
                None => Version {
                    major: version_number(version_major@) as u8,
                    minor: version_number(version_minor@) as u8,
                },
            },
            version_number(version_major@) <= 255,
            version_number(version_minor@) <= 255,
            info.software_vcs_revision_id == match self.vcs_revision_id {
                Some(id) => id,
                None => 0,
            },
            info.unique_id == self.unique_id,
            info.name@ == fitted_name(
                match self.name {
                    Some(name) => name.spec_bytes(),
                    None => pkg_name.spec_bytes(),
                },
            ),
            info.software_image_crc@.len() == 0,
            info.certificate_of_authenticity@.len() == 0,
    {
        let name_str: &'static str = match self.name {
            Some(name) => name,
            None => pkg_name,
        };
        let default_major: u8 = parse_version_number(version_major);
        let default_minor: u8 = parse_version_number(version_minor);
        let (sw_major, sw_minor): (u8, u8) = match self.software_version {
            Some(v) => v,
            None => (default_major, default_minor),
        };
        let (hw_major, hw_minor): (u8, u8) = match self.hardware_version {
            Some(v) => v,
            None => (1, 0),
        };
        let mut node_name = ByteBuf::new::<NODE_NAME_MAX>();
        // A name that is too long is left out.
        let _ = node_name.extend_from_slice(name_str.as_bytes());
        proof {
            assert(node_name@ =~= fitted_name(name_str.spec_bytes()));
        }
        GetInfoResponse {
            protocol_version: Version { major: 1, minor: 0 },
            hardware_version: Version { major: hw_major, minor: hw_minor },
            software_version: Version { major: sw_major, minor: sw_minor },
            software_vcs_revision_id: match self.vcs_revision_id {
                Some(id) => id,
                None => 0,
            },
            unique_id: self.unique_id,
            name: slice_to_vec(node_name.as_slice()),
            software_image_crc: Vec::new(),
            certificate_of_authenticity: Vec::new(),
        }
    }

    /// Build the [`GetInfoResponse`] using only the explicitly-set fields.
    ///
    /// Fields not set default to empty name, version 0.0, hardware 1.0.
    pub fn build(self) -> (info: GetInfoResponse)
        ensures
            info.protocol_version == (Version { major: 1, minor: 0 }),
            info.hardware_version == match self.hardware_version {
                Some(v) => Version { major: v.0, minor: v.1 },
                None => Version { major: 1, minor: 0 },
            },
            info.software_version == match self.software_version {
                Some(v) => Version { major: v.0, minor: v.1 },
                None => Version { major: 0, minor: 0 },
            },
            info.software_vcs_revision_id == match self.vcs_revision_id {
                Some(id) => id,
                None => 0,
            },
            info.unique_id == self.unique_id,
            info.name@ == match self.name {
                Some(name) => fitted_name(name.spec_bytes()),
                None => Seq::empty(),
            },
            info.software_image_crc@.len() == 0,
            info.certificate_of_authenticity@.len() == 0,
    {
        proof {
            broadcast use is_ascii_spec_bytes;

            reveal_strlit("");
            reveal_strlit("0");
            assert("".spec_bytes() =~= Seq::<u8>::empty());
            assert("0"@.drop_last() =~= Seq::<char>::empty());
            assert(digits_value("0"@.drop_last(), 10) == 0);
            assert(version_number("0"@) == 0);
        }
        self.build_with_env("", "0", "0")
    }
}

/// A version number is the decimal number of at most 255 in a text, else zero; a revision is the
/// hexadecimal number of 64 bits in a hash, else zero.
pub proof fn law_numbers_in_the_node_info(s: Seq<char>, hash: &str)
    ensures
        version_number(s) == match parsed_decimal(s, 255) {
            Some(v) => v,
            None => 0,
        },
        revision_id(Some(hash)) == match parsed_hexadecimal(hash@, 0xffff_ffff_ffff_ffff) {
            Some(v) => v,
            None => 0,
        },
        revision_id(None) == 0,
{
}

/// A name of up to 50 bytes is kept whole, and a longer one is left out.
pub proof fn law_name_fits_or_is_left_out(name: Seq<u8>)
    ensures
        name.len() <= 50 ==> fitted_name(name) == name,
        name.len() > 50 ==> fitted_name(name).len() == 0,
{
}

} // verus!
