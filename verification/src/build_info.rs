//! Stateless release compatibility metadata for manually installed hosts.

use vstd::prelude::*;
use vstd::utf8::encode_utf8;

use crate::text::{contains_char, seq_has_char, trim, trimmed};

verus! {

/// The control ABI; it changes only when a build changes the meaning of the
/// control protocol independently of its wire version or host schema.
pub const CONTROL_ABI: u16 = 2;

/// The control protocol version of this build.
pub const CURRENT_PROTOCOL_VERSION: u16 = 1;

/// The durable host schema version of this build.
pub const HOST_SCHEMA_VERSION: i64 = 15;

/// Bound on the bytes of a package version.
pub const MAX_PACKAGE_VERSION_BYTES: usize = 64;

/// The package version of this build.
pub open spec fn package_version() -> Seq<char> {
    seq!['0', '.', '1', '.', '0']
}

/// Safe metadata returned by the hidden, state-free probe command: no host
/// identity, path, provider data or persisted state observation.
#[derive(Clone, Debug, PartialEq, Eq)]
pub struct BuildInfo {
    pub package_version: String,
    pub control_abi: u16,
    pub protocol_version: u16,
    pub host_schema_version: i64,
}

/// Errors from state-free build compatibility handling.
#[derive(Clone, Copy, Debug, PartialEq, Eq, Structural)]
pub enum BuildInfoError {
    InvalidPackageVersion,
    InvalidControlAbi,
    InvalidProtocolVersion,
    InvalidHostSchemaVersion,
    ControlAbiMismatch { local: u16, remote: u16 },
    ProtocolVersionMismatch { local: u16, remote: u16 },
    HostSchemaVersionMismatch { local: i64, remote: i64 },
}

/// Why build metadata is malformed, in check order.
pub open spec fn build_info_defect(info: BuildInfo) -> Option<BuildInfoError> {
    if trimmed(info.package_version@).len() == 0 || (encode_utf8(info.package_version@).len()
        as usize) > MAX_PACKAGE_VERSION_BYTES || seq_has_char(info.package_version@, '\n')
        || seq_has_char(info.package_version@, '\r') {
        Some(BuildInfoError::InvalidPackageVersion)
    } else if info.control_abi == 0 {
        Some(BuildInfoError::InvalidControlAbi)
    } else if info.protocol_version == 0 {
        Some(BuildInfoError::InvalidProtocolVersion)
    } else if info.host_schema_version < 1 {
        Some(BuildInfoError::InvalidHostSchemaVersion)
    } else {
        None
    }
}

/// Why a remote build cannot take part in this build's contracts: malformed
/// metadata first, then the control ABI, the protocol and the host schema.
/// The package version is informational.
pub open spec fn compatibility_error(info: BuildInfo) -> Option<BuildInfoError> {
    if build_info_defect(info) is Some {
        build_info_defect(info)
    } else if info.control_abi != CONTROL_ABI {
        Some(BuildInfoError::ControlAbiMismatch { local: CONTROL_ABI, remote: info.control_abi })
    } else if info.protocol_version != CURRENT_PROTOCOL_VERSION {
        Some(
            BuildInfoError::ProtocolVersionMismatch {
                local: CURRENT_PROTOCOL_VERSION,
                remote: info.protocol_version,
            },
        )
    } else if info.host_schema_version != HOST_SCHEMA_VERSION {
        Some(
            BuildInfoError::HostSchemaVersionMismatch {
                local: HOST_SCHEMA_VERSION,
                remote: info.host_schema_version,
            },
        )
    } else {
        None
    }
}

impl BuildInfo {
    /// The metadata of the running build.
    pub fn current() -> (r: BuildInfo)
        ensures
            r.package_version@ == package_version(),
            r.control_abi == CONTROL_ABI,
            r.protocol_version == CURRENT_PROTOCOL_VERSION,
            r.host_schema_version == HOST_SCHEMA_VERSION,
    {
        proof {
            reveal_strlit("0.1.0");
        }
        BuildInfo {
            package_version: String::from_str("0.1.0"),
            control_abi: CONTROL_ABI,
            protocol_version: CURRENT_PROTOCOL_VERSION,
            host_schema_version: HOST_SCHEMA_VERSION,
        }
    }

    /// Refuses malformed metadata.
    pub fn validate(&self) -> (r: Result<(), BuildInfoError>)
        ensures
            build_info_defect(*self) matches Some(e) ==> r == Err::<(), BuildInfoError>(e),
            build_info_defect(*self) is None ==> r is Ok,
    {
        let version = self.package_version.as_str();
        if trim(version).is_empty() || version.len() > MAX_PACKAGE_VERSION_BYTES || contains_char(
            version,
            '\n',
        ) || contains_char(version, '\r') {
            return Err(BuildInfoError::InvalidPackageVersion);
        }
        if self.control_abi == 0 {
            return Err(BuildInfoError::InvalidControlAbi);
        }
        if self.protocol_version == 0 {
            return Err(BuildInfoError::InvalidProtocolVersion);
        }
        if self.host_schema_version < 1 {
            return Err(BuildInfoError::InvalidHostSchemaVersion);
        }
        Ok(())
    }

    /// Checks whether a manually installed remote executable can take part in
    /// this build's control and state contract.
    pub fn ensure_compatible_with_local(&self) -> (r: Result<(), BuildInfoError>)
        ensures
            compatibility_error(*self) matches Some(e) ==> r == Err::<(), BuildInfoError>(e),
            compatibility_error(*self) is None ==> r is Ok,
    {
        self.validate()?;
        let local = BuildInfo::current();
        if self.control_abi != local.control_abi {
            return Err(
                BuildInfoError::ControlAbiMismatch { local: local.control_abi, remote: self.control_abi },
            );
        }
        if self.protocol_version != local.protocol_version {
            return Err(
                BuildInfoError::ProtocolVersionMismatch {
                    local: local.protocol_version,
                    remote: self.protocol_version,
                },
            );
        }
        if self.host_schema_version != local.host_schema_version {
            return Err(
                BuildInfoError::HostSchemaVersionMismatch {
                    local: local.host_schema_version,
                    remote: self.host_schema_version,
                },
            );
        }
        Ok(())
    }
}

/// A remote build is compatible only when its metadata is well formed and it
/// speaks exactly this build's control ABI, control protocol version and host
/// schema version; well-formed metadata with this build's control ABI but
/// another protocol version is refused as a protocol mismatch naming both
/// versions.
pub proof fn lemma_compatible_builds_share_the_contract(info: BuildInfo)
    ensures
        compatibility_error(info) is None ==> build_info_defect(info) is None && info.control_abi
            == CONTROL_ABI && info.protocol_version == CURRENT_PROTOCOL_VERSION
            && info.host_schema_version == HOST_SCHEMA_VERSION,
        build_info_defect(info) is None && info.control_abi == CONTROL_ABI && info.protocol_version
            != CURRENT_PROTOCOL_VERSION ==> compatibility_error(info) == Some(
            BuildInfoError::ProtocolVersionMismatch {
                local: CURRENT_PROTOCOL_VERSION,
                remote: info.protocol_version,
            },
        ),
        build_info_defect(info) is None && info.control_abi != CONTROL_ABI ==> compatibility_error(info)
            == Some(BuildInfoError::ControlAbiMismatch { local: CONTROL_ABI, remote: info.control_abi }),
        build_info_defect(info) is None && info.control_abi == CONTROL_ABI && info.protocol_version
            == CURRENT_PROTOCOL_VERSION && info.host_schema_version != HOST_SCHEMA_VERSION
            ==> compatibility_error(info) == Some(
            BuildInfoError::HostSchemaVersionMismatch {
                local: HOST_SCHEMA_VERSION,
                remote: info.host_schema_version,
            },
        ),
{
}

/// The running build is compatible with itself.
pub proof fn lemma_current_is_compatible(info: BuildInfo)
    requires
        info.package_version@ == package_version(),
        info.control_abi == CONTROL_ABI,
        info.protocol_version == CURRENT_PROTOCOL_VERSION,
        info.host_schema_version == HOST_SCHEMA_VERSION,
    ensures
        compatibility_error(info) is None,
{
    let v = package_version();
    assert(!crate::text::is_white_space(v[0]));
    assert(!crate::text::is_white_space(v.last()));
    assert(crate::text::trim_start(v) == v);
    assert(crate::text::trim_end(v) == v);
    assert(!seq_has_char(v, '\n'));
    assert(!seq_has_char(v, '\r'));
    assert(vstd::utf8::is_ascii_chars(v));
    vstd::utf8::is_ascii_chars_encode_utf8(v);
}

} // verus!
