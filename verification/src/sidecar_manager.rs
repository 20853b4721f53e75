//! What is reported of the bundled binaries: for each one whether it is
//! there, whether it runs, and what its manifest says.
//!
//! Running a binary and reading its manifest is the caller's work; what the
//! findings add up to is decided here.

use crate::gytmdl_wrapper::BinaryManifest;
use crate::state::opt_text;
use crate::text::concat;
use vstd::prelude::*;

verus! {

/// What is known of one binary.
#[derive(Debug, Clone)]
pub struct SidecarInfo {
    pub binary_path: String,
    pub is_available: bool,
    pub is_valid: bool,
    pub version: Option<String>,
    pub manifest: Option<BinaryManifest>,
    pub error: Option<String>,
}

/// What is known of all binaries.
#[derive(Debug, Clone)]
pub struct SidecarStatus {
    pub current_binary: Option<SidecarInfo>,
    pub available_binaries: Vec<SidecarInfo>,
    pub platform_binary_name: String,
    pub sidecar_directory: String,
}

/// What was found when a binary was looked at. The checks build on each
/// other: the test counts only for a binary that is there, the manifest only
/// after a test that passed, the integrity only with a manifest.
#[derive(Debug)]
pub struct BinaryChecks {
    /// Whether the binary is there, as a file.
    pub is_available: bool,
    /// The version that the binary reported, or why its test failed.
    pub test: Result<String, String>,
    /// The manifest beside the binary, or why there is none.
    pub manifest: Result<BinaryManifest, String>,
    /// Whether the binary is what the manifest says, or why that could not
    /// be found out.
    pub integrity: Result<bool, String>,
}

/// Sums up what was found of the bundled binaries.
pub struct SidecarManager;

/// Whether the report on a binary calls it usable.
pub open spec fn judged_valid(checks: BinaryChecks) -> bool {
    checks.is_available && checks.test is Ok && !(checks.manifest is Ok && checks.integrity
        == Ok::<bool, String>(false))
}

/// The remark that the report on a binary carries.
pub open spec fn judged_error(checks: BinaryChecks) -> Option<Seq<char>> {
    if !checks.is_available {
        Some("Binary file not found or not accessible"@)
    } else if checks.test is Err {
        Some("Binary test failed: "@ + checks.test->Err_0@)
    } else if checks.manifest is Err {
        Some("Manifest not available: "@ + checks.manifest->Err_0@)
    } else {
        match checks.integrity {
            Ok(sound) => if sound {
                None
            } else {
                Some("Binary integrity validation failed"@)
            },
            Err(e) => Some("Integrity check error: "@ + e@),
        }
    }
}

/// Some binary of the status is usable.
pub open spec fn has_valid_binary(status: SidecarStatus) -> bool {
    (status.current_binary is Some && status.current_binary->0.is_valid) || exists|i: int|
        0 <= i < status.available_binaries@.len() && (
        #[trigger] status.available_binaries@[i]).is_valid
}

impl SidecarManager {
    /// The report on the binary at `binary_path`, given what was found when
    /// it was looked at.
    pub fn get_binary_info(binary_path: String, checks: BinaryChecks) -> (info: SidecarInfo)
        ensures
            info.binary_path == binary_path,
            info.is_available == checks.is_available,
            info.is_valid == judged_valid(checks),
            info.version == (if checks.is_available && checks.test is Ok {
                Some(checks.test->Ok_0)
            } else {
                None
            }),
            info.manifest == (if checks.is_available && checks.test is Ok && checks.manifest
                is Ok {
                Some(checks.manifest->Ok_0)
            } else {
                None
            }),
            opt_text(info.error) == judged_error(checks),
    {
        let mut info = SidecarInfo {
            binary_path,
            is_available: checks.is_available,
            is_valid: false,
            version: None,
            manifest: None,
            error: None,
        };
        if !checks.is_available {
            info.error = Some("Binary file not found or not accessible".to_owned());
            return info;
        }
        match checks.test {
            Ok(version) => {
                info.version = Some(version);
                info.is_valid = true;
            },
            Err(e) => {
                info.error = Some(concat("Binary test failed: ", e.as_str()));
                return info;
            },
        }
        match checks.manifest {
            Ok(manifest) => {
                info.manifest = Some(manifest);
            },
            Err(e) => {
                info.error = Some(concat("Manifest not available: ", e.as_str()));
                return info;
            },
        }
        match checks.integrity {
            Ok(sound) => {
                if !sound {
                    info.is_valid = false;
                    info.error = Some("Binary integrity validation failed".to_owned());
                }
            },
            Err(e) => {
                info.error = Some(concat("Integrity check error: ", e.as_str()));
            },
        }
        info
    }

    /// Whether the platform has a usable binary: the current one, or any of
    /// those that are available.
    pub fn check_platform_compatibility(status: &SidecarStatus) -> (r: Result<bool, String>)
        ensures
            r is Ok,
            r->Ok_0 == has_valid_binary(*status),
    {
        match &status.current_binary {
            Some(current) => {
                if current.is_valid {
                    return Ok(true);
                }
            },
            None => {},
        }
        let mut i: usize = 0;
        while i < status.available_binaries.len()
            invariant
                i <= status.available_binaries.len(),
                forall|j: int| 0 <= j < i ==> !(#[trigger] status.available_binaries@[j]).is_valid,
            decreases status.available_binaries.len() - i,
        {
            if status.available_binaries[i].is_valid {
                return Ok(true);
            }
            i += 1;
        }
        Ok(false)
    }
}

} // verus!
