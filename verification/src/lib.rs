//! A snapshot of kernel-reported system statistics — uptime, load averages,
//! memory and swap figures, process count — together with a checked and an
//! unchecked way to turn a native query's outcome into a caller-facing value.
//!
//! The native system-information call itself is a foreign function and lives
//! with the embedding program. This crate holds everything around it: the
//! snapshot record, its zero-initialized starting state, and the mapping from
//! the call's integer status code to either the populated snapshot or the one
//! failure the interface can report.

use vstd::prelude::*;

verus! {

/// Kernel system-statistics snapshot, field for field as the native
/// structure reports it: seconds since boot, the three fixed-point load
/// averages, memory and swap quantities counted in units of `mem_unit`
/// bytes, and the number of current processes.
#[allow(non_camel_case_types)]
#[derive(Debug, Clone, Copy, PartialEq, Eq)]
pub struct sysinfo {
    /// Seconds since boot
    pub uptime: i64,
    /// 1, 5, and 15 minute load averages, in the kernel's raw fixed-point encoding
    pub loads: [u64; 3],
    /// Total usable main RAM size
    pub totalram: u64,
    /// Available memory size
    pub freeram: u64,
    /// Amount of shared memory
    pub sharedram: u64,
    /// Memory used by buffers
    pub bufferram: u64,
    /// Total swap space size
    pub totalswap: u64,
    /// Swap space still available
    pub freeswap: u64,
    /// Number of current processes
    pub procs: u16,
    /// Explicit padding carried by the native structure on some targets
    pub pad: u16,
    /// Total high memory size
    pub totalhigh: u64,
    /// Available high memory size
    pub freehigh: u64,
    /// Memory unit size in bytes: multiplier for every memory quantity above
    pub mem_unit: u32,
}

impl sysinfo {
    /// Every field holds zero: the state of a snapshot before the native
    /// call has written anything into it.
    pub open spec fn is_zeroed(self) -> bool {
        &&& self.uptime == 0
        &&& self.loads[0] == 0
        &&& self.loads[1] == 0
        &&& self.loads[2] == 0
        &&& self.totalram == 0
        &&& self.freeram == 0
        &&& self.sharedram == 0
        &&& self.bufferram == 0
        &&& self.totalswap == 0
        &&& self.freeswap == 0
        &&& self.procs == 0
        &&& self.pad == 0
        &&& self.totalhigh == 0
        &&& self.freehigh == 0
        &&& self.mem_unit == 0
    }

    /// The buffer handed to the native call: a snapshot with every field
    /// zero, so that on failure the caller sees defined (all-zero) contents
    /// in whatever the call did not overwrite.
    pub fn zeroed() -> (s: sysinfo)
        ensures
            s.is_zeroed(),
    {
        sysinfo {
            uptime: 0,
            loads: [0u64; 3],
            totalram: 0,
            freeram: 0,
            sharedram: 0,
            bufferram: 0,
            totalswap: 0,
            freeswap: 0,
            procs: 0,
            pad: 0,
            totalhigh: 0,
            freehigh: 0,
            mem_unit: 0,
        }
    }
}

/// The message carried by the checked query's error when the native call
/// reports a non-zero status.
pub open spec fn query_error_text() -> Seq<char> {
    "Failed to get the sysinfo struct"@
}

/// Checked interpretation of a native query's outcome: `status` is the
/// integer the native call returned and `info` the snapshot it was given to
/// fill. A zero status is success and yields the snapshot exactly as the
/// call left it; any other status is the one failure this interface knows,
/// reported to the caller with a fixed message.
///
/// The snapshot passes through untouched, so a non-negative uptime from the
/// native call is still non-negative in the checked result.
pub fn try_collect_from(status: i32, info: sysinfo) -> (r: Result<sysinfo, String>)
    ensures
        r is Ok <==> status == 0,
        r matches Ok(s) ==> s == info,
        r matches Err(m) ==> m@ == query_error_text(),
        status == 0 && info.uptime >= 0 ==> (r matches Ok(s) && s.uptime >= 0),
{
    if status == 0 {
        Ok(info)
    } else {
        Err(String::from_str("Failed to get the sysinfo struct"))
    }
}

/// Unchecked interpretation of a native query's outcome: the status code is
/// discarded and the snapshot is handed back whatever the native call
/// reported. By construction no error can reach the caller; after a failed
/// call the snapshot simply keeps its defined all-zero starting contents in
/// every field the call did not overwrite.
pub fn collect_from(_status: i32, info: sysinfo) -> (r: sysinfo)
    ensures
        r == info,
{
    info
}

} // verus!
