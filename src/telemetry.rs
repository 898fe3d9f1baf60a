//! Host identity and resource snapshots, built from raw operating-system readings.

use vstd::prelude::*;

verus! {

/// Static facts about the host. A hostname, when present, is never empty.
pub struct HostIdentity {
    os_name: String,
    arch: String,
    os_family: String,
    hostname: Option<String>,
}

pub struct HostIdentityView {
    pub os_name: Seq<char>,
    pub arch: Seq<char>,
    pub os_family: Seq<char>,
    pub hostname: Option<Seq<char>>,
}

impl HostIdentityView {
    pub open spec fn wf(self) -> bool {
        self.hostname matches Some(h) ==> h.len() > 0
    }
}

pub open spec fn opt_string_view(o: Option<String>) -> Option<Seq<char>> {
    match o {
        Some(s) => Some(s@),
        None => None,
    }
}

impl View for HostIdentity {
    type V = HostIdentityView;

    closed spec fn view(&self) -> HostIdentityView {
        HostIdentityView {
            os_name: self.os_name@,
            arch: self.arch@,
            os_family: self.os_family@,
            hostname: opt_string_view(self.hostname),
        }
    }
}

impl HostIdentity {
    /// Builds an identity; a hostname that the platform gave as empty counts as absent.
    pub fn new(os_name: String, arch: String, os_family: String, hostname: Option<String>) -> (r:
        HostIdentity)
        ensures
            r@.wf(),
            r@.os_name == os_name@,
            r@.arch == arch@,
            r@.os_family == os_family@,
            r@.hostname == (match hostname {
                Some(h) => if h@.len() > 0 {
                    Some(h@)
                } else {
                    None
                },
                None => None,
            }),
    {
        let hostname = match hostname {
            Some(h) => {
                if h.as_str().unicode_len() > 0 {
                    Some(h)
                } else {
                    None
                }
            },
            None => None,
        };
        HostIdentity { os_name, arch, os_family, hostname }
    }

    pub fn os_name(&self) -> (r: &str)
        ensures
            r@ == self@.os_name,
    {
        self.os_name.as_str()
    }

    pub fn arch(&self) -> (r: &str)
        ensures
            r@ == self@.arch,
    {
        self.arch.as_str()
    }

    pub fn os_family(&self) -> (r: &str)
        ensures
            r@ == self@.os_family,
    {
        self.os_family.as_str()
    }

    pub fn hostname(&self) -> (r: Option<&str>)
        ensures
            match r {
                Some(h) => self@.hostname == Some(h@),
                None => self@.hostname is None,
            },
    {
        match &self.hostname {
            Some(h) => Some(h.as_str()),
            None => None,
        }
    }
}

/// Load averages over one, five and fifteen minutes, each in hundredths.
#[derive(Clone, Copy, Debug, PartialEq, Eq, Structural)]
pub struct LoadAverage {
    pub one: u64,
    pub five: u64,
    pub fifteen: u64,
}

/// What one query of the operating system reported, before any checking.
pub struct ResourceReadings {
    /// Total memory in bytes.
    pub total_memory_bytes: u64,
    /// Free memory in bytes.
    pub free_memory_bytes: u64,
    /// Usage of each logical core in tenths of a percent, in core order.
    pub cpu_usage: Vec<u32>,
    /// Absent where the platform has no load average.
    pub load_average: Option<LoadAverage>,
}

#[derive(Clone, Copy, Debug, PartialEq, Eq, Structural)]
pub enum CollectionError {
    /// The operating system reported no processors: its counters cannot be queried.
    Unavailable,
    /// The operating system reported more free memory than it has in total.
    FreeExceedsTotal,
}

/// Live resource utilization at one point in time.
pub struct ResourceSnapshot {
    cpu_usage: Vec<u32>,
    total_memory_kb: u64,
    free_memory_kb: u64,
    used_memory_kb: u64,
    load_average: Option<LoadAverage>,
}

pub struct ResourceSnapshotView {
    pub cpu_usage: Seq<u32>,
    pub total_memory_kb: nat,
    pub free_memory_kb: nat,
    pub used_memory_kb: nat,
    pub load_average: Option<LoadAverage>,
}

impl ResourceSnapshotView {
    /// At least one core, and used memory is what is not free.
    pub open spec fn wf(self) -> bool {
        &&& self.cpu_usage.len() > 0
        &&& self.free_memory_kb <= self.total_memory_kb
        &&& self.used_memory_kb == self.total_memory_kb - self.free_memory_kb
    }

    pub open spec fn cpu_count(self) -> nat {
        self.cpu_usage.len()
    }
}

impl View for ResourceSnapshot {
    type V = ResourceSnapshotView;

    closed spec fn view(&self) -> ResourceSnapshotView {
        ResourceSnapshotView {
            cpu_usage: self.cpu_usage@,
            total_memory_kb: self.total_memory_kb as nat,
            free_memory_kb: self.free_memory_kb as nat,
            used_memory_kb: self.used_memory_kb as nat,
            load_average: self.load_average,
        }
    }
}

/// The snapshot that a set of readings describes, with memory in kibibytes.
pub open spec fn snapshot_of(
    total_bytes: nat,
    free_bytes: nat,
    cpu_usage: Seq<u32>,
    load_average: Option<LoadAverage>,
) -> ResourceSnapshotView {
    ResourceSnapshotView {
        cpu_usage,
        total_memory_kb: total_bytes / 1024,
        free_memory_kb: free_bytes / 1024,
        used_memory_kb: (total_bytes / 1024 - free_bytes / 1024) as nat,
        load_average,
    }
}

impl ResourceSnapshot {
    /// Checks the readings and converts memory from bytes to kibibytes by integer division.
    /// No processors means the counters are unavailable; free memory above the total is
    /// reported as an error, never clamped.
    pub fn from_readings(readings: ResourceReadings) -> (r: Result<ResourceSnapshot, CollectionError>)
        ensures
            readings.cpu_usage@.len() == 0 ==> r == Err::<ResourceSnapshot, CollectionError>(
                CollectionError::Unavailable,
            ),
            readings.cpu_usage@.len() > 0 && readings.free_memory_bytes
                > readings.total_memory_bytes ==> r == Err::<ResourceSnapshot, CollectionError>(
                CollectionError::FreeExceedsTotal,
            ),
            r is Ok <==> (readings.cpu_usage@.len() > 0 && readings.free_memory_bytes
                <= readings.total_memory_bytes),
            r matches Ok(s) ==> s@.wf() && s@ == snapshot_of(
                readings.total_memory_bytes as nat,
                readings.free_memory_bytes as nat,
                readings.cpu_usage@,
                readings.load_average,
            ),
    {
        if readings.cpu_usage.len() == 0 {
            return Err(CollectionError::Unavailable);
        }
        if readings.free_memory_bytes > readings.total_memory_bytes {
            return Err(CollectionError::FreeExceedsTotal);
        }
        let total_memory_kb = readings.total_memory_bytes / 1024;
        let free_memory_kb = readings.free_memory_bytes / 1024;
        assert(free_memory_kb <= total_memory_kb) by (nonlinear_arith)
            requires
                readings.free_memory_bytes <= readings.total_memory_bytes,
                total_memory_kb == readings.total_memory_bytes / 1024,
                free_memory_kb == readings.free_memory_bytes / 1024,
        ;
        Ok(
            ResourceSnapshot {
                cpu_usage: readings.cpu_usage,
                total_memory_kb,
                free_memory_kb,
                used_memory_kb: total_memory_kb - free_memory_kb,
                load_average: readings.load_average,
            },
        )
    }

    pub fn cpu_count(&self) -> (r: usize)
        ensures
            r == self@.cpu_count(),
    {
        self.cpu_usage.len()
    }

    pub fn cpu_usage(&self) -> (r: &Vec<u32>)
        ensures
            r@ == self@.cpu_usage,
    {
        &self.cpu_usage
    }

    pub fn total_memory_kb(&self) -> (r: u64)
        ensures
            r == self@.total_memory_kb,
    {
        self.total_memory_kb
    }

    pub fn free_memory_kb(&self) -> (r: u64)
        ensures
            r == self@.free_memory_kb,
    {
        self.free_memory_kb
    }

    pub fn used_memory_kb(&self) -> (r: u64)
        ensures
            r == self@.used_memory_kb,
    {
        self.used_memory_kb
    }

    pub fn load_average(&self) -> (r: Option<LoadAverage>)
        ensures
            r == self@.load_average,
    {
        self.load_average
    }
}

/// Every well-formed snapshot accounts for its memory: used is total less free, and lies
/// between zero and the total.
pub proof fn lemma_used_memory(s: ResourceSnapshotView)
    requires
        s.wf(),
    ensures
        s.used_memory_kb == s.total_memory_kb - s.free_memory_kb,
        0 <= s.used_memory_kb <= s.total_memory_kb,
{
}

} // verus!
