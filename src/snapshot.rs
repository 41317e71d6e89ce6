use vstd::prelude::*;

verus! {

/// One process as the metrics provider reported it.
///
/// CPU usage is held in hundredths of a percent (`1234` is 12.34 %), the
/// resident memory in KiB.
pub struct ProcessSample {
    pub pid: u32,
    pub name: String,
    pub cpu_centi: u32,
    pub memory_kb: u64,
}

/// The mathematical value of a [`ProcessSample`].
pub struct ProcessView {
    pub pid: u32,
    pub name: Seq<char>,
    pub cpu_centi: u32,
    pub memory_kb: u64,
}

impl View for ProcessSample {
    type V = ProcessView;

    open spec fn view(&self) -> ProcessView {
        ProcessView {
            pid: self.pid,
            name: self.name@,
            cpu_centi: self.cpu_centi,
            memory_kb: self.memory_kb,
        }
    }
}

/// The views of a sequence of samples, position by position.
pub open spec fn samples_view(s: Seq<ProcessSample>) -> Seq<ProcessView> {
    s.map_values(|p: ProcessSample| p@)
}

impl ProcessSample {
    pub fn new(pid: u32, name: String, cpu_centi: u32, memory_kb: u64) -> (r: Self)
        ensures
            r.pid == pid,
            r.name@ == name@,
            r.cpu_centi == cpu_centi,
            r.memory_kb == memory_kb,
    {
        ProcessSample { pid, name, cpu_centi, memory_kb }
    }

    /// A copy with the same view.
    pub fn duplicate(&self) -> (r: Self)
        ensures
            r@ == self@,
    {
        ProcessSample {
            pid: self.pid,
            name: self.name.clone(),
            cpu_centi: self.cpu_centi,
            memory_kb: self.memory_kb,
        }
    }
}

/// A used and a total figure in MiB, the used one never above the total.
pub struct Usage {
    used_mb: u64,
    total_mb: u64,
}

impl Usage {
    #[verifier::type_invariant]
    spec fn within_total(&self) -> bool {
        self.used_mb <= self.total_mb
    }

    /// The used figure.
    pub closed spec fn used(&self) -> nat {
        self.used_mb as nat
    }

    /// The total figure.
    pub closed spec fn total(&self) -> nat {
        self.total_mb as nat
    }

    /// Takes the figures as the provider gave them; a used figure above the
    /// total is cut down to the total.
    pub fn from_provider(used_mb: u64, total_mb: u64) -> (r: Usage)
        ensures
            r.total() == total_mb,
            r.used() == if used_mb <= total_mb { used_mb } else { total_mb },
    {
        let used = if used_mb <= total_mb { used_mb } else { total_mb };
        Usage { used_mb: used, total_mb }
    }

    /// The used figure, which never exceeds the total.
    pub fn used_mb(&self) -> (r: u64)
        ensures
            r == self.used(),
            0 <= r <= self.total(),
    {
        proof {
            use_type_invariant(self);
        }
        self.used_mb
    }

    pub fn total_mb(&self) -> (r: u64)
        ensures
            r == self.total(),
    {
        self.total_mb
    }
}

/// Facts about the host, each of which the provider may not know.
pub struct HostFacts {
    pub cpu_arch: Option<String>,
    pub uptime_secs: Option<u64>,
    pub kernel_version: Option<String>,
    pub os_version: Option<String>,
    pub host_name: Option<String>,
    pub open_files_limit: Option<u64>,
    pub product_name: Option<String>,
    pub vendor_name: Option<String>,
}

impl HostFacts {
    /// Host facts of which none is known.
    pub fn unknown() -> (r: HostFacts)
        ensures
            r.cpu_arch is None,
            r.uptime_secs is None,
            r.kernel_version is None,
            r.os_version is None,
            r.host_name is None,
            r.open_files_limit is None,
            r.product_name is None,
            r.vendor_name is None,
    {
        HostFacts {
            cpu_arch: None,
            uptime_secs: None,
            kernel_version: None,
            os_version: None,
            host_name: None,
            open_files_limit: None,
            product_name: None,
            vendor_name: None,
        }
    }
}

/// One reading of the whole system, taken by a single provider call.
///
/// Core usages are in hundredths of a percent, one entry per core.
pub struct Snapshot {
    pub cores: Vec<u32>,
    pub cpu_brand: Option<String>,
    pub memory: Usage,
    pub swap: Usage,
    pub processes: Vec<ProcessSample>,
    pub host: HostFacts,
}

} // verus!
