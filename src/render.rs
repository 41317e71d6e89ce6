use vstd::prelude::*;
use crate::decimal::{dec, push_decimal, push_tenths, div_round_half_even, round_half_even, tenths_text};
use crate::ranker::{is_ranked_view, rank_processes};
use crate::snapshot::{HostFacts, ProcessSample, ProcessView, Snapshot, Usage, samples_view};

verus! {

/// The usages of all cores added up, in hundredths of a percent.
pub open spec fn core_sum(s: Seq<u32>) -> nat
    decreases s.len(),
{
    if s.len() == 0 {
        0
    } else {
        core_sum(s.drop_last()) + s.last() as nat
    }
}

/// The CPU band: total usage over all cores to one decimal place, against
/// one hundred percent per core.
pub open spec fn cpu_band_text(cores: Seq<u32>) -> Seq<char> {
    "CPU Usage: "@ + tenths_text(round_half_even(core_sum(cores), 10)) + "% / "@ + dec(
        cores.len() * 100,
    ) + "%"@
}

/// The memory band: used and total memory, then used and total swap, in MiB.
pub open spec fn memory_band_text(memory: Usage, swap: Usage) -> Seq<char> {
    "Memory: "@ + dec(memory.used()) + " MB / "@ + dec(memory.total()) + " MB, Swap: "@ + dec(
        swap.used(),
    ) + " MB / "@ + dec(swap.total()) + " MB"@
}

/// A CPU usage in hundredths of a percent, to one decimal place.
pub open spec fn cpu_cell(cpu_centi: nat) -> Seq<char> {
    tenths_text(round_half_even(cpu_centi, 10)) + "%"@
}

/// A memory size in KiB, shown in MiB to one decimal place.
pub open spec fn memory_cell(memory_kb: nat) -> Seq<char> {
    tenths_text(round_half_even(memory_kb * 10, 1024)) + " MB"@
}

/// The value of a host fact, or `Unknown` where it is absent.
pub open spec fn fact_text(o: Option<String>) -> Seq<char> {
    match o {
        Some(s) => s@,
        None => "Unknown"@,
    }
}

/// The value of a numeric host fact, or `Unknown` where it is absent.
pub open spec fn number_fact_text(o: Option<u64>) -> Seq<char> {
    match o {
        Some(n) => dec(n as nat),
        None => "Unknown"@,
    }
}

/// One row of the process table.
pub struct ProcessRow {
    pub pid: String,
    pub name: String,
    pub cpu: String,
    pub memory: String,
}

/// Whether `r` shows the process `p`.
pub open spec fn shows_process(r: ProcessRow, p: ProcessView) -> bool {
    &&& r.pid@ == dec(p.pid as nat)
    &&& r.name@ == p.name
    &&& r.cpu@ == cpu_cell(p.cpu_centi as nat)
    &&& r.memory@ == memory_cell(p.memory_kb as nat)
}

/// Whether `rows` show, in order, the `n` processes of `procs` that rank
/// highest.
pub open spec fn shows_ranking(rows: Seq<ProcessRow>, procs: Seq<ProcessView>, n: nat) -> bool {
    exists|ranked: Seq<ProcessView>|
        #![trigger is_ranked_view(procs, n, ranked)]
        is_ranked_view(procs, n, ranked) && rows.len() == ranked.len() && forall|k: int|
            0 <= k < rows.len() ==> shows_process(#[trigger] rows[k], ranked[k])
}

/// One label and value row of the info band.
pub struct InfoRow {
    pub label: String,
    pub value: String,
}

/// The labels and values of the info band, top to bottom.
pub open spec fn info_band(s: Snapshot) -> Seq<(Seq<char>, Seq<char>)> {
    seq![
        ("Number of cpus"@, dec(s.cores@.len())),
        ("CPU Architecture"@, fact_text(s.host.cpu_arch)),
        ("Brand"@, fact_text(s.cpu_brand)),
        ("Uptime"@, number_fact_text(s.host.uptime_secs)),
        ("kernel long version"@, fact_text(s.host.kernel_version)),
        ("long os version"@, fact_text(s.host.os_version)),
        ("Host name"@, fact_text(s.host.host_name)),
        ("Open files limit"@, number_fact_text(s.host.open_files_limit)),
        ("Product Name"@, fact_text(s.host.product_name)),
        ("Vendor name"@, fact_text(s.host.vendor_name)),
    ]
}

/// The text of the CPU band for the given core usages.
pub fn cpu_text(cores: &Vec<u32>) -> (r: String)
    ensures
        r@ == cpu_band_text(cores@),
{
    let mut sum: u128 = 0;
    let mut i: usize = 0;
    while i < cores.len()
        invariant
            i <= cores.len(),
            sum as nat == core_sum(cores@.subrange(0, i as int)),
            sum <= i * 0xffff_ffffu128,
        decreases cores.len() - i,
    {
        proof {
            let s = cores@.subrange(0, i as int + 1);
            assert(s.drop_last() =~= cores@.subrange(0, i as int));
            assert((i + 1) * 0xffff_ffffu128 <= 0x1_0000_0000_0000_0000u128 * 0xffff_ffffu128) by (nonlinear_arith)
                requires
                    i < 0x1_0000_0000_0000_0000u128,
            ;
        }
        sum = sum + cores[i] as u128;
        i = i + 1;
    }
    assert(cores@.subrange(0, cores.len() as int) =~= cores@);
    let mut s = String::new();
    s.append("CPU Usage: ");
    push_tenths(&mut s, div_round_half_even(sum, 10));
    s.append("% / ");
    push_decimal(&mut s, cores.len() as u128 * 100);
    s.append("%");
    proof {
        assert(s@ =~= cpu_band_text(cores@));
    }
    s
}

/// The text of the memory band.
pub fn memory_text(memory: &Usage, swap: &Usage) -> (r: String)
    ensures
        r@ == memory_band_text(*memory, *swap),
{
    let mut s = String::new();
    s.append("Memory: ");
    push_decimal(&mut s, memory.used_mb() as u128);
    s.append(" MB / ");
    push_decimal(&mut s, memory.total_mb() as u128);
    s.append(" MB, Swap: ");
    push_decimal(&mut s, swap.used_mb() as u128);
    s.append(" MB / ");
    push_decimal(&mut s, swap.total_mb() as u128);
    s.append(" MB");
    proof {
        assert(s@ =~= memory_band_text(*memory, *swap));
    }
    s
}

/// The process table's row for `p`.
pub fn process_row(p: &ProcessSample) -> (r: ProcessRow)
    ensures
        shows_process(r, p@),
{
    let mut pid = String::new();
    push_decimal(&mut pid, p.pid as u128);
    assert(pid@ =~= dec(p.pid as nat));
    let mut cpu = String::new();
    push_tenths(&mut cpu, div_round_half_even(p.cpu_centi as u128, 10));
    cpu.append("%");
    assert(cpu@ =~= cpu_cell(p.cpu_centi as nat));
    let mut memory = String::new();
    push_tenths(&mut memory, div_round_half_even(p.memory_kb as u128 * 10, 1024));
    memory.append(" MB");
    assert(memory@ =~= memory_cell(p.memory_kb as nat));
    ProcessRow { pid, name: p.name.clone(), cpu, memory }
}

/// The column titles of the process table.
pub fn process_header() -> (r: Vec<String>)
    ensures
        r@.len() == 4,
        r[0]@ == "PID"@,
        r[1]@ == "Name"@,
        r[2]@ == "CPU"@,
        r[3]@ == "Memory"@,
{
    vec![
        String::from_str("PID"),
        String::from_str("Name"),
        String::from_str("CPU"),
        String::from_str("Memory"),
    ]
}

/// The rows of the process table: the `n` processes that use the most CPU,
/// ranked as [`rank_processes`] ranks them.
pub fn process_rows(procs: &Vec<ProcessSample>, n: usize) -> (r: Vec<ProcessRow>)
    ensures
        shows_ranking(r@, samples_view(procs@), n as nat),
{
    let ranked = rank_processes(procs, n);
    let ghost rv = samples_view(ranked@);
    let mut out: Vec<ProcessRow> = Vec::new();
    let mut i: usize = 0;
    while i < ranked.len()
        invariant
            i <= ranked.len(),
            out.len() == i,
            rv == samples_view(ranked@),
            forall|k: int| 0 <= k < i ==> shows_process(#[trigger] out[k], rv[k]),
        decreases ranked.len() - i,
    {
        out.push(process_row(&ranked[i]));
        i = i + 1;
    }
    assert(is_ranked_view(samples_view(procs@), n as nat, rv));
    assert(forall|k: int| 0 <= k < out@.len() ==> shows_process(#[trigger] out@[k], rv[k]));
    out
}

fn fact_value(o: &Option<String>) -> (r: String)
    ensures
        r@ == fact_text(*o),
{
    match o {
        Some(s) => s.clone(),
        None => String::from_str("Unknown"),
    }
}

fn number_fact_value(o: &Option<u64>) -> (r: String)
    ensures
        r@ == number_fact_text(*o),
{
    match o {
        Some(n) => {
            let mut s = String::new();
            push_decimal(&mut s, *n as u128);
            assert(s@ =~= dec(*n as nat));
            s
        },
        None => String::from_str("Unknown"),
    }
}

fn info_row(label: &str, value: String) -> (r: InfoRow)
    ensures
        r.label@ == label@,
        r.value@ == value@,
{
    InfoRow { label: String::from_str(label), value }
}

/// The rows of the info band; each absent fact reads `Unknown`.
pub fn info_rows(s: &Snapshot) -> (r: Vec<InfoRow>)
    ensures
        r.len() == info_band(*s).len(),
        forall|k: int|
            0 <= k < r.len() ==> (#[trigger] r[k]).label@ == info_band(*s)[k].0 && r[k].value@
                == info_band(*s)[k].1,
{
    let mut cores = String::new();
    push_decimal(&mut cores, s.cores.len() as u128);
    let h: &HostFacts = &s.host;
    let r = vec![
        info_row("Number of cpus", cores),
        info_row("CPU Architecture", fact_value(&h.cpu_arch)),
        info_row("Brand", fact_value(&s.cpu_brand)),
        info_row("Uptime", number_fact_value(&h.uptime_secs)),
        info_row("kernel long version", fact_value(&h.kernel_version)),
        info_row("long os version", fact_value(&h.os_version)),
        info_row("Host name", fact_value(&h.host_name)),
        info_row("Open files limit", number_fact_value(&h.open_files_limit)),
        info_row("Product Name", fact_value(&h.product_name)),
        info_row("Vendor name", fact_value(&h.vendor_name)),
    ];
    assert(r.len() == 10);
    r
}

} // verus!
