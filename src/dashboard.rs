use vstd::prelude::*;
use crate::layout::{band_rect, split_bands, Rect, SizePolicy};
use crate::render::{
    cpu_band_text, cpu_text, info_band, info_rows, memory_band_text, memory_text, process_header,
    process_rows, shows_ranking, InfoRow, ProcessRow,
};
use crate::snapshot::{samples_view, Snapshot};

verus! {

/// What a panel shows.
#[derive(Clone, Copy, Debug, PartialEq, Eq, Structural)]
pub enum PanelKind {
    Cpu,
    Memory,
    Processes,
    Info,
}

/// A panel and the rows it takes.
#[derive(Clone, Copy, Debug, PartialEq, Eq, Structural)]
pub struct PanelSpec {
    pub kind: PanelKind,
    pub size: SizePolicy,
}

/// The panels, top to bottom, and how many processes the table lists.
pub struct DashboardConfig {
    pub panels: Vec<PanelSpec>,
    pub display_count: usize,
}

/// The size policies of `panels`, in order.
pub open spec fn panel_sizes(panels: Seq<PanelSpec>) -> Seq<SizePolicy> {
    panels.map_values(|p: PanelSpec| p.size)
}

impl DashboardConfig {
    /// CPU, memory, the five busiest processes and the host facts.
    pub fn overview() -> (r: DashboardConfig)
        ensures
            r.display_count == 5,
            r.panels@ == seq![
                PanelSpec { kind: PanelKind::Cpu, size: SizePolicy::Exact(3) },
                PanelSpec { kind: PanelKind::Memory, size: SizePolicy::Exact(3) },
                PanelSpec { kind: PanelKind::Processes, size: SizePolicy::AtLeast(8) },
                PanelSpec { kind: PanelKind::Info, size: SizePolicy::AtLeast(10) },
            ],
    {
        let panels = vec![
            PanelSpec { kind: PanelKind::Cpu, size: SizePolicy::Exact(3) },
            PanelSpec { kind: PanelKind::Memory, size: SizePolicy::Exact(3) },
            PanelSpec { kind: PanelKind::Processes, size: SizePolicy::AtLeast(8) },
            PanelSpec { kind: PanelKind::Info, size: SizePolicy::AtLeast(10) },
        ];
        DashboardConfig { panels, display_count: 5 }
    }

    /// CPU, memory and the twenty busiest processes.
    pub fn top_processes() -> (r: DashboardConfig)
        ensures
            r.display_count == 20,
            r.panels@ == seq![
                PanelSpec { kind: PanelKind::Cpu, size: SizePolicy::Exact(3) },
                PanelSpec { kind: PanelKind::Memory, size: SizePolicy::Exact(3) },
                PanelSpec { kind: PanelKind::Processes, size: SizePolicy::AtLeast(10) },
            ],
    {
        let panels = vec![
            PanelSpec { kind: PanelKind::Cpu, size: SizePolicy::Exact(3) },
            PanelSpec { kind: PanelKind::Memory, size: SizePolicy::Exact(3) },
            PanelSpec { kind: PanelKind::Processes, size: SizePolicy::AtLeast(10) },
        ];
        DashboardConfig { panels, display_count: 20 }
    }
}

/// Everything one frame shows: the area of each panel, in the order of the
/// configuration, and the content of every kind of panel.
pub struct Frame {
    pub areas: Vec<Rect>,
    pub cpu: String,
    pub memory: String,
    pub header: Vec<String>,
    pub processes: Vec<ProcessRow>,
    pub info: Vec<InfoRow>,
}

/// Lays out and fills one frame from one snapshot, for a terminal of
/// `width` by `height` cells.
pub fn compose_frame(snap: &Snapshot, config: &DashboardConfig, width: u16, height: u16) -> (r:
    Frame)
    ensures
        r.areas.len() == config.panels.len(),
        forall|i: int|
            0 <= i < r.areas.len() ==> r.areas[i] == band_rect(
                panel_sizes(config.panels@),
                width,
                height,
                i,
            ),
        r.cpu@ == cpu_band_text(snap.cores@),
        r.memory@ == memory_band_text(snap.memory, snap.swap),
        r.header@.len() == 4,
        r.header[0]@ == "PID"@,
        r.header[1]@ == "Name"@,
        r.header[2]@ == "CPU"@,
        r.header[3]@ == "Memory"@,
        shows_ranking(r.processes@, samples_view(snap.processes@), config.display_count as nat),
        r.info.len() == info_band(*snap).len(),
        forall|k: int|
            0 <= k < r.info.len() ==> (#[trigger] r.info[k]).label@ == info_band(*snap)[k].0
                && r.info[k].value@ == info_band(*snap)[k].1,
{
    let mut sizes: Vec<SizePolicy> = Vec::new();
    let mut i: usize = 0;
    while i < config.panels.len()
        invariant
            i <= config.panels.len(),
            sizes@ == panel_sizes(config.panels@).subrange(0, i as int),
        decreases config.panels.len() - i,
    {
        sizes.push(config.panels[i].size);
        i = i + 1;
        assert(sizes@ =~= panel_sizes(config.panels@).subrange(0, i as int));
    }
    assert(sizes@ =~= panel_sizes(config.panels@));
    Frame {
        areas: split_bands(width, height, &sizes),
        cpu: cpu_text(&snap.cores),
        memory: memory_text(&snap.memory, &snap.swap),
        header: process_header(),
        processes: process_rows(&snap.processes, config.display_count),
        info: info_rows(snap),
    }
}

} // verus!
