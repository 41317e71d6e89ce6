use sysdash::{
    compose_frame, cpu_text, decimal_text, info_rows, memory_text, process_header, process_row,
    process_rows, rank_processes, remaining_timeout, split_bands, DashboardConfig, HostFacts,
    InputEvent, LoopAction, LoopEvent, LoopState, PanelKind, ProcessSample, Rect, SizePolicy,
    Snapshot, TickLoop, Usage, TICK_MS,
};

fn sample(pid: u32, name: &str, cpu_centi: u32, memory_kb: u64) -> ProcessSample {
    ProcessSample::new(pid, name.to_string(), cpu_centi, memory_kb)
}

fn snapshot(cores: Vec<u32>, processes: Vec<ProcessSample>) -> Snapshot {
    Snapshot {
        cores,
        cpu_brand: None,
        memory: Usage::from_provider(0, 0),
        swap: Usage::from_provider(0, 0),
        processes,
        host: HostFacts::unknown(),
    }
}

fn pids(rows: &[ProcessSample]) -> Vec<u32> {
    rows.iter().map(|p| p.pid).collect()
}

#[test]
fn cpu_band_sums_four_cores() {
    let text = cpu_text(&vec![1000, 2000, 3000, 4000]);
    assert_eq!(text, "CPU Usage: 100.0% / 400%");
}

#[test]
fn cpu_band_rounds_to_one_decimal() {
    assert_eq!(cpu_text(&vec![1234, 1]), "CPU Usage: 12.4% / 200%");
    assert_eq!(cpu_text(&vec![25]), "CPU Usage: 0.2% / 100%");
    assert_eq!(cpu_text(&vec![35]), "CPU Usage: 0.4% / 100%");
    assert_eq!(cpu_text(&vec![]), "CPU Usage: 0.0% / 0%");
}

#[test]
fn ranking_keeps_input_order_on_ties() {
    let procs = vec![sample(1, "a", 500, 100), sample(2, "b", 5000, 200), sample(3, "c", 5000, 50)];
    let ranked = rank_processes(&procs, 2);
    assert_eq!(pids(&ranked), vec![2, 3]);
    assert_eq!(ranked[0].name, "b");
    assert_eq!(ranked[1].name, "c");
}

#[test]
fn ranking_is_cut_to_display_count() {
    let procs: Vec<ProcessSample> =
        (0..30u32).map(|i| sample(i, "p", (i * 37) % 11 * 100 + i, 1)).collect();
    let ranked = rank_processes(&procs, 5);
    assert_eq!(ranked.len(), 5);
    for w in ranked.windows(2) {
        assert!(w[0].cpu_centi >= w[1].cpu_centi);
    }
    for r in &ranked {
        assert!(procs.iter().any(|p| p.pid == r.pid && p.cpu_centi == r.cpu_centi));
    }
    assert_eq!(rank_processes(&procs, 100).len(), 30);
    assert_eq!(rank_processes(&procs, 0).len(), 0);
    assert_eq!(rank_processes(&vec![], 5).len(), 0);
}

#[test]
fn ranking_uses_fractional_usage() {
    let procs = vec![sample(7, "x", 1201, 1), sample(8, "y", 1299, 1), sample(9, "z", 1250, 1)];
    assert_eq!(pids(&rank_processes(&procs, 3)), vec![8, 9, 7]);
}

#[test]
fn process_row_formats_cells() {
    let row = process_row(&sample(42, "editor", 1234, 2048));
    assert_eq!(row.pid, "42");
    assert_eq!(row.name, "editor");
    assert_eq!(row.cpu, "12.3%");
    assert_eq!(row.memory, "2.0 MB");
    assert_eq!(process_row(&sample(1, "t", 0, 256)).memory, "0.2 MB");
    assert_eq!(process_row(&sample(1, "t", 5, 1536)).memory, "1.5 MB");
    assert_eq!(process_row(&sample(1, "t", 5, 1536)).cpu, "0.0%");
}

#[test]
fn process_rows_follow_the_ranking() {
    let procs = vec![sample(1, "a", 500, 100), sample(2, "b", 5000, 200), sample(3, "c", 5000, 50)];
    let rows = process_rows(&procs, 2);
    assert_eq!(rows.len(), 2);
    assert_eq!(rows[0].pid, "2");
    assert_eq!(rows[0].cpu, "50.0%");
    assert_eq!(rows[1].pid, "3");
    assert_eq!(process_header(), vec!["PID", "Name", "CPU", "Memory"]);
}

#[test]
fn memory_band_text() {
    let mem = Usage::from_provider(2048, 8192);
    let swap = Usage::from_provider(0, 1024);
    assert_eq!(memory_text(&mem, &swap), "Memory: 2048 MB / 8192 MB, Swap: 0 MB / 1024 MB");
}

#[test]
fn usage_never_exceeds_total() {
    let u = Usage::from_provider(900, 500);
    assert_eq!(u.used_mb(), 500);
    assert_eq!(u.total_mb(), 500);
    let v = Usage::from_provider(10, 500);
    assert_eq!(v.used_mb(), 10);
}

#[test]
fn info_band_reads_unknown_when_nothing_is_known() {
    let snap = snapshot(vec![], vec![]);
    let rows = info_rows(&snap);
    assert_eq!(rows.len(), 10);
    assert_eq!(rows[0].label, "Number of cpus");
    assert_eq!(rows[0].value, "0");
    for row in &rows[1..] {
        assert_eq!(row.value, "Unknown");
    }
}

#[test]
fn info_band_shows_known_facts() {
    let mut snap = snapshot(vec![100, 200], vec![]);
    snap.cpu_brand = Some("Acme CPU".to_string());
    snap.host.host_name = Some("box".to_string());
    snap.host.uptime_secs = Some(3600);
    snap.host.open_files_limit = Some(1024);
    let rows = info_rows(&snap);
    assert_eq!(rows[0].value, "2");
    assert_eq!(rows[2].label, "Brand");
    assert_eq!(rows[2].value, "Acme CPU");
    assert_eq!(rows[3].value, "3600");
    assert_eq!(rows[6].value, "box");
    assert_eq!(rows[7].value, "1024");
    assert_eq!(rows[8].value, "Unknown");
}

fn overview_sizes() -> Vec<SizePolicy> {
    DashboardConfig::overview().panels.iter().map(|p| p.size).collect()
}

#[test]
fn bands_fill_the_interior() {
    let bands = split_bands(80, 40, &overview_sizes());
    let heights: Vec<u16> = bands.iter().map(|r| r.height).collect();
    assert_eq!(heights, vec![3, 3, 8, 24]);
    assert_eq!(heights.iter().sum::<u16>(), 38);
    assert_eq!(bands[0], Rect { x: 1, y: 1, width: 78, height: 3 });
    assert_eq!(bands[2].y, 7);
    assert_eq!(bands[3].y, 15);
}

#[test]
fn bands_clip_on_a_small_terminal() {
    let bands = split_bands(20, 12, &overview_sizes());
    let heights: Vec<u16> = bands.iter().map(|r| r.height).collect();
    assert_eq!(heights, vec![3, 3, 4, 0]);
    let tiny = split_bands(1, 1, &overview_sizes());
    assert!(tiny.iter().all(|r| *r == Rect { x: 0, y: 0, width: 0, height: 0 }));
}

#[test]
fn bands_of_the_process_profile() {
    let config = DashboardConfig::top_processes();
    assert_eq!(config.display_count, 20);
    let sizes: Vec<SizePolicy> = config.panels.iter().map(|p| p.size).collect();
    let heights: Vec<u16> = split_bands(100, 30, &sizes).iter().map(|r| r.height).collect();
    assert_eq!(heights, vec![3, 3, 22]);
}

#[test]
fn remaining_timeout_is_never_negative() {
    assert_eq!(remaining_timeout(1000, 0), 1000);
    assert_eq!(remaining_timeout(1000, 250), 750);
    assert_eq!(remaining_timeout(1000, 1000), 0);
    assert_eq!(remaining_timeout(1000, 5000), 0);
    assert_eq!(remaining_timeout(1000, u64::MAX), 0);
}

#[test]
fn quit_on_first_poll_stops_after_one_render() {
    let mut tl = TickLoop::new(TICK_MS);
    assert_eq!(tl.step(LoopEvent::Started), LoopAction::Render { reset_anchor: false });
    assert_eq!(tl.step(LoopEvent::Rendered { elapsed_ms: 30 }), LoopAction::Wait { timeout_ms: 970 });
    let a = tl.step(LoopEvent::Polled { input: InputEvent::Key('q'), elapsed_ms: 100 });
    assert_eq!(a, LoopAction::Exit);
    assert_eq!(tl.state, LoopState::Stopped);
    assert!(!tl.is_running());
    assert_eq!(tl.renders, 1);
    assert_eq!(tl.step(LoopEvent::Started), LoopAction::Exit);
}

#[test]
fn other_input_keeps_the_tick() {
    let mut tl = TickLoop::new(1000);
    tl.step(LoopEvent::Started);
    tl.step(LoopEvent::Rendered { elapsed_ms: 10 });
    let a = tl.step(LoopEvent::Polled { input: InputEvent::Key('x'), elapsed_ms: 400 });
    assert_eq!(a, LoopAction::Wait { timeout_ms: 600 });
    let b = tl.step(LoopEvent::Polled { input: InputEvent::Other, elapsed_ms: 700 });
    assert_eq!(b, LoopAction::Wait { timeout_ms: 300 });
    let c = tl.step(LoopEvent::Polled { input: InputEvent::Timeout, elapsed_ms: 1001 });
    assert_eq!(c, LoopAction::Render { reset_anchor: true });
    assert_eq!(tl.renders, 2);
    assert_eq!(tl.state, LoopState::Running);
}

#[test]
fn frame_holds_every_band() {
    let procs = vec![sample(1, "a", 500, 100), sample(2, "b", 5000, 200), sample(3, "c", 5000, 50)];
    let snap = snapshot(vec![1000, 2000, 3000, 4000], procs);
    let config = DashboardConfig::overview();
    let frame = compose_frame(&snap, &config, 80, 40);
    assert_eq!(frame.areas.len(), 4);
    assert_eq!(config.panels[3].kind, PanelKind::Info);
    assert_eq!(frame.areas[3].height, 24);
    assert_eq!(frame.cpu, "CPU Usage: 100.0% / 400%");
    assert_eq!(frame.memory, "Memory: 0 MB / 0 MB, Swap: 0 MB / 0 MB");
    assert_eq!(frame.header.len(), 4);
    assert_eq!(frame.processes.len(), 3);
    assert_eq!(frame.processes[0].pid, "2");
    assert_eq!(frame.info.len(), 10);
}

#[test]
fn decimal_text_values() {
    assert_eq!(decimal_text(0), "0");
    assert_eq!(decimal_text(7), "7");
    assert_eq!(decimal_text(1200), "1200");
    assert_eq!(decimal_text(u64::MAX), u64::MAX.to_string());
}
