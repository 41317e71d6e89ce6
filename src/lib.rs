//! A live terminal dashboard of host metrics: the verified core that ranks
//! processes, splits the screen into bands, turns a snapshot into the text
//! of each band and decides, tick by tick, what the driving loop does next.

mod dashboard;
mod decimal;
mod layout;
mod ranker;
mod render;
mod snapshot;
mod tick;

pub use dashboard::{compose_frame, panel_sizes, DashboardConfig, Frame, PanelKind, PanelSpec};
pub use decimal::{decimal_text, dec, digit_char, round_half_even, tenths_text};
pub use layout::{
    band_height, band_offset, band_rect, base_rows, heights_total, interior,
    lemma_bands_fill_interior, rows_asked_before, split_bands, Rect, SizePolicy,
};
pub use ranker::{
    is_ranked_view, is_top_ranking, lemma_ranked_view_draws_from_input, rank_processes,
    ranks_before,
};
pub use render::{
    core_sum, cpu_band_text, cpu_cell, cpu_text, fact_text, info_band, info_rows, memory_band_text,
    memory_cell, memory_text, number_fact_text, process_header, process_row, process_rows,
    shows_process, shows_ranking, InfoRow, ProcessRow,
};
pub use snapshot::{samples_view, HostFacts, ProcessSample, ProcessView, Snapshot, Usage};
pub use tick::{
    is_quit, lemma_stops_only_on_quit, lemma_wait_within_tick, next_step, remaining_ms,
    remaining_timeout, InputEvent, LoopAction, LoopEvent, LoopState, TickLoop, TICK_MS,
};
