//! Per-component filtering and formatting policy for a process-wide logging
//! dispatcher: records are admitted by a fixed component/severity table,
//! rendered with a colour-coded severity tag and a trimmed source location,
//! and written to standard error through the `log` facade via `fern`.

mod format;
mod policy;
mod setup;
mod severity;
mod strip;
mod style;

pub use format::{dec_seq, format_level, format_line_spec, format_record, level_tag};
pub use format::{lemma_format_deterministic, lemma_missing_location};
pub use format::{location_spec, padded_label, render_location, severity_color, u32_decimal};
pub use policy::{component_of, first_delim, lookup_policy, policy_spec, should_emit};
pub use policy::{component_segment, should_emit_spec};
pub use policy::{lemma_always_on, lemma_threshold_gate, lemma_unknown_component_suppressed};
pub use setup::{setup_logging, InitError};
pub use severity::{Filter, Severity};
pub use strip::{last_marker_at, marker, marker_at, strip_src, strip_src_spec};
pub use strip::{lemma_strip_no_marker, lemma_strip_unique_marker};
pub use style::{paint, painted, style_prefix, style_reset, styled, Color};
