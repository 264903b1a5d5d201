//! Band model, parameter transitions and the integer rules of a parametric
//! equalizer display.
//!
//! The scalar type of frequencies, gains and Q values is a parameter of the
//! model: the library stores and moves these values, while the arithmetic on
//! them (scales, response curves) belongs to the rendering layer.

mod band;
mod layout;
mod markers;
mod meter;
mod model;
mod pass_filter;

pub use band::{
    band_with, entry_with, lemma_active_keeps_fields, lemma_q_does_not_apply_to_pass_filters,
    update_band, EqBand, Parameter,
};
pub use model::{
    active_indices, bands_after, lemma_active_indices, lemma_sum_takes_active_bands_only,
    lemma_update_past_end_keeps_bands, lemma_update_touches_one_entry, EqModel,
};
pub use hit_test::{is_first_nearest, nearest};
pub use markers::{
    filter, frequency_markers, gain_markers, major_frequency_marker_values,
    major_frequency_markers, major_gain_marker_values, major_gain_markers,
    minor_frequency_marker_values, minor_frequency_markers, minor_gain_marker_values,
    minor_gain_markers, within,
};
pub use pass_filter::{
    coefficient_row, order_of, pass_filter_stages, stage_count, COEFFICIENT_SCALE, MAX_ORDER,
};
pub use layout::{HorizontalPosition, Ignore, LabelFormat, Layout, VerticalPosition};
pub use meter::MeterModel;
