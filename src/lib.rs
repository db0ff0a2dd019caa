//! Search support for small color palettes: the discrete rules of the
//! cost model and the state that an annealing search mutates.
//!
//! Quantities that the rules read are held as integers: weights, ratios and
//! severities in ten-thousandths, projection constants in
//! hundred-thousandths.

mod cost;
mod pairs;
mod random;
mod state;
mod theme;
mod vision;

pub use cost::{
    lemma_initialize_keeps_consistent_weights, lemma_initialized_partitions_sum_to_one,
    partition_usable, Attention, ContrastNeed, DrawAttention, WeightPartition, Weights,
    PARTITION_TOLERANCE, UNIT,
};
pub use pairs::{
    cross, cross_pairs, cross_row, cross_rows, pairwise, upper_pairs, upper_row, upper_rows,
};
pub use random::{random_channel, replace_channel};
pub use state::{lemma_rollback_restores, State};
pub use theme::{
    hex_code_value, hex_digit_value, hex_digits, is_hex_code, rgb, shade_colors,
    BackgroundColors, Mode, Rgb8, Shade,
};
pub use vision::{
    lemma_only_normal_vision_is_identity, BrettelParams, Deficiency, Severity, Simulation, Vision,
    MATRIX_UNIT, SEVERITY_UNIT,
};
