use palette_anneal::{ContrastNeed, WeightPartition, Weights, PARTITION_TOLERANCE, UNIT};

fn default_weights() -> Weights {
    Weights {
        contrast_weight: 20000,
        distance_weight: 7500,
        range_weight: 2500,
        target_weight: 5000,
        protanopia_weight: 3300,
        deuteranopia_weight: 3300,
        tritanopia_weight: 3300,
        distance_bg_bg_weight: 1000,
        distance_bg_fg_weight: 2000,
        distance_fg_fg_weight: 7000,
        target_bg_weight: 1000,
        target_fg_weight: 9000,
        contrast_bg_bg_weight: 2000,
        contrast_bg_fg_weight: 8000,
    }
}

fn partition_sums(w: &Weights) -> (u32, u32, u32) {
    (
        w.distance_bg_bg_weight + w.distance_bg_fg_weight + w.distance_fg_fg_weight,
        w.target_bg_weight + w.target_fg_weight,
        w.contrast_bg_bg_weight + w.contrast_bg_fg_weight,
    )
}

#[test]
fn minimum_ratios() {
    assert_eq!(ContrastNeed::Background.minimum_ratio(), 30000);
    assert_eq!(ContrastNeed::Text.minimum_ratio(), 45000);
}

#[test]
fn consistent_weights_pass_unchanged() {
    let w = default_weights();
    assert_eq!(w.initialize(), Ok(w));
}

#[test]
fn initialize_derives_the_last_member() {
    let mut w = default_weights();
    w.distance_fg_fg_weight = 7099;
    w.target_fg_weight = 8950;
    w.contrast_bg_fg_weight = 8100;
    let r = w.initialize().unwrap();
    assert_eq!(r.distance_fg_fg_weight, 7000);
    assert_eq!(r.target_fg_weight, 9000);
    assert_eq!(r.contrast_bg_fg_weight, 8000);
    assert_eq!(r.contrast_weight, 20000);
    assert_eq!(partition_sums(&r), (UNIT, UNIT, UNIT));
}

#[test]
fn initialized_partitions_sum_to_one() {
    let mut w = default_weights();
    w.distance_bg_bg_weight = 0;
    w.distance_bg_fg_weight = 3333;
    w.distance_fg_fg_weight = 6667 + PARTITION_TOLERANCE;
    w.target_bg_weight = 10000;
    w.target_fg_weight = 0;
    w.contrast_bg_bg_weight = 4321;
    w.contrast_bg_fg_weight = 5679 - PARTITION_TOLERANCE;
    let r = w.initialize().unwrap();
    assert_eq!(partition_sums(&r), (UNIT, UNIT, UNIT));
    assert_eq!(r.distance_fg_fg_weight, 6667);
    assert_eq!(r.contrast_bg_fg_weight, 5679);
}

#[test]
fn distance_partition_out_of_tolerance() {
    let mut w = default_weights();
    w.distance_fg_fg_weight = 7101;
    assert_eq!(w.initialize(), Err(WeightPartition::Distance));
    w.distance_fg_fg_weight = 6899;
    assert_eq!(w.initialize(), Err(WeightPartition::Distance));
}

#[test]
fn target_partition_out_of_tolerance() {
    let mut w = default_weights();
    w.target_fg_weight = 9101;
    assert_eq!(w.initialize(), Err(WeightPartition::Target));
}

#[test]
fn contrast_partition_out_of_tolerance() {
    let mut w = default_weights();
    w.contrast_bg_fg_weight = 0;
    assert_eq!(w.initialize(), Err(WeightPartition::Contrast));
}

#[test]
fn distance_checked_before_target() {
    let mut w = default_weights();
    w.distance_fg_fg_weight = 0;
    w.target_fg_weight = 0;
    assert_eq!(w.initialize(), Err(WeightPartition::Distance));
}

#[test]
fn fixed_members_above_one_are_malformed() {
    let mut w = default_weights();
    w.target_bg_weight = 10050;
    w.target_fg_weight = 0;
    assert_eq!(w.initialize(), Err(WeightPartition::Target));
}
