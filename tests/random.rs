use palette_anneal::{random_channel, replace_channel};
use rand::rngs::StdRng;
use rand::SeedableRng;

#[test]
fn random_channel_stays_in_range() {
    let mut rng = StdRng::from_seed([0u8; 32]);
    let mut seen = [false; 3];
    for _ in 0..10000 {
        let ch = random_channel(&mut rng);
        assert!(ch < 3);
        seen[ch] = true;
    }
    assert_eq!(seen, [true, true, true]);
}

#[test]
fn replace_channel_changes_one_channel() {
    let mid = [0.5f32, 0.5, 0.5];
    let mut rng = StdRng::from_seed([0u8; 32]);
    for _ in 0..10000 {
        let ch = random_channel(&mut rng);
        let out = replace_channel(mid, ch, 0.75f32);
        for k in 0..3 {
            if k == ch {
                assert_eq!(out[k], 0.75);
            } else {
                assert_eq!(out[k], 0.5);
            }
        }
    }
}
