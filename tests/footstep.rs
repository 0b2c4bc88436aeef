use stride::footstep::{play_step, FootstepError, StepCue};

#[test]
fn empty_pool_is_an_error() {
    assert_eq!(play_step(0, true), Err(FootstepError::EmptyCuePool));
    assert_eq!(play_step(0, false), Err(FootstepError::EmptyCuePool));
}

#[test]
fn single_cue_is_always_chosen() {
    for _ in 0..200 {
        assert_eq!(play_step(1, true), Ok(StepCue { cue: 0, attach: true }));
    }
}

#[test]
fn missing_anchor_leaves_emitter_unattached() {
    let r = play_step(3, false).unwrap();
    assert!(!r.attach);
    assert!(r.cue < 3);
}

#[test]
fn chosen_cue_stays_in_pool() {
    for _ in 0..500 {
        let r = play_step(7, true).unwrap();
        assert!(r.cue < 7);
        assert!(r.attach);
    }
}

#[test]
fn cue_choice_is_uniform() {
    let n: usize = 4;
    let trials: usize = 4000;
    let mut counts = vec![0usize; n];
    for _ in 0..trials {
        counts[play_step(n, true).unwrap().cue] += 1;
    }
    let expected = trials as f64 / n as f64;
    let chi2: f64 = counts
        .iter()
        .map(|&c| {
            let d = c as f64 - expected;
            d * d / expected
        })
        .sum();
    // Three degrees of freedom: above 25 has odds below two in a hundred thousand.
    assert!(chi2 < 25.0, "chi-square {} over counts {:?}", chi2, counts);
}

#[test]
fn large_pool_reaches_last_cue() {
    let mut seen_last = false;
    for _ in 0..2000 {
        if play_step(5, true).unwrap().cue == 4 {
            seen_last = true;
        }
    }
    assert!(seen_last);
}
