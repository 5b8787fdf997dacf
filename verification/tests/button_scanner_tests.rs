use alarm_clock::button_scanner::{
    ButtonScanner, BUTTON_MAX_VAL, CAP_THRESHOLD, DRAIN_SCANS,
};

/// Runs the drain phase out, returning how many scans asked for the send pin low.
fn drain(s: &mut ButtonScanner) -> u32 {
    let mut lows = 0;
    while !s.is_charging() {
        if s.button_scan(|_| false) {
            lows += 1;
        }
    }
    lows
}

#[test]
fn new_scanner_is_idle() {
    let s = ButtonScanner::new();
    assert_eq!((s.get_main(), s.get_up(), s.get_down()), (0, 0, 0));
    assert!(s.is_charging());
    assert_eq!(s.cap_button(), 0);
}

#[test]
fn touch_marks_press_for_one_scan() {
    let mut s = ButtonScanner::new();
    assert!(s.button_scan(|b| b == 0));
    assert_eq!(s.get_main(), BUTTON_MAX_VAL);
    assert!(!s.is_charging());
    assert_eq!(s.cap_button(), 1);
    // The first drain scan lowers the mark and drives the send pin low.
    assert!(s.button_scan(|_| false));
    assert_eq!(s.get_main(), BUTTON_MAX_VAL - 1);
    assert!(!s.button_scan(|_| false));
    assert_eq!(s.get_main(), BUTTON_MAX_VAL - 1);
}

#[test]
fn drain_lasts_drain_scans() {
    let mut s = ButtonScanner::new();
    s.button_scan(|_| false);
    let mut scans = 0;
    while !s.is_charging() {
        s.button_scan(|_| false);
        scans += 1;
    }
    assert_eq!(scans, DRAIN_SCANS);
}

#[test]
fn sampling_stops_past_threshold() {
    let mut s = ButtonScanner::new();
    let calls = std::cell::Cell::new(0u32);
    s.button_scan(|_| {
        calls.set(calls.get() + 1);
        true
    });
    assert_eq!(calls.get(), CAP_THRESHOLD + 1);
    assert_eq!(s.get_main(), BUTTON_MAX_VAL);
}

#[test]
fn short_low_run_is_no_touch() {
    let mut s = ButtonScanner::new();
    let calls = std::cell::Cell::new(0u32);
    s.button_scan(|_| {
        calls.set(calls.get() + 1);
        calls.get() <= CAP_THRESHOLD
    });
    assert_eq!(calls.get(), CAP_THRESHOLD + 1);
    assert_eq!(s.get_main(), 0);
}

#[test]
fn charge_samples_count_low_reads_up_to_the_threshold() {
    let mut s = ButtonScanner::new();
    // Eight low reads keep sampling; the ninth reaches past the threshold.
    for _ in 0..CAP_THRESHOLD {
        assert!(s.charge_sample(true));
    }
    assert!(!s.charge_sample(true));
    s.finish_charge();
    assert_eq!(s.get_main(), BUTTON_MAX_VAL);
    drain(&mut s);
    drain_cycle_to(&mut s, 0);
    // A high read ends sampling; eight lows are no touch, so the counter
    // (lowered to 3 by the drain) decays.
    for _ in 0..CAP_THRESHOLD {
        assert!(s.charge_sample(true));
    }
    assert!(!s.charge_sample(false));
    s.finish_charge();
    assert_eq!(s.get_main(), BUTTON_MAX_VAL - 2);
}

#[test]
fn first_high_read_ends_measurement() {
    let mut s = ButtonScanner::new();
    assert!(s.charge_sample(true));
    assert!(!s.charge_sample(false));
    s.finish_charge();
    assert_eq!(s.get_main(), 0);
    assert!(!s.is_charging());
    assert!(s.drain_scan());
    assert!(!s.drain_scan());
}

fn drain_cycle_to(s: &mut ButtonScanner, button: u8) {
    while !(s.is_charging() && s.cap_button() == button) {
        s.button_scan(|_| false);
    }
}

#[test]
fn held_touch_stays_below_mark_and_release_decays() {
    let mut s = ButtonScanner::new();
    // Touch the up button for three of its scans.
    for _ in 0..3 {
        drain_cycle_to(&mut s, 1);
        s.button_scan(|b| b == 1);
        drain(&mut s);
        assert_eq!(s.get_up(), BUTTON_MAX_VAL - 1);
    }
    // Release: the counter decays one step per scan of the button.
    let mut seen = vec![];
    for _ in 0..4 {
        drain_cycle_to(&mut s, 1);
        s.button_scan(|_| false);
        seen.push(s.get_up());
    }
    assert_eq!(seen, vec![2, 1, 0, 0]);
}

#[test]
fn buttons_are_sensed_in_turn() {
    let mut s = ButtonScanner::new();
    let mut order = vec![];
    for _ in 0..6 {
        let b = s.cap_button();
        drain_cycle_to(&mut s, b);
        order.push(s.cap_button());
        s.button_scan(|_| false);
    }
    assert_eq!(order, vec![0, 1, 2, 0, 1, 2]);
}

#[test]
fn scan_schedule_samples_every_501st_scan_in_turn() {
    let mut s = ButtonScanner::new();
    let mut sampled = vec![];
    for n in 1u32..=2004 {
        if s.is_charging() {
            sampled.push((n, s.cap_button()));
        }
        s.button_scan(|_| false);
    }
    assert_eq!(sampled, vec![(1, 0), (502, 1), (1003, 2), (1504, 0)]);
    for (n, _) in sampled {
        assert_eq!(n % (DRAIN_SCANS + 1), 1);
    }
}
