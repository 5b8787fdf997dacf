//! Capacitive sensing of the three buttons (main, up, down).
//!
//! One scan either drains the sense line or charges it and measures how long
//! the current button's receive pin stays low. A button whose pin stays low
//! past a threshold counts as touched. Each button has a counter: it jumps to
//! `BUTTON_MAX_VAL` when a touch starts, is held one below that while the touch
//! lasts, and decays to zero once released. The counter reads `BUTTON_MAX_VAL`
//! for exactly one scan, so that value marks the start of a press.
use vstd::prelude::*;
use vstd::arithmetic::div_mod::{lemma_fundamental_div_mod, lemma_fundamental_div_mod_converse};

verus! {

/// The counter value that marks a press that has just begun.
pub const BUTTON_MAX_VAL: u32 = 4;

/// Number of low samples past which a button counts as touched.
pub const CAP_THRESHOLD: u32 = 8;

/// Number of scans that the drain phase lasts.
pub const DRAIN_SCANS: u32 = 500;

/// The two phases of the sense line.
#[derive(Clone, Copy, Debug, PartialEq, Eq)]
pub enum CapPhase {
    Charge,
    Drain,
}

/// The state of the scanner, as contracts speak of it.
#[derive(Clone, Copy, Debug, PartialEq, Eq)]
pub struct ScannerView {
    pub main: u32,
    pub up: u32,
    pub down: u32,
    pub phase: CapPhase,
    pub cap_button: u8,
    pub cap_count: u32,
}

/// Scanner state without the pins: the three press counters and the
/// position in the charge/drain cycle.
pub struct ButtonScanner {
    main_button_counter: u32,
    up_button_counter: u32,
    down_button_counter: u32,
    cap_phase: CapPhase,
    cap_button: u8,
    cap_count: u32,
}

impl View for ButtonScanner {
    type V = ScannerView;

    closed spec fn view(&self) -> ScannerView {
        ScannerView {
            main: self.main_button_counter,
            up: self.up_button_counter,
            down: self.down_button_counter,
            phase: self.cap_phase,
            cap_button: self.cap_button,
            cap_count: self.cap_count,
        }
    }
}

/// Some counter reports the start of a press.
pub open spec fn any_at_max(v: ScannerView) -> bool {
    v.main == BUTTON_MAX_VAL || v.up == BUTTON_MAX_VAL || v.down == BUTTON_MAX_VAL
}

/// At most one counter reports the start of a press.
pub open spec fn at_most_one_at_max(v: ScannerView) -> bool {
    &&& !(v.main == BUTTON_MAX_VAL && v.up == BUTTON_MAX_VAL)
    &&& !(v.main == BUTTON_MAX_VAL && v.down == BUTTON_MAX_VAL)
    &&& !(v.up == BUTTON_MAX_VAL && v.down == BUTTON_MAX_VAL)
}

/// The invariant of the scanner.
pub open spec fn scanner_wf(v: ScannerView) -> bool {
    &&& v.main <= BUTTON_MAX_VAL
    &&& v.up <= BUTTON_MAX_VAL
    &&& v.down <= BUTTON_MAX_VAL
    &&& v.cap_button < 3
    &&& at_most_one_at_max(v)
    &&& v.phase == CapPhase::Charge ==> v.cap_count <= CAP_THRESHOLD + 1 && !any_at_max(v)
    &&& v.phase == CapPhase::Drain ==> v.cap_count < DRAIN_SCANS
    &&& v.phase == CapPhase::Drain && v.cap_count > 0 ==> !any_at_max(v)
}

/// The next value of a counter after a measurement: a touch on a released
/// button starts a press, a continued touch holds the counter one below the
/// mark, and no touch lets it decay towards zero.
pub open spec fn press_update(counter: u32, pressed: bool) -> u32 {
    if pressed {
        if counter == 0 {
            BUTTON_MAX_VAL
        } else {
            (BUTTON_MAX_VAL - 1) as u32
        }
    } else if counter != 0 {
        (counter - 1) as u32
    } else {
        0
    }
}

/// The scanner after the counter of the button being sensed is updated.
pub open spec fn counter_updated(v: ScannerView, pressed: bool) -> ScannerView {
    if v.cap_button == 0 {
        ScannerView { main: press_update(v.main, pressed), ..v }
    } else if v.cap_button == 1 {
        ScannerView { up: press_update(v.up, pressed), ..v }
    } else if v.cap_button == 2 {
        ScannerView { down: press_update(v.down, pressed), ..v }
    } else {
        v
    }
}

/// The first counter (main, up, down in that order) that marks a press is
/// lowered one step.
pub open spec fn first_mark_lowered(v: ScannerView) -> ScannerView {
    if v.main == BUTTON_MAX_VAL {
        ScannerView { main: (BUTTON_MAX_VAL - 1) as u32, ..v }
    } else if v.up == BUTTON_MAX_VAL {
        ScannerView { up: (BUTTON_MAX_VAL - 1) as u32, ..v }
    } else if v.down == BUTTON_MAX_VAL {
        ScannerView { down: (BUTTON_MAX_VAL - 1) as u32, ..v }
    } else {
        v
    }
}

/// One scan in the drain phase: on its first scan a press mark is lowered;
/// after `DRAIN_SCANS` scans the phase turns to charging.
pub open spec fn drain_step(v: ScannerView) -> ScannerView {
    let v1 = if v.cap_count == 0 {
        first_mark_lowered(v)
    } else {
        v
    };
    let c = v.cap_count + 1;
    if c == DRAIN_SCANS {
        ScannerView { cap_count: 0, phase: CapPhase::Charge, ..v1 }
    } else {
        ScannerView { cap_count: c as u32, ..v1 }
    }
}

/// One scan in the charge phase, given the number of low samples measured:
/// the sensed button counts as touched when that number passes the
/// threshold; then the drain phase starts and the next button is selected.
pub open spec fn charge_step(v: ScannerView, measured: u32) -> ScannerView {
    let v1 = counter_updated(v, measured > CAP_THRESHOLD);
    ScannerView {
        cap_count: 0,
        phase: CapPhase::Drain,
        cap_button: ((v.cap_button + 1) % 3) as u8,
        ..v1
    }
}

/// The scanner as it starts: all counters zero, charging, sensing the main button.
pub open spec fn initial_scanner() -> ScannerView {
    ScannerView { main: 0, up: 0, down: 0, phase: CapPhase::Charge, cap_button: 0, cap_count: 0 }
}

/// One read of the sensed button's pin during a charge scan: a low read
/// counts; sampling goes on while the reads stay low and the count has not
/// passed the threshold. Gives the new count and whether to read again.
pub open spec fn sample_next(count: u32, low: bool) -> (u32, bool) {
    if low {
        ((count + 1) as u32, count + 1 <= CAP_THRESHOLD)
    } else {
        (count, false)
    }
}

/// The count reached by feeding reads, in order, to the sampling rule from
/// `count`, up to the read on which sampling stops.
pub open spec fn measured_count(count: u32, reads: Seq<bool>) -> u32
    decreases reads.len(),
{
    if reads.len() == 0 {
        count
    } else if sample_next(count, reads[0]).1 {
        measured_count(sample_next(count, reads[0]).0, reads.drop_first())
    } else {
        sample_next(count, reads[0]).0
    }
}

/// How many of the reads the sampling rule takes before it stops.
pub open spec fn reads_taken(count: u32, reads: Seq<bool>) -> nat
    decreases reads.len(),
{
    if reads.len() == 0 {
        0
    } else if sample_next(count, reads[0]).1 {
        1 + reads_taken(sample_next(count, reads[0]).0, reads.drop_first())
    } else {
        1
    }
}

proof fn lemma_measurement_from(count: u32, reads: Seq<bool>)
    requires
        count <= CAP_THRESHOLD,
        reads.len() >= CAP_THRESHOLD + 1 - count,
    ensures
        measured_count(count, reads) <= CAP_THRESHOLD + 1,
        reads_taken(count, reads) <= CAP_THRESHOLD + 1 - count,
        (measured_count(count, reads) > CAP_THRESHOLD) == (forall|i: int|
            0 <= i < CAP_THRESHOLD + 1 - count ==> #[trigger] reads[i]),
    decreases reads.len(),
{
    if reads[0] && count + 1 <= CAP_THRESHOLD {
        lemma_measurement_from((count + 1) as u32, reads.drop_first());
        if forall|i: int| 0 <= i < CAP_THRESHOLD - count ==> #[trigger] reads.drop_first()[i] {
            assert forall|i: int| 0 <= i < CAP_THRESHOLD + 1 - count implies #[trigger] reads[i] by {
                if i > 0 {
                    assert(reads[i] == reads.drop_first()[i - 1]);
                }
            }
        } else {
            let j = choose|j: int| 0 <= j < CAP_THRESHOLD - count && !#[trigger] reads.drop_first()[j];
            assert(!reads[j + 1]);
        }
    } else if !reads[0] {
        assert(!reads[0]);
    }
}

/// A touch is measured exactly when the first `CAP_THRESHOLD + 1` reads of a
/// charge scan are all low; at most that many reads are taken, and sampling
/// stops at the first high read.
pub proof fn lemma_touch_needs_consecutive_lows(reads: Seq<bool>)
    requires
        reads.len() >= CAP_THRESHOLD + 1,
    ensures
        measured_count(0, reads) <= CAP_THRESHOLD + 1,
        reads_taken(0, reads) <= CAP_THRESHOLD + 1,
        (measured_count(0, reads) > CAP_THRESHOLD) == (forall|i: int|
            0 <= i <= CAP_THRESHOLD ==> #[trigger] reads[i]),
{
    lemma_measurement_from(0, reads);
}

/// Whether `next` is what one scan can make of `v`: a drain scan, or a
/// charge scan with some measured number of low samples.
pub open spec fn scan_successor(v: ScannerView, next: ScannerView) -> bool {
    ||| v.phase == CapPhase::Drain && next == drain_step(v)
    ||| v.phase == CapPhase::Charge && exists|n: u32| next == #[trigger] charge_step(v, n)
}

/// Where the cycle stands after k scans from the start: the k-th scan after
/// a multiple of `DRAIN_SCANS + 1` charges; in between the sense line drains,
/// and the buttons are sensed in turn (main, up, down).
pub open spec fn schedule_position(v: ScannerView, k: int) -> bool {
    let period = DRAIN_SCANS + 1;
    if k % period == 0 {
        &&& v.phase == CapPhase::Charge
        &&& v.cap_count == 0
        &&& v.cap_button == (k / period) % 3
    } else {
        &&& v.phase == CapPhase::Drain
        &&& v.cap_count == k % period - 1
        &&& v.cap_button == (k / period + 1) % 3
    }
}

proof fn lemma_schedule_step(v: ScannerView, next: ScannerView, k: int)
    requires
        k >= 0,
        schedule_position(v, k),
        scan_successor(v, next),
    ensures
        schedule_position(next, k + 1),
{
    assert(DRAIN_SCANS + 1 == 501);
    lemma_fundamental_div_mod(k, 501);
    let q = k / 501;
    let r = k % 501;
    if r == 0 {
        lemma_fundamental_div_mod_converse(k + 1, 501, q, 1);
    } else if r == 500 {
        lemma_fundamental_div_mod_converse(k + 1, 501, q + 1, 0);
    } else {
        lemma_fundamental_div_mod_converse(k + 1, 501, q, r + 1);
    }
}

/// From a new scanner, scan k + 1 (k counted from zero) samples a button
/// exactly when k is a multiple of `DRAIN_SCANS + 1`, and the buttons it
/// samples come in turn: main, up, down, main, ...; every other scan drains.
pub proof fn lemma_scan_schedule(views: Seq<ScannerView>)
    requires
        views.len() > 0,
        views[0] == initial_scanner(),
        forall|i: int| 0 <= i < views.len() - 1 ==> scan_successor(views[i], #[trigger] views[i + 1]),
    ensures
        forall|k: int| 0 <= k < views.len() ==> schedule_position(#[trigger] views[k], k),
{
    assert forall|k: int| 0 <= k < views.len() implies schedule_position(#[trigger] views[k], k) by {
        lemma_schedule_upto(views, k);
    }
}

proof fn lemma_schedule_upto(views: Seq<ScannerView>, k: int)
    requires
        0 <= k < views.len(),
        views[0] == initial_scanner(),
        forall|i: int| 0 <= i < views.len() - 1 ==> scan_successor(views[i], #[trigger] views[i + 1]),
    ensures
        schedule_position(views[k], k),
    decreases k,
{
    if k > 0 {
        lemma_schedule_upto(views, k - 1);
        assert(scan_successor(views[k - 1], views[k - 1 + 1]));
        lemma_schedule_step(views[k - 1], views[k], k - 1);
    }
}

impl ButtonScanner {
    /// The invariant of the scanner.
    pub open spec fn wf(&self) -> bool {
        scanner_wf(self@)
    }

    /// A scanner with every counter at zero, about to charge for the main button.
    pub fn new() -> (r: Self)
        ensures
            r@ == initial_scanner(),
            r.wf(),
    {
        ButtonScanner {
            main_button_counter: 0,
            up_button_counter: 0,
            down_button_counter: 0,
            cap_phase: CapPhase::Charge,
            cap_button: 0,
            cap_count: 0,
        }
    }

    /// The counter of the main button.
    pub fn get_main(&self) -> (r: u32)
        ensures
            r == self@.main,
    {
        self.main_button_counter
    }

    /// The counter of the up button.
    pub fn get_up(&self) -> (r: u32)
        ensures
            r == self@.up,
    {
        self.up_button_counter
    }

    /// The counter of the down button.
    pub fn get_down(&self) -> (r: u32)
        ensures
            r == self@.down,
    {
        self.down_button_counter
    }

    /// Whether the next scan charges the sense line (the send pin is to be
    /// driven high before that scan samples the button).
    pub fn is_charging(&self) -> (r: bool)
        ensures
            r == (self@.phase == CapPhase::Charge),
    {
        match self.cap_phase {
            CapPhase::Charge => true,
            CapPhase::Drain => false,
        }
    }

    /// The button that the next charge scan samples: 0 main, 1 up, 2 down.
    pub fn cap_button(&self) -> (r: u8)
        ensures
            r == self@.cap_button,
    {
        self.cap_button
    }

    /// Updates the counter of the button being sensed.
    pub fn update_cap_button_counter(&mut self, is_pressed: bool)
        ensures
            final(self)@ == counter_updated(old(self)@, is_pressed),
    {
        match self.cap_button {
            0 => {
                if is_pressed {
                    if self.main_button_counter == 0 {
                        self.main_button_counter = BUTTON_MAX_VAL;
                    } else {
                        self.main_button_counter = BUTTON_MAX_VAL - 1;
                    }
                } else {
                    if self.main_button_counter != 0 {
                        self.main_button_counter -= 1;
                    }
                }
            },
            1 => {
                if is_pressed {
                    if self.up_button_counter == 0 {
                        self.up_button_counter = BUTTON_MAX_VAL;
                    } else {
                        self.up_button_counter = BUTTON_MAX_VAL - 1;
                    }
                } else {
                    if self.up_button_counter != 0 {
                        self.up_button_counter -= 1;
                    }
                }
            },
            2 => {
                if is_pressed {
                    if self.down_button_counter == 0 {
                        self.down_button_counter = BUTTON_MAX_VAL;
                    } else {
                        self.down_button_counter = BUTTON_MAX_VAL - 1;
                    }
                } else {
                    if self.down_button_counter != 0 {
                        self.down_button_counter -= 1;
                    }
                }
            },
            _ => {},
        }
    }

    /// Takes one read of the sensed button's pin during a charge scan (the
    /// send pin driven high): a low read counts. Returns whether to read again.
    pub fn charge_sample(&mut self, low: bool) -> (more: bool)
        requires
            old(self).wf(),
            old(self)@.phase == CapPhase::Charge,
            old(self)@.cap_count <= CAP_THRESHOLD,
        ensures
            final(self).wf(),
            final(self)@ == (ScannerView {
                cap_count: sample_next(old(self)@.cap_count, low).0,
                ..old(self)@
            }),
            more == sample_next(old(self)@.cap_count, low).1,
    {
        if low {
            self.cap_count += 1;
            self.cap_count <= CAP_THRESHOLD
        } else {
            false
        }
    }

    /// Ends a charge scan: the sensed button counts as touched when its count
    /// of low reads passed the threshold; then the drain phase starts and the
    /// next button is selected.
    pub fn finish_charge(&mut self)
        requires
            old(self).wf(),
            old(self)@.phase == CapPhase::Charge,
        ensures
            final(self).wf(),
            final(self)@ == charge_step(old(self)@, old(self)@.cap_count),
    {
        self.update_cap_button_counter(self.cap_count > CAP_THRESHOLD);
        self.cap_count = 0;
        self.cap_phase = CapPhase::Drain;
        self.cap_button = (self.cap_button + 1) % 3;
    }

    /// One drain scan. Returns whether the send pin is to be driven low.
    pub fn drain_scan(&mut self) -> (send_low: bool)
        requires
            old(self).wf(),
            old(self)@.phase == CapPhase::Drain,
        ensures
            final(self).wf(),
            final(self)@ == drain_step(old(self)@),
            send_low == (old(self)@.cap_count == 0),
    {
        let send_low = self.cap_count == 0;
        if send_low {
            if self.main_button_counter == BUTTON_MAX_VAL {
                self.main_button_counter = BUTTON_MAX_VAL - 1;
            } else if self.up_button_counter == BUTTON_MAX_VAL {
                self.up_button_counter = BUTTON_MAX_VAL - 1;
            } else if self.down_button_counter == BUTTON_MAX_VAL {
                self.down_button_counter = BUTTON_MAX_VAL - 1;
            }
        }
        self.cap_count += 1;
        if self.cap_count == DRAIN_SCANS {
            self.cap_count = 0;
            self.cap_phase = CapPhase::Charge;
        }
        send_low
    }

    /// One scan. In the charge phase the caller has driven the send pin high;
    /// `is_cap_button_low` reads the receive pin of the given button and is
    /// sampled while it reads low, at most `CAP_THRESHOLD + 1` times; the
    /// number of low samples decides the touch. Returns whether the send pin
    /// is to be driven low afterwards.
    pub fn button_scan<F: Fn(u8) -> bool>(&mut self, is_cap_button_low: F) -> (send_low: bool)
        requires
            old(self).wf(),
            forall|b: u8| is_cap_button_low.requires((b,)),
        ensures
            final(self).wf(),
            scan_successor(old(self)@, final(self)@),
            send_low == (old(self)@.phase == CapPhase::Charge || old(self)@.cap_count == 0),
            old(self)@.phase == CapPhase::Drain ==> final(self)@ == drain_step(old(self)@),
            old(self)@.phase == CapPhase::Charge ==> exists|n: u32|
                {
                    &&& n <= CAP_THRESHOLD + 1
                    &&& final(self)@ == #[trigger] charge_step(old(self)@, n)
                    &&& n > old(self)@.cap_count ==> is_cap_button_low.ensures(
                        (old(self)@.cap_button,),
                        true,
                    )
                    &&& n <= CAP_THRESHOLD ==> is_cap_button_low.ensures(
                        (old(self)@.cap_button,),
                        false,
                    )
                },
    {
        match self.cap_phase {
            CapPhase::Drain => self.drain_scan(),
            CapPhase::Charge => {
                let button = self.cap_button;
                let ghost start = self@;
                loop
                    invariant
                        self.wf(),
                        self@ == (ScannerView { cap_count: self@.cap_count, ..start }),
                        start.phase == CapPhase::Charge,
                        start.cap_count <= self@.cap_count,
                        start.cap_button == button,
                        forall|b: u8| is_cap_button_low.requires((b,)),
                        self@.cap_count > start.cap_count ==> is_cap_button_low.ensures(
                            (button,),
                            true,
                        ),
                    ensures
                        self.wf(),
                        self@ == (ScannerView { cap_count: self@.cap_count, ..start }),
                        start.cap_count <= self@.cap_count,
                        self@.cap_count > start.cap_count ==> is_cap_button_low.ensures(
                            (button,),
                            true,
                        ),
                        self@.cap_count <= CAP_THRESHOLD ==> is_cap_button_low.ensures(
                            (button,),
                            false,
                        ),
                    decreases CAP_THRESHOLD + 1 - self@.cap_count,
                {
                    if self.cap_count > CAP_THRESHOLD {
                        break ;
                    }
                    let low = is_cap_button_low(button);
                    if !self.charge_sample(low) {
                        break ;
                    }
                }
                let ghost mid = self@;
                self.finish_charge();
                proof {
                    assert(charge_step(mid, mid.cap_count) == charge_step(start, mid.cap_count));
                    assert(scan_successor(start, self@));
                }
                true
            },
        }
    }
}

/// A counter marks a press exactly when a touch is measured on a button that
/// was released.
pub proof fn lemma_mark_means_new_press(counter: u32, pressed: bool)
    requires
        counter <= BUTTON_MAX_VAL,
    ensures
        (press_update(counter, pressed) == BUTTON_MAX_VAL) == (pressed && counter == 0),
{
}

/// A press mark is seen by one scan only: whenever some counter marks a
/// press, the next scan is the first drain scan, and after it no counter
/// marks a press.
pub proof fn lemma_mark_lasts_one_scan(v: ScannerView)
    requires
        scanner_wf(v),
        any_at_max(v),
    ensures
        v.phase == CapPhase::Drain,
        v.cap_count == 0,
        !any_at_max(drain_step(v)),
{
}

/// While a button stays touched its counter never falls below
/// `BUTTON_MAX_VAL - 1`; once released it reaches zero after at most
/// `BUTTON_MAX_VAL` measurements.
pub proof fn lemma_counter_hold_and_decay(counter: u32)
    requires
        counter <= BUTTON_MAX_VAL,
    ensures
        press_update(counter, true) >= BUTTON_MAX_VAL - 1,
        press_update(counter, true) <= BUTTON_MAX_VAL,
        press_update(counter, false) <= BUTTON_MAX_VAL,
        press_update(counter, false) == if counter == 0 { 0 } else { counter - 1 },
{
}

} // verus!
