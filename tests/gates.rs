use gametank::gates::{CountUp, Counter, FlipFlop, Signal};

#[test]
fn signal_logic() {
    assert_eq!(Signal::High.nand(Signal::High), Signal::Low);
    assert_eq!(Signal::Low.nand(Signal::High), Signal::High);
    assert_eq!(Signal::High.and(Signal::High), Signal::High);
    assert_eq!(Signal::High.and(Signal::Low), Signal::Low);
    assert_eq!(Signal::from_bool(true), Signal::High);
    assert_eq!(Signal::Low.not(), Signal::High);
}

#[test]
fn flip_flop_latches_on_rising_edge() {
    let mut ff = FlipFlop { last_clock: Signal::High, last_data: Signal::Low };
    assert_eq!(ff.cycle(Signal::High, Signal::High, Signal::High, Signal::High), Signal::Low);
    assert_eq!(ff.cycle(Signal::High, Signal::High, Signal::Low, Signal::High), Signal::Low);
    assert_eq!(ff.cycle(Signal::High, Signal::High, Signal::High, Signal::High), Signal::High);
    assert_eq!(ff.cycle(Signal::Low, Signal::Low, Signal::Low, Signal::Low), Signal::Low);
    assert_eq!(ff.cycle(Signal::Low, Signal::Low, Signal::Low, Signal::High), Signal::High);
    assert_eq!(ff.val(), Signal::High);
}

#[test]
fn down_counter_reaches_terminal_count() {
    let mut c = Counter { counter: 0, last_clock: Signal::Low };
    assert_eq!(c.cycle(Signal::Low, Signal::Low, Signal::Low, Signal::High, 2), Signal::High);
    assert_eq!(c.counter, 2);
    c.cycle(Signal::High, Signal::High, Signal::Low, Signal::High, 0);
    assert_eq!(c.counter, 1);
    c.cycle(Signal::Low, Signal::High, Signal::Low, Signal::High, 0);
    assert_eq!(c.cycle(Signal::High, Signal::High, Signal::Low, Signal::High, 0), Signal::Low);
    assert_eq!(c.counter, 0);
}

#[test]
fn up_counter_wraps() {
    let mut c = CountUp { counter: 254, last_clock: Signal::Low };
    assert_eq!(c.cycle(Signal::High, Signal::High, Signal::High, Signal::High, 0), 255);
    c.cycle(Signal::High, Signal::High, Signal::High, Signal::Low, 0);
    assert_eq!(c.cycle(Signal::High, Signal::High, Signal::High, Signal::High, 0), 0);
    assert_eq!(c.cycle(Signal::Low, Signal::High, Signal::High, Signal::High, 77), 77);
}
