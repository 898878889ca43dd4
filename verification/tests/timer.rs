use dma_mem2mem::timer::{elapsed_cycles, measure_cycles};
use std::cell::Cell;

#[test]
fn elapsed_is_the_difference() {
    assert_eq!(elapsed_cycles(100, 350), 250);
    assert_eq!(elapsed_cycles(0, 0), 0);
    assert_eq!(elapsed_cycles(7, 7), 0);
    assert_eq!(elapsed_cycles(0, u32::MAX), u32::MAX);
}

#[test]
fn elapsed_wraps_with_the_counter() {
    assert_eq!(elapsed_cycles(0xffff_fff0, 0x10), 0x20);
    assert_eq!(elapsed_cycles(u32::MAX, 0), 1);
    assert_eq!(elapsed_cycles(1, 0), u32::MAX);
}

#[test]
fn measure_runs_the_operation_once_between_two_readings() {
    let counter: Cell<u32> = Cell::new(1000);
    let runs: Cell<u32> = Cell::new(0);
    let elapsed: u32 = measure_cycles(
        || counter.get(),
        || {
            runs.set(runs.get() + 1);
            counter.set(counter.get() + 72);
        },
    );
    assert_eq!(elapsed, 72);
    assert_eq!(runs.get(), 1);
}

#[test]
fn measure_of_nothing_is_zero() {
    let elapsed: u32 = measure_cycles(|| 5, || {});
    assert_eq!(elapsed, 0);
}

#[test]
fn measure_across_a_counter_wrap() {
    let counter: Cell<u32> = Cell::new(u32::MAX - 9);
    let elapsed: u32 = measure_cycles(
        || counter.get(),
        || counter.set(counter.get().wrapping_add(30)),
    );
    assert_eq!(elapsed, 30);
}
