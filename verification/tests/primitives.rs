//! The versioning primitives: cells, memoizing stages, dirty gates and
//! mailboxes.

use shaderwheels_logic::gate::{DirtyGate, VersionedGate};
use shaderwheels_logic::communication::Mailbox;
use shaderwheels_logic::graphics_backend_worker::latest_from_receiver;
use shaderwheels_logic::graphics_backend_worker::compute_worker::div_ceil16;
use shaderwheels_logic::memo::Stage;
use shaderwheels_logic::versioned::VersionedCell;

#[test]
fn cell_starts_empty_at_version_zero() {
    let c: VersionedCell<u32> = VersionedCell::new();
    assert_eq!(c.version, 0);
    assert!(c.value.is_none());
}

#[test]
fn cell_advance_bumps_version() {
    let mut c: VersionedCell<u32> = VersionedCell::new();
    c.advance(Some(7));
    assert_eq!(c.version, 1);
    assert_eq!(c.value, Some(7));
    c.advance(Some(7));
    assert_eq!(c.version, 2);
}

#[test]
fn cell_version_never_decreases_over_a_call_sequence() {
    let mut c: VersionedCell<(u32, u32)> = VersionedCell::new();
    let mut last = c.version;
    c.advance(Some((1, 2)));
    assert!(c.version >= last);
    last = c.version;
    c.advance_if_changed(Some((1, 2)));
    assert!(c.version >= last);
    last = c.version;
    c.advance_if_changed(Some((3, 4)));
    assert!(c.version >= last);
    last = c.version;
    c.advance(None);
    assert!(c.version >= last);
}

#[test]
fn cell_equal_content_leaves_version_unchanged() {
    let mut c: VersionedCell<String> = VersionedCell::new();
    c.advance_if_changed(Some(String::from("wgsl")));
    assert_eq!(c.version, 1);
    c.advance_if_changed(Some(String::from("wgsl")));
    assert_eq!(c.version, 1);
    c.advance_if_changed(Some(String::from("glsl")));
    assert_eq!(c.version, 2);
}

#[test]
fn cell_map_keeps_the_version_tag() {
    let mut c: VersionedCell<String> = VersionedCell::new();
    c.advance(Some(String::from("abcd")));
    c.advance(Some(String::from("efg")));
    let lengths = c.map(|s: &String| s.len());
    assert_eq!(lengths.version, 2);
    assert_eq!(lengths.value, Some(3));
    let empty: VersionedCell<String> = VersionedCell::new();
    let mapped = empty.map(|s: &String| s.len());
    assert_eq!(mapped.version, 0);
    assert_eq!(mapped.value, None);
}

#[test]
fn cell_as_ref_keeps_the_version() {
    let mut c: VersionedCell<String> = VersionedCell::new();
    c.advance(Some(String::from("x")));
    let r = c.as_ref();
    assert_eq!(r.version, 1);
    assert_eq!(r.value.map(|s| s.as_str()), Some("x"));
}

#[test]
fn stage_runs_once_per_distinct_tuple() {
    let mut s: Stage<u32> = Stage::new();
    let t1: Vec<u64> = vec![1, 5];
    assert!(s.needs_run(&t1));
    s.record(&t1, 42);
    // the same tuple needs no further run: pure memoization
    assert!(!s.needs_run(&t1));
    assert_eq!(*s.output(), Some(42));
    assert_eq!(s.output_version(), 1);
    let t2: Vec<u64> = vec![1, 6];
    assert!(s.needs_run(&t2));
    s.record(&t2, 43);
    assert_eq!(*s.output(), Some(43));
    assert_eq!(s.output_version(), 2);
    assert!(!s.needs_run(&t2));
    assert!(s.needs_run(&t1));
}

#[test]
fn gate_fires_cold_and_holds_on_repeat() {
    let mut g = DirtyGate::new();
    let t: Vec<u64> = vec![0, 0, 0];
    assert!(g.check_and_update(&t));
    assert!(!g.check_and_update(&t));
    let t2: Vec<u64> = vec![0, 1, 0];
    assert!(g.check_and_update(&t2));
    assert!(!g.check_and_update(&t2));
}

#[test]
fn versioned_gate_counts_only_firings() {
    let mut g = VersionedGate::new();
    let t: Vec<u64> = vec![9];
    assert_eq!(g.get_version(), 0);
    assert!(g.check_and_update(&t));
    assert_eq!(g.get_version(), 1);
    assert!(!g.check_and_update(&t));
    assert_eq!(g.get_version(), 1);
    let t2: Vec<u64> = vec![10];
    assert!(g.check_and_update(&t2));
    assert_eq!(g.get_version(), 2);
}

#[test]
fn mailbox_drains_to_latest() {
    let mut m: Mailbox<char> = Mailbox::new();
    m.send('a');
    m.send('b');
    m.send('c');
    assert_eq!(m.drain_latest(), Some('c'));
    assert_eq!(m.drain_latest(), None);
}

#[test]
fn latest_from_receiver_matches_drain() {
    let mut m: Mailbox<u32> = Mailbox::new();
    assert_eq!(latest_from_receiver(&mut m), None);
    m.send(1);
    m.send(2);
    assert_eq!(latest_from_receiver(&mut m), Some(2));
    assert_eq!(latest_from_receiver(&mut m), None);
}

#[test]
fn mailbox_try_recv_is_first_in_first_out() {
    let mut m: Mailbox<u32> = Mailbox::new();
    m.send(10);
    m.send(20);
    assert_eq!(m.try_recv(), Some(10));
    assert_eq!(m.try_recv(), Some(20));
    assert_eq!(m.try_recv(), None);
}

#[test]
fn workgroup_rounding_goes_up() {
    assert_eq!(div_ceil16(0), 0);
    assert_eq!(div_ceil16(1), 1);
    assert_eq!(div_ceil16(16), 1);
    assert_eq!(div_ceil16(17), 2);
    assert_eq!(div_ceil16(64), 4);
    assert_eq!(div_ceil16(65), 5);
    assert_eq!(div_ceil16(u32::MAX), 268435456);
}
