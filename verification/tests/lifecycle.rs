//! Handle lifecycle: enabling, cloning, releasing, and the exactly-once
//! teardown on the last release.

use flexcomm::Clock;
use flexcomm::Controller;
use flexcomm::FcSel;
use flexcomm::FlexcommRef;
use flexcomm::FrgSel;
use flexcomm::Instance;
use flexcomm::State;

#[test]
fn fresh_controller_has_everything_off() {
    let c = Controller::new();
    let all = [
        Instance::Flexcomm0,
        Instance::Flexcomm1,
        Instance::Flexcomm2,
        Instance::Flexcomm3,
        Instance::Flexcomm4,
        Instance::Flexcomm5,
        Instance::Flexcomm6,
        Instance::Flexcomm7,
        Instance::Flexcomm8,
        Instance::Flexcomm9,
        Instance::Flexcomm10,
        Instance::Flexcomm11,
        Instance::Flexcomm12,
        Instance::Flexcomm13,
        Instance::Flexcomm14,
        Instance::Flexcomm15,
    ];
    for i in all {
        assert_eq!(c.refcount(i), 0);
        assert_eq!(c.fclksel(i), FcSel::Off);
        assert_eq!(c.frgclksel(i), FrgSel::Off);
        assert_eq!(c.frg_mult(i), 0);
        assert!(!c.is_powered(i));
        assert_eq!(c.selected_mode(i), None);
    }
}

#[test]
fn enable_sets_refcount_to_one() {
    let mut c = Controller::new();
    let h = c.enable(Instance::Flexcomm0, Clock::Sfro);
    assert_eq!(c.refcount(Instance::Flexcomm0), 1);
    assert!(c.is_powered(Instance::Flexcomm0));
    assert_eq!(h.instance(), Instance::Flexcomm0);
    c.release(h);
    assert_eq!(c.refcount(Instance::Flexcomm0), 0);
}

#[test]
fn state_cell_starts_at_zero() {
    let s = State::new();
    assert_eq!(s.count(), 0);
}

#[test]
fn first_handle_records_one_consumer() {
    let mut s = State::new();
    let h = FlexcommRef::new(&mut s, Instance::Flexcomm5);
    assert_eq!(s.count(), 1);
    assert_eq!(h.instance(), Instance::Flexcomm5);
}

#[test]
fn clones_raise_and_releases_lower_the_count() {
    let mut c = Controller::new();
    let h0 = c.enable(Instance::Flexcomm3, Clock::Master);
    let h1 = c.clone_ref(&h0);
    let h2 = c.clone_ref(&h1);
    let h3 = c.clone_ref(&h0);
    assert_eq!(c.refcount(Instance::Flexcomm3), 4);
    c.release(h2);
    assert_eq!(c.refcount(Instance::Flexcomm3), 3);
    c.release(h0);
    assert_eq!(c.refcount(Instance::Flexcomm3), 2);
    c.release(h3);
    assert_eq!(c.refcount(Instance::Flexcomm3), 1);
    assert!(c.is_powered(Instance::Flexcomm3));
    assert_eq!(c.fclksel(Instance::Flexcomm3), FcSel::Master);
    c.release(h1);
    assert_eq!(c.refcount(Instance::Flexcomm3), 0);
    assert!(!c.is_powered(Instance::Flexcomm3));
    assert_eq!(c.fclksel(Instance::Flexcomm3), FcSel::Off);
}

#[test]
fn disable_fires_only_on_last_release_in_any_order() {
    // Release the original first, then clones in mixed order: the clock
    // survives until the very last release.
    let mut c = Controller::new();
    let h0 = c.enable(Instance::Flexcomm7, Clock::Ffro);
    let h1 = c.clone_ref(&h0);
    let h2 = c.clone_ref(&h0);
    c.release(h0);
    assert!(c.is_powered(Instance::Flexcomm7));
    assert_eq!(c.fclksel(Instance::Flexcomm7), FcSel::Ffro);
    c.release(h2);
    assert!(c.is_powered(Instance::Flexcomm7));
    c.release(h1);
    assert!(!c.is_powered(Instance::Flexcomm7));
    assert_eq!(c.fclksel(Instance::Flexcomm7), FcSel::Off);
    assert_eq!(c.frgclksel(Instance::Flexcomm7), FrgSel::Off);
}

#[test]
fn instance_can_be_enabled_again_after_full_teardown() {
    let mut c = Controller::new();
    let h = c.enable(Instance::Flexcomm1, Clock::Sfro);
    c.release(h);
    let h2 = c.enable(Instance::Flexcomm1, Clock::Master);
    assert_eq!(c.refcount(Instance::Flexcomm1), 1);
    assert_eq!(c.fclksel(Instance::Flexcomm1), FcSel::Master);
    c.release(h2);
}

#[test]
fn independent_instances_do_not_disturb_each_other() {
    let mut c = Controller::new();
    let ha = c.enable(Instance::Flexcomm2, Clock::Sfro);
    let hb = c.enable(Instance::Flexcomm14, Clock::Master);
    assert_eq!(c.fclksel(Instance::Flexcomm2), FcSel::Sfro);
    assert_eq!(c.fclksel(Instance::Flexcomm14), FcSel::Master);
    c.release(ha);
    // Tearing down instance 2 leaves instance 14 running.
    assert_eq!(c.fclksel(Instance::Flexcomm2), FcSel::Off);
    assert!(c.is_powered(Instance::Flexcomm14));
    assert_eq!(c.fclksel(Instance::Flexcomm14), FcSel::Master);
    assert_eq!(c.refcount(Instance::Flexcomm14), 1);
    c.release(hb);
}

#[test]
fn refcount_reaches_the_counter_ceiling_and_unwinds() {
    // 1 enable plus 254 clones saturates the eight-bit counter's range;
    // releasing every handle still tears the instance down exactly once.
    let mut c = Controller::new();
    let h0 = c.enable(Instance::Flexcomm9, Clock::FcnFrgMain);
    let mut handles: Vec<FlexcommRef> = Vec::new();
    for _ in 0..254 {
        handles.push(c.clone_ref(&h0));
    }
    assert_eq!(c.refcount(Instance::Flexcomm9), 255);
    for h in handles {
        c.release(h);
        assert!(c.is_powered(Instance::Flexcomm9));
    }
    assert_eq!(c.refcount(Instance::Flexcomm9), 1);
    c.release(h0);
    assert_eq!(c.refcount(Instance::Flexcomm9), 0);
    assert!(!c.is_powered(Instance::Flexcomm9));
}

#[test]
fn shared_usage_scenario() {
    // enable(instance 2, Sfro) -> h1; clone -> h2; release h1: still live;
    // release h2: torn down exactly once.
    let mut c = Controller::new();
    let h1 = c.enable(Instance::Flexcomm2, Clock::Sfro);
    let h2 = c.clone_ref(&h1);
    c.release(h1);
    assert_eq!(c.refcount(Instance::Flexcomm2), 1);
    assert!(c.is_powered(Instance::Flexcomm2));
    assert_eq!(c.fclksel(Instance::Flexcomm2), FcSel::Sfro);
    c.release(h2);
    assert_eq!(c.refcount(Instance::Flexcomm2), 0);
    assert!(!c.is_powered(Instance::Flexcomm2));
    assert_eq!(c.fclksel(Instance::Flexcomm2), FcSel::Off);
    assert_eq!(c.frgclksel(Instance::Flexcomm2), FrgSel::Off);
}
