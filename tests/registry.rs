use std::cell::Cell;

use livesplit_overlay::registry::TimerRegistry;

#[test]
fn same_path_while_held_shares_one_timer() {
    let loads = Cell::new(0u32);
    let mut registry: TimerRegistry<u32> = TimerRegistry::new();
    let loader = |_: &str| {
        loads.set(loads.get() + 1);
        (loads.get(), true)
    };
    let first = registry.get_or_create("splits/a.lss", loader);
    let second = registry.get_or_create("splits/a.lss", |_: &str| {
        loads.set(loads.get() + 1);
        (loads.get(), true)
    });
    assert_eq!(first, second);
    assert_eq!(loads.get(), 1);
    let shared = registry.get(first).unwrap();
    assert_eq!(shared.timer, 1);
    assert_eq!(shared.path, "splits/a.lss");
    assert!(shared.can_save_splits);
    assert!(!shared.auto_save);
}

#[test]
fn released_path_loads_a_new_timer() {
    let mut registry: TimerRegistry<&'static str> = TimerRegistry::new();
    let first = registry.get_or_create("a.lss", |_: &str| ("first", true));
    registry.release(first);
    assert!(registry.get(first).is_none());
    let second = registry.get_or_create("a.lss", |_: &str| ("second", true));
    assert_ne!(first, second);
    assert_eq!(registry.get(second).unwrap().timer, "second");
    assert!(registry.get(first).is_none());
}

#[test]
fn timer_lives_until_last_holder_releases() {
    let mut registry: TimerRegistry<u8> = TimerRegistry::new();
    let a = registry.get_or_create("a.lss", |_: &str| (7, true));
    let b = registry.get_or_create("a.lss", |_: &str| (8, true));
    assert_eq!(a, b);
    registry.release(a);
    assert_eq!(registry.get(b).unwrap().timer, 7);
    registry.release(b);
    assert!(registry.get(b).is_none());
    let c = registry.get_or_create("a.lss", |_: &str| (9, true));
    assert_eq!(registry.get(c).unwrap().timer, 9);
}

#[test]
fn retained_handle_counts_as_holder() {
    let mut registry: TimerRegistry<u8> = TimerRegistry::new();
    let a = registry.get_or_create("a.lss", |_: &str| (1, true));
    assert!(registry.retain(a));
    registry.release(a);
    assert!(registry.get(a).is_some());
    registry.release(a);
    assert!(registry.get(a).is_none());
    assert!(!registry.retain(a));
}

#[test]
fn different_paths_never_alias() {
    let mut registry: TimerRegistry<u32> = TimerRegistry::new();
    let a = registry.get_or_create("a.lss", |_: &str| (1, true));
    let b = registry.get_or_create("b.lss", |_: &str| (2, false));
    let a_again = registry.get_or_create("./a.lss", |_: &str| (3, true));
    assert_ne!(a, b);
    assert_ne!(a, a_again);
    assert_ne!(b, a_again);
    assert_eq!(registry.get(a).unwrap().timer, 1);
    assert_eq!(registry.get(b).unwrap().timer, 2);
    assert_eq!(registry.get(a_again).unwrap().timer, 3);
}

#[test]
fn loader_receives_the_path() {
    let mut registry: TimerRegistry<String> = TimerRegistry::new();
    let h = registry.get_or_create("runs/game.lss", |p: &str| (p.to_uppercase(), false));
    assert_eq!(registry.get(h).unwrap().timer, "RUNS/GAME.LSS");
}

#[test]
fn unsaveable_timer_never_saves() {
    let mut registry: TimerRegistry<u8> = TimerRegistry::new();
    let h = registry.get_or_create("broken.lss", |_: &str| (0, false));
    assert!(registry.set_auto_save(h, true));
    let shared = registry.get(h).unwrap();
    assert!(shared.auto_save);
    assert_eq!(shared.save_path(), None);
    assert_eq!(shared.save_path_after_reset(true), None);
}

#[test]
fn saveable_timer_saves_to_its_path() {
    let mut registry: TimerRegistry<u8> = TimerRegistry::new();
    let h = registry.get_or_create("good.lss", |_: &str| (0, true));
    assert_eq!(registry.get(h).unwrap().save_path(), Some("good.lss"));
    assert_eq!(registry.get(h).unwrap().save_path_after_reset(true), None);
    assert!(registry.set_auto_save(h, true));
    assert_eq!(registry.get(h).unwrap().save_path_after_reset(true), Some("good.lss"));
    assert_eq!(registry.get(h).unwrap().save_path_after_reset(false), None);
    registry.release(h);
    assert!(!registry.set_auto_save(h, false));
}
