use std::time::Duration;
use std::time::Instant;
use uservice::check::summarise;
use uservice::check::HealthCheck;
use uservice::multiread::multiread;
use uservice::probe::within_margin;
use uservice::probe::HealthProbe;

fn pause(length: Duration) {
    let start = Instant::now();
    while start.elapsed() < length {
        std::hint::spin_loop();
    }
}

#[test]
fn health_probe_ticking() {
    let mut health_probe = HealthProbe::new("HealthCheck", Duration::from_millis(15));

    health_probe.tick();

    let oldtick = health_probe.last_tick();
    pause(Duration::from_millis(10));
    health_probe.tick();
    assert!(oldtick < health_probe.last_tick());

    assert!(health_probe.valid());
    pause(Duration::from_millis(20));
    assert!(!health_probe.valid());
    pause(Duration::from_millis(20));

    assert!(!health_probe.valid());
}

#[test]
fn health_check_ticking() {
    let mut hp0 = HealthProbe::new("HealthCheck0", Duration::from_millis(15));
    let mut hp1 = HealthProbe::new("HealthCheck1", Duration::from_millis(15));

    let mut hc0 = HealthCheck::new("simple");

    hc0.add(&hp0);
    hc0.add(&hp1);

    let (happy, detail) = hc0.status();
    println!("detail = {:?}", detail);
    assert!(happy);
    assert!(detail.len() == 2);
    hp0.tick();

    pause(Duration::from_millis(20));
    let (happy, _detail) = hc0.status();
    assert!(!happy);
    hp0.tick();
    let (happy, detail) = hc0.status();
    assert!(!happy);
    assert!(*detail.get(hp0.name()).unwrap());
    assert!(!*detail.get(hp1.name()).unwrap());

    hp1.tick();

    let (happy, detail) = hc0.status();
    assert!(happy);
    assert!(*detail.get(hp0.name()).unwrap());
    assert!(*detail.get(hp1.name()).unwrap());
}

#[test]
fn probe_cloning() {
    let mut probe0 = HealthProbe::new("probe0", Duration::from_secs(180));
    probe0.tick();
    {
        let mut probe1 = probe0.clone();
        println!("probe0 = {:?}", probe0);
        println!("probe1 = {:?}", probe1);
        probe0.tick();
        probe1.tick();
        println!("probe0 = {:?}", probe0);
        println!("probe1 = {:?}", probe1);
    }
    probe0.tick();
    println!("probe0 = {:?}", probe0);
}

#[test]
fn simple_test() {
    println!("simple test {}", multiread());

    let mut hp = HealthCheck::new("roy");

    println!("Healthcheck = {}", hp.name());
    let (happy, detail) = hp.status();
    println!("happy = {:?}, detail = {:?}", happy, detail);

    let probe0 = HealthProbe::new("probe0", Duration::from_secs(180));

    hp.add(&probe0);

    let (happy, detail) = hp.status();
    println!("happy = {:?}, detail = {:?}", happy, detail);

    println!("main test done");

    let mut ben = vec![2; 5];

    for item in &ben {
        println!("ben []= {}", item);
    }

    ben[3] = 7;
    ben.push(19);

    for item in &ben {
        println!("ben2 []= {}", item);
    }
}

#[test]
fn multiread_gives_the_marker() {
    assert_eq!(multiread(), "blamonge");
}

#[test]
fn new_probe_is_valid_and_keeps_what_it_was_given() {
    let probe = HealthProbe::new("fresh", Duration::from_secs(60));
    assert!(probe.valid());
    assert_eq!(probe.name(), "fresh");
    assert_eq!(probe.margin(), Duration::from_secs(60));
}

#[test]
fn probe_goes_stale_after_its_margin_and_a_tick_revives_it() {
    let mut probe = HealthProbe::new("short", Duration::from_millis(10));
    pause(Duration::from_millis(25));
    assert!(!probe.valid());
    probe.tick();
    assert!(probe.valid());
}

#[test]
fn within_margin_is_inclusive() {
    assert!(within_margin(0, 0));
    assert!(within_margin(15, 15));
    assert!(within_margin(14, 15));
    assert!(!within_margin(16, 15));
    assert!(!within_margin(1, 0));
}

#[test]
fn a_tick_through_one_clone_is_seen_through_the_other() {
    let probe = HealthProbe::new("shared", Duration::from_millis(10));
    let mut view = probe.clone();
    assert!(probe.same_probe(&view));
    pause(Duration::from_millis(25));
    assert!(!probe.valid());
    view.tick();
    assert!(probe.valid());
    assert_eq!(probe.last_tick(), view.last_tick());
}

#[test]
fn probes_of_one_name_are_still_two_probes() {
    let a = HealthProbe::new("twin", Duration::from_secs(1));
    let b = HealthProbe::new("twin", Duration::from_secs(1));
    assert!(!a.same_probe(&b));
    assert!(a.same_probe(&a));
}

#[test]
fn empty_check_is_healthy_with_no_details() {
    let check = HealthCheck::new("liveness");
    assert_eq!(check.name(), "liveness");
    assert_eq!(check.len(), 0);
    let (happy, detail) = check.status();
    assert!(happy);
    assert_eq!(detail.len(), 0);
}

#[test]
fn overall_is_false_as_soon_as_one_probe_is_stale() {
    let good = HealthProbe::new("good", Duration::from_secs(60));
    let bad = HealthProbe::new("bad", Duration::from_millis(5));
    let mut check = HealthCheck::new("readyness");
    check.add(&good);
    check.add(&bad);
    pause(Duration::from_millis(20));
    let (happy, detail) = check.status();
    assert!(!happy);
    assert_eq!(detail.get("good"), Some(&true));
    assert_eq!(detail.get("bad"), Some(&false));
    assert_eq!(detail.get("other"), None);
}

#[test]
fn two_probes_of_one_name_leave_the_later_one_in_the_details() {
    let stale = HealthProbe::new("same", Duration::from_millis(5));
    let fresh = HealthProbe::new("same", Duration::from_secs(60));
    let mut check = HealthCheck::new("liveness");
    check.add(&stale);
    check.add(&fresh);
    pause(Duration::from_millis(20));
    let (happy, detail) = check.status();
    assert!(!happy);
    assert_eq!(detail.len(), 1);
    assert_eq!(detail.get("same"), Some(&true));
}

#[test]
fn removal_goes_by_identity_not_by_name() {
    let first = HealthProbe::new("same", Duration::from_secs(60));
    let second = HealthProbe::new("same", Duration::from_secs(60));
    let third = HealthProbe::new("third", Duration::from_secs(60));
    let mut check = HealthCheck::new("liveness");
    check.add(&first);
    check.add(&second);
    check.add(&third);
    check.add(&first);
    assert_eq!(check.len(), 4);
    check.remove(&first);
    assert_eq!(check.len(), 2);
    let (happy, detail) = check.status();
    assert!(happy);
    assert_eq!(detail.len(), 2);
    check.remove(&second);
    assert_eq!(check.len(), 1);
    let (_, detail) = check.status();
    assert_eq!(detail.get("same"), None);
    assert_eq!(detail.get("third"), Some(&true));
    let stranger = HealthProbe::new("third", Duration::from_secs(60));
    check.remove(&stranger);
    assert_eq!(check.len(), 1);
}

#[test]
fn snapshot_reads_every_probe_in_order() {
    let a = HealthProbe::new("a", Duration::from_secs(60));
    let b = HealthProbe::new("b", Duration::from_secs(60));
    let mut check = HealthCheck::new("liveness");
    check.add(&a);
    check.add(&b);
    check.add(&a);
    let taken = check.snapshot();
    assert_eq!(
        taken,
        vec![("a".to_string(), true), ("b".to_string(), true), ("a".to_string(), true)]
    );
}

#[test]
fn summarise_is_the_conjunction_and_the_last_reading_by_name() {
    let (happy, detail) = summarise(&vec![]);
    assert!(happy);
    assert_eq!(detail.len(), 0);

    let (happy, detail) = summarise(&vec![
        ("a".to_string(), true),
        ("b".to_string(), false),
        ("a".to_string(), false),
        ("b".to_string(), true),
        ("c".to_string(), true),
    ]);
    assert!(!happy);
    assert_eq!(detail.len(), 3);
    assert_eq!(detail.get("a"), Some(&false));
    assert_eq!(detail.get("b"), Some(&true));
    assert_eq!(detail.get("c"), Some(&true));

    let (happy, detail) = summarise(&vec![("a".to_string(), true), ("b".to_string(), true)]);
    assert!(happy);
    assert_eq!(detail.get("a"), Some(&true));
    assert_eq!(detail.get("b"), Some(&true));
}

#[test]
fn validity_is_decided_by_last_tick_clock_and_margin() {
    let margin = Duration::from_millis(15);
    let probe = HealthProbe::new("timed", margin);
    let tick = Instant::now();
    assert!(probe.valid_between(&tick, &tick));
    assert!(probe.valid_between(&tick, &(tick + Duration::from_millis(14))));
    assert!(probe.valid_between(&tick, &(tick + margin)));
    assert!(!probe.valid_between(&tick, &(tick + margin + Duration::from_nanos(1))));
    assert!(!probe.valid_between(&tick, &(tick + Duration::from_secs(3600))));
    assert!(probe.valid_between(&(tick + Duration::from_secs(1)), &tick));

    assert!(probe.valid_after(&Duration::from_nanos(0)));
    assert!(probe.valid_after(&margin));
    assert!(!probe.valid_after(&Duration::from_nanos(15_000_001)));

    let never = HealthProbe::new("strict", Duration::from_nanos(0));
    assert!(never.valid_between(&tick, &tick));
    assert!(!never.valid_between(&tick, &(tick + Duration::from_nanos(1))));
}
