use cms_core::sizing::WorkerAllocation;

fn split(cpus: usize) -> (usize, usize, usize) {
    let w = WorkerAllocation::for_cpu_count(cpus);
    (w.server_workers, w.db_workers, w.auth_workers)
}

#[test]
fn eight_processors() {
    let w = WorkerAllocation::for_cpu_count(8);
    assert_eq!(w.server_workers, 4);
    assert_eq!(8 - w.server_workers, 4);
    assert_eq!(w.db_workers, 2);
    assert_eq!(w.auth_workers, 2);
}

#[test]
fn one_processor() {
    assert_eq!(
        WorkerAllocation::for_cpu_count(1),
        WorkerAllocation { server_workers: 1, db_workers: 1, auth_workers: 1 }
    );
}

#[test]
fn no_processor_still_gives_every_pool_a_worker() {
    assert_eq!(split(0), (1, 1, 1));
}

#[test]
fn small_machines() {
    assert_eq!(split(2), (1, 1, 1));
    assert_eq!(split(3), (1, 1, 1));
    assert_eq!(split(4), (2, 1, 1));
    assert_eq!(split(5), (2, 2, 1));
    assert_eq!(split(6), (3, 2, 1));
    assert_eq!(split(7), (3, 2, 2));
}

#[test]
fn larger_machines() {
    assert_eq!(split(10), (5, 3, 2));
    assert_eq!(split(12), (6, 4, 2));
    assert_eq!(split(16), (8, 5, 3));
    assert_eq!(split(20), (10, 7, 3));
    assert_eq!(split(64), (32, 22, 10));
    assert_eq!(split(96), (48, 33, 15));
    assert_eq!(split(128), (64, 44, 20));
}

#[test]
fn every_processor_is_used_from_three_up() {
    for cpus in 3..2_000usize {
        let (server, db, auth) = split(cpus);
        assert_eq!(server + db + auth, cpus);
        assert_eq!(server, cpus / 2);
        assert_eq!(db, (cpus - server) * 7 / 10);
        assert!(auth >= 1);
    }
}

#[test]
fn the_largest_count_does_not_overflow() {
    let (server, db, auth) = split(usize::MAX);
    let remaining = usize::MAX - server;
    assert_eq!(server, usize::MAX / 2);
    assert_eq!(db as u128, (remaining as u128) * 7 / 10);
    assert_eq!(auth, remaining - db);
}

#[test]
fn detected_split_belongs_to_some_machine() {
    let w = WorkerAllocation::detect();
    let cpus = num_cpus::get();
    assert_eq!(w, WorkerAllocation::for_cpu_count(cpus));
    assert!(w.server_workers >= 1 && w.db_workers >= 1 && w.auth_workers >= 1);
}
