use webvy::pool::PoolSizes;

#[test]
fn one_thread_gives_one_worker_each() {
    let sizes = PoolSizes::for_parallelism(1);
    assert_eq!(sizes.compute, 1);
    assert_eq!(sizes.io, 1);
}

#[test]
fn eight_threads_split_three_and_two() {
    let sizes = PoolSizes::for_parallelism(8);
    assert_eq!(sizes.compute, 3);
    assert_eq!(sizes.io, 2);
}

#[test]
fn a_hundred_threads_cap_the_io_pool() {
    let sizes = PoolSizes::for_parallelism(100);
    assert_eq!(sizes.compute, 49);
    assert_eq!(sizes.io, 6);
}

#[test]
fn four_threads_give_one_compute_worker_spare() {
    let sizes = PoolSizes::for_parallelism(4);
    assert_eq!(sizes.compute, 1);
    assert_eq!(sizes.io, 1);
}

#[test]
fn twenty_four_threads_reach_the_io_cap() {
    let sizes = PoolSizes::for_parallelism(24);
    assert_eq!(sizes.compute, 11);
    assert_eq!(sizes.io, 6);
}
