use background_worker::BackgroundWorker;

#[test]
fn partial_fill_leaves_the_tail_untouched() {
    let mut worker: BackgroundWorker<i32, i32, _> = BackgroundWorker::new(|x| x * 10);
    worker.enque_vec(vec![1, 2, 3]);
    worker.join();
    let mut buf = vec![-1, -2, -3, -4, -5];
    assert_eq!(worker.pop_vec(&mut buf), 3);
    assert_eq!(buf, vec![10, 20, 30, -4, -5]);
    assert_eq!(worker.ready(), 0);
}

#[test]
fn short_destination_takes_only_the_oldest_outputs() {
    let mut worker: BackgroundWorker<i32, i32, _> = BackgroundWorker::new(|x| x * 10);
    worker.enque_vec(vec![1, 2, 3, 4]);
    worker.join();
    let mut buf = vec![0, 0];
    assert_eq!(worker.pop_vec(&mut buf), 2);
    assert_eq!(buf, vec![10, 20]);
    assert_eq!(worker.ready(), 2);
    assert_eq!(worker.pop(), Some(30));
    assert_eq!(worker.pop(), Some(40));
}

#[test]
fn fill_from_empty_output_replaces_nothing() {
    let mut worker: BackgroundWorker<i32, i32, _> = BackgroundWorker::new(|x| x * 10);
    worker.enque_vec(vec![1, 2]);
    let mut buf = vec![7, 8, 9];
    assert_eq!(worker.pop_vec(&mut buf), 0);
    assert_eq!(buf, vec![7, 8, 9]);
    assert_eq!(worker.pending(), 2);
}

#[test]
fn fill_into_empty_destination_takes_nothing() {
    let mut worker: BackgroundWorker<i32, i32, _> = BackgroundWorker::new(|x| x * 10);
    worker.enque(1);
    worker.join();
    let mut buf: Vec<i32> = Vec::new();
    assert_eq!(worker.pop_vec(&mut buf), 0);
    assert_eq!(worker.ready(), 1);
}
