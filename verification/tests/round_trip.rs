use background_worker::BackgroundWorker;

#[test]
fn initialize() {
    let mut worker: BackgroundWorker<i32, f32, _> = BackgroundWorker::new(|x| x as f32);
    worker.enque(1);
    worker.join();
    assert_eq!(worker.pop().unwrap(), 1.0 as f32);
}

#[test]
fn range() {
    let mut worker: BackgroundWorker<i32, f32, _> = BackgroundWorker::new(|x| x as f32);
    worker.enque_vec(vec![1, 2, 3, 4, 5, 6, 7, 8]);
    worker.join();
    let mut buf = vec![0.0; 8];
    worker.pop_vec(&mut buf);
    assert_eq!(buf, vec![1., 2., 3., 4., 5., 6., 7., 8.]);
}

#[test]
fn join() {
    let mut worker: BackgroundWorker<(), (), _> = BackgroundWorker::new(|_| ());
    worker.enque_vec(vec![(); 10]);
    worker.join();
    let mut buf = vec![(); 10];
    worker.pop_vec(&mut buf);
    assert_eq!(buf, vec![(); 10]);
}

#[test]
fn range_reports_eight_replacements() {
    let mut worker: BackgroundWorker<i32, f64, _> = BackgroundWorker::new(|x| x as f64);
    worker.enque_vec(vec![1, 2, 3, 4, 5, 6, 7, 8]);
    worker.join();
    let mut buf = vec![0.0; 8];
    assert_eq!(worker.pop_vec(&mut buf), 8);
    assert_eq!(buf, vec![1.0, 2.0, 3.0, 4.0, 5.0, 6.0, 7.0, 8.0]);
    assert_eq!(worker.ready(), 0);
}

#[test]
fn single_item_then_empty() {
    let mut worker: BackgroundWorker<u32, u32, _> = BackgroundWorker::new(|x| x * 3 + 1);
    worker.enque(7);
    worker.join();
    assert_eq!(worker.pop(), Some(22));
    assert_eq!(worker.pop(), None);
}

#[test]
fn batch_keeps_order() {
    let mut worker: BackgroundWorker<u64, u64, _> = BackgroundWorker::new(|x| x * x);
    worker.enque_vec(vec![5, 1, 4, 2, 3]);
    worker.join();
    let mut drained = Vec::new();
    while let Some(value) = worker.pop() {
        drained.push(value);
    }
    assert_eq!(drained, vec![25, 1, 16, 4, 9]);
}

#[test]
fn single_and_batch_enqueues_interleave_in_call_order() {
    let mut worker: BackgroundWorker<i32, i32, _> = BackgroundWorker::new(|x: i32| -x);
    worker.enque(1);
    worker.enque_vec(vec![2, 3]);
    worker.enque(4);
    assert_eq!(worker.pending(), 4);
    worker.join();
    let mut buf = vec![0; 4];
    assert_eq!(worker.pop_vec(&mut buf), 4);
    assert_eq!(buf, vec![-1, -2, -3, -4]);
}

#[test]
fn capturing_closure_is_accepted() {
    let offset = 100;
    let mut worker: BackgroundWorker<i32, i32, _> = BackgroundWorker::new(move |x| x + offset);
    worker.enque_vec(vec![1, 2]);
    worker.join();
    assert_eq!(worker.pop(), Some(101));
    assert_eq!(worker.pop(), Some(102));
    assert_eq!(worker.pop(), None);
}

#[test]
fn empty_batch_still_spawns_and_join_ends_the_worker() {
    let mut worker: BackgroundWorker<i32, i32, _> = BackgroundWorker::new(|x| x);
    worker.enque_vec(Vec::new());
    assert!(!worker.is_dead());
    worker.join();
    assert!(worker.is_dead());
    assert_eq!(worker.pop(), None);
}
