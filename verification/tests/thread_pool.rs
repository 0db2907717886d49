use atranscoder::task::{Task, TaskParams};
use atranscoder::thread_pool::{
    worker_count, ThreadPool, Worker, WorkerAction, WorkerEvent, WorkerPhase, RETRY_DELAY_SECS,
};

fn job(id: u128) -> Task {
    Task::new(
        id,
        TaskParams {
            format: "ogg".to_string(),
            codec: "libopus".to_string(),
            codec_opts: None,
            bit_rate: None,
            max_bit_rate: None,
            sample_rate: 0,
            channel_layout: None,
            url: None,
            input_path: "in".to_string(),
            output_path: "out".to_string(),
            callback_url: None,
            max_body_size: 0,
        },
    )
}

#[test]
fn configured_number_of_workers_wins() {
    assert_eq!(worker_count(Some(3), 8), 3);
    assert_eq!(worker_count(None, 8), 8);
    assert_eq!(ThreadPool::new(Some(5)).size, 5);
}

#[test]
fn pool_has_a_worker_for_each_cpu_by_default() {
    let pool = ThreadPool::new(None);
    assert!(pool.size >= 1);
    assert_eq!(pool.size, num_cpus::get());
    assert_eq!(pool.waiting(), 0);
}

#[test]
fn jobs_leave_the_queue_in_the_order_they_came() {
    let mut pool = ThreadPool::new(Some(2));
    pool.enqueue(job(1));
    pool.enqueue(job(2));
    assert_eq!(pool.waiting(), 2);
    assert_eq!(pool.dequeue(), Some(job(1)));
    pool.enqueue(job(3));
    assert_eq!(pool.dequeue(), Some(job(2)));
    assert_eq!(pool.dequeue(), Some(job(3)));
    assert_eq!(pool.dequeue(), None);
    assert_eq!(pool.size, 2);
}

#[test]
fn worker_initialises_the_library_and_then_takes_jobs() {
    let mut worker = Worker::new(7);
    let mut actions = Vec::new();
    for event in [
        WorkerEvent::Start,
        WorkerEvent::Failed, // initialisation failed: the worker goes on
        WorkerEvent::Done,
        WorkerEvent::Job,
        WorkerEvent::Failed, // the job failed: the worker goes on
        WorkerEvent::Job,
        WorkerEvent::Done,
        WorkerEvent::Closed,
        WorkerEvent::Done,
    ] {
        let (next, action) = worker.step(event);
        worker = next;
        actions.push(action);
    }
    assert_eq!(
        actions,
        vec![
            WorkerAction::InitLibrary,
            WorkerAction::SilenceLibrary,
            WorkerAction::Receive,
            WorkerAction::Execute,
            WorkerAction::Receive,
            WorkerAction::Execute,
            WorkerAction::Receive,
            WorkerAction::Sleep(1),
            WorkerAction::Receive,
        ]
    );
    assert_eq!(worker, Worker { id: 7, phase: WorkerPhase::Waiting });
    assert_eq!(RETRY_DELAY_SECS, 1);
}
