use reloq::{Storage, StorageError};

fn memory_store() -> Storage {
    Storage::new(":memory:").expect("in-memory store opens")
}

fn item(id: &str, payload: &str) -> Option<(String, String)> {
    Some((id.to_string(), payload.to_string()))
}

#[test]
fn two_jobs_come_out_in_order_then_empty() {
    let mut storage = memory_store();
    storage.push_job("job1", "payload-a").unwrap();
    storage.push_job("job2", "payload-b").unwrap();
    assert_eq!(storage.pop_job(), Ok(item("job1", "payload-a")));
    assert_eq!(storage.pop_job(), Ok(item("job2", "payload-b")));
    assert_eq!(storage.pop_job(), Ok(None));
}

#[test]
fn three_jobs_fifo() {
    let mut storage = memory_store();
    storage.push_job("A", "1").unwrap();
    storage.push_job("B", "2").unwrap();
    storage.push_job("C", "3").unwrap();
    assert_eq!(storage.pop_job(), Ok(item("A", "1")));
    assert_eq!(storage.pop_job(), Ok(item("B", "2")));
    assert_eq!(storage.pop_job(), Ok(item("C", "3")));
}

#[test]
fn fifo_with_interleaved_pops() {
    let mut storage = memory_store();
    storage.push_job("z", "first").unwrap();
    storage.push_job("a", "second").unwrap();
    assert_eq!(storage.pop_job(), Ok(item("z", "first")));
    storage.push_job("m", "third").unwrap();
    assert_eq!(storage.pop_job(), Ok(item("a", "second")));
    assert_eq!(storage.pop_job(), Ok(item("m", "third")));
    assert_eq!(storage.pop_job(), Ok(None));
}

#[test]
fn dequeue_on_empty_queue_is_none() {
    let mut storage = memory_store();
    assert_eq!(storage.pop_job(), Ok(None));
    assert_eq!(storage.pop_job(), Ok(None));
}

#[test]
fn duplicate_job_id_is_refused() {
    let mut storage = memory_store();
    storage.push_job("dup", "one").unwrap();
    assert_eq!(storage.push_job("dup", "two"), Err(StorageError::DuplicateKey));
    assert_eq!(storage.pop_job(), Ok(item("dup", "one")));
    assert_eq!(storage.pop_job(), Ok(None));
    assert_eq!(storage.push_job("dup", "three"), Ok(()));
    assert_eq!(storage.pop_job(), Ok(item("dup", "three")));
}

#[test]
fn numeric_looking_payload_stays_text() {
    let mut storage = memory_store();
    storage.push_job("n", "0042").unwrap();
    assert_eq!(storage.pop_job(), Ok(item("n", "0042")));
}

#[test]
fn queue_and_quotas_are_independent() {
    let mut storage = memory_store();
    storage.push_job("user123", "payload").unwrap();
    assert_eq!(storage.get_rate_limit("user123"), Ok(None));
    storage.set_rate_limit("user123", 3).unwrap();
    assert_eq!(storage.pop_job(), Ok(item("user123", "payload")));
    assert_eq!(storage.get_rate_limit("user123"), Ok(Some(3)));
}
