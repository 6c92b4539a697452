use comfyui_openai_api::jobs::{CompletedJobsBuffer, COMPLETED_JOBS_CAPACITY};

fn filled(count: usize) -> CompletedJobsBuffer {
    let mut buffer = CompletedJobsBuffer::new();
    for i in 0..count {
        buffer.add(format!("job-{}", i));
    }
    buffer
}

#[test]
fn a_new_buffer_is_empty() {
    assert!(!CompletedJobsBuffer::new().contains("job-0"));
}

#[test]
fn up_to_the_capacity_every_job_is_found() {
    let buffer = filled(COMPLETED_JOBS_CAPACITY);
    for i in 0..COMPLETED_JOBS_CAPACITY {
        assert!(buffer.contains(&format!("job-{}", i)));
    }
    assert!(!buffer.contains("job-100"));
    assert!(!buffer.contains("job"));
}

#[test]
fn the_oldest_job_makes_room_for_a_new_one() {
    let buffer = filled(COMPLETED_JOBS_CAPACITY + 1);
    assert!(!buffer.contains("job-0"));
    assert!(buffer.contains("job-1"));
    assert!(buffer.contains("job-100"));
}

#[test]
fn the_most_recent_jobs_are_kept_however_many_there_were() {
    for count in [150, 200, 201, 299, 350] {
        let buffer = filled(count);
        for i in 0..count {
            assert_eq!(
                buffer.contains(&format!("job-{}", i)),
                i + COMPLETED_JOBS_CAPACITY >= count
            );
        }
    }
}

#[test]
fn a_job_that_completed_twice_is_kept_for_the_later_time() {
    let mut buffer = CompletedJobsBuffer::new();
    buffer.add("twice".to_string());
    buffer.add("twice".to_string());
    for i in 0..COMPLETED_JOBS_CAPACITY - 1 {
        buffer.add(format!("job-{}", i));
    }
    assert!(buffer.contains("twice"));
    buffer.add("one more".to_string());
    assert!(!buffer.contains("twice"));
}
