use std::sync::Arc;
use std::sync::Mutex;

use llm_agent::llm::debug_dir_name;
use llm_agent::llm::debug_file_name;
use llm_agent::llm::DebugSequence;

#[test]
fn slots_count_up_from_zero() {
    let mut s = DebugSequence::new();
    assert_eq!(s.next_slot(), 0);
    assert_eq!(s.next_slot(), 1);
    assert_eq!(s.next_slot(), 2);
    assert_eq!(s.next, 3);
}

#[test]
fn concurrent_slots_are_unique_and_contiguous() {
    let rt = tokio::runtime::Builder::new_multi_thread()
        .worker_threads(4)
        .build()
        .unwrap();
    let seq = Arc::new(Mutex::new(DebugSequence::new()));
    let n: usize = 16;
    let got = rt.block_on(async {
        let mut handles = Vec::new();
        for _ in 0..n {
            let s = Arc::clone(&seq);
            handles.push(tokio::spawn(async move { s.lock().unwrap().next_slot() }));
        }
        let mut got = Vec::new();
        for h in handles {
            got.push(h.await.unwrap());
        }
        got
    });
    let mut sorted = got.clone();
    sorted.sort();
    sorted.dedup();
    assert_eq!(sorted.len(), n, "no two conversations share an index");
    for (i, v) in sorted.iter().enumerate() {
        assert_eq!(*v, i as u64, "indices are collectively contiguous");
    }
}

#[test]
fn transcript_names_are_zero_padded() {
    assert_eq!(debug_file_name("llm", 0), "llm-000000000000.xml");
    assert_eq!(debug_file_name("llm", 7), "llm-000000000007.xml");
    assert_eq!(debug_file_name("agent", 123_456), "agent-000000123456.xml");
}

#[test]
fn long_indices_keep_all_their_digits() {
    assert_eq!(
        debug_file_name("llm", 10_000_000_000_000),
        "llm-10000000000000.xml"
    );
}

#[test]
fn debug_directory_candidates() {
    assert_eq!(debug_dir_name(1234, 0), "1234-0");
    assert_eq!(debug_dir_name(7, 12), "7-12");
}
