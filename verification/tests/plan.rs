use rust_web_test::plan::{batch_at, num_batches, plan_batches, Batch};

fn sizes(total: usize, batch_size: usize) -> Vec<usize> {
    plan_batches(total, batch_size).iter().map(|batch| batch.count).collect()
}

#[test]
fn ten_requests_in_batches_of_three() {
    let batches = plan_batches(10, 3);
    assert_eq!(batches.len(), 4);
    assert_eq!(sizes(10, 3), vec![3, 3, 3, 1]);
    assert_eq!(
        batches,
        vec![
            Batch { index: 0, start_id: 0, count: 3 },
            Batch { index: 1, start_id: 3, count: 3 },
            Batch { index: 2, start_id: 6, count: 3 },
            Batch { index: 3, start_id: 9, count: 1 },
        ]
    );
    let mut seen = vec![0usize; 10];
    for batch in &batches {
        for id in batch.sequence_ids() {
            seen[id] += 1;
        }
    }
    assert_eq!(seen, vec![1; 10]);
}

#[test]
fn no_requests_make_no_batch() {
    assert_eq!(num_batches(0, 1), 0);
    assert_eq!(num_batches(0, 1000), 0);
    assert!(plan_batches(0, 7).is_empty());
    assert_eq!(batch_at(0, 7, 0), None);
}

#[test]
fn number_of_batches_is_rounded_up() {
    assert_eq!(num_batches(1, 1), 1);
    assert_eq!(num_batches(1, 1000), 1);
    assert_eq!(num_batches(10, 5), 2);
    assert_eq!(num_batches(11, 5), 3);
    assert_eq!(num_batches(14, 5), 3);
    assert_eq!(num_batches(15, 5), 3);
    assert_eq!(num_batches(5000, 1000), 5);
    assert_eq!(num_batches(5001, 1000), 6);
}

#[test]
fn number_of_batches_at_the_limits() {
    assert_eq!(num_batches(usize::MAX, 1), usize::MAX);
    assert_eq!(num_batches(usize::MAX, usize::MAX), 1);
    assert_eq!(num_batches(usize::MAX - 1, usize::MAX), 1);
    assert_eq!(num_batches(usize::MAX, 2), usize::MAX / 2 + 1);
}

#[test]
fn last_batch_at_the_limits() {
    let last = num_batches(usize::MAX, 2) - 1;
    assert_eq!(
        batch_at(usize::MAX, 2, last),
        Some(Batch { index: last, start_id: usize::MAX - 1, count: 1 })
    );
    assert_eq!(batch_at(usize::MAX, 2, last + 1), None);
    assert_eq!(batch_at(usize::MAX, 2, usize::MAX), None);
    assert_eq!(
        batch_at(usize::MAX, usize::MAX, 0),
        Some(Batch { index: 0, start_id: 0, count: usize::MAX })
    );
}

#[test]
fn batch_at_gives_start_and_count() {
    assert_eq!(batch_at(10, 3, 0), Some(Batch { index: 0, start_id: 0, count: 3 }));
    assert_eq!(batch_at(10, 3, 2), Some(Batch { index: 2, start_id: 6, count: 3 }));
    assert_eq!(batch_at(10, 3, 3), Some(Batch { index: 3, start_id: 9, count: 1 }));
    assert_eq!(batch_at(10, 3, 4), None);
    assert_eq!(batch_at(9, 3, 2), Some(Batch { index: 2, start_id: 6, count: 3 }));
    assert_eq!(batch_at(9, 3, 3), None);
}

#[test]
fn all_batches_but_the_last_are_full() {
    for total in 0..60usize {
        for batch_size in 1..12usize {
            let batches = plan_batches(total, batch_size);
            assert_eq!(batches.len(), num_batches(total, batch_size));
            for (i, batch) in batches.iter().enumerate() {
                assert_eq!(batch.index, i);
                assert_eq!(batch.start_id, i * batch_size);
                if i + 1 < batches.len() {
                    assert_eq!(batch.count, batch_size);
                } else if total % batch_size == 0 {
                    assert_eq!(batch.count, batch_size);
                } else {
                    assert_eq!(batch.count, total % batch_size);
                }
            }
        }
    }
}

#[test]
fn batches_hold_every_sequence_id_once() {
    for total in 0..60usize {
        for batch_size in 1..12usize {
            let mut ids = Vec::new();
            for batch in plan_batches(total, batch_size) {
                ids.extend(batch.sequence_ids());
            }
            let expected: Vec<usize> = (0..total).collect();
            assert_eq!(ids, expected);
        }
    }
}

#[test]
fn sequence_ids_of_a_batch_rise_from_its_start() {
    let batch = Batch { index: 2, start_id: 6, count: 3 };
    assert_eq!(batch.sequence_ids(), vec![6, 7, 8]);
    let empty = Batch { index: 0, start_id: 4, count: 0 };
    assert!(empty.sequence_ids().is_empty());
}
