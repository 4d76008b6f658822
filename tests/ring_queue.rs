use ring_queue::Inner;
use ring_queue::RingQueue;

#[test]
fn it_works() {
    println!("Creating queue");
    let queue = RingQueue::<u32, 1>::new();
    println!("Pushing to queue");
    queue.push(3);
    println!("Popping from queue");
    assert_eq!(queue.pop(), 3);
}

#[test]
fn single_slot_round_trip_of_many_values() {
    let queue = RingQueue::<u64, 1>::new();
    for x in [0u64, 1, 42, u64::MAX, 7] {
        queue.push(x);
        assert_eq!(queue.pop(), x);
    }
}

#[test]
fn value_round_trip_of_owned_values() {
    let queue = RingQueue::<String, 4>::new();
    for s in ["", "a", "hello world", "é"] {
        queue.push(s.to_string());
        assert_eq!(queue.pop(), s.to_string());
    }
}

#[test]
fn pops_follow_pushes_in_order() {
    let queue = RingQueue::<u32, 10>::new();
    for i in 0..10 {
        queue.push(i);
    }
    let received: Vec<u32> = (0..10).map(|_| queue.pop()).collect();
    assert_eq!(received, (0..10).collect::<Vec<_>>());
}

#[test]
fn full_queue_takes_a_push_after_a_pop() {
    let queue = RingQueue::<u32, 3>::new();
    queue.push(1);
    queue.push(2);
    queue.push(3);
    assert_eq!(queue.pop(), 1);
    queue.push(4);
    let received: Vec<u32> = (0..3).map(|_| queue.pop()).collect();
    assert_eq!(received, vec![2, 3, 4]);
}

#[test]
fn interleaved_producers_keep_their_order() {
    let queue = RingQueue::<u32, 10>::new();
    let mut received = vec![];
    for round in 0..2u32 {
        for i in 0..5u32 {
            let k = round * 5 + i;
            if (k % 3) == 0 {
                queue.push(10 + k);
                queue.push(k);
            } else {
                queue.push(k);
                queue.push(10 + k);
            }
        }
        for _ in 0..10 {
            received.push(queue.pop());
        }
    }
    assert_eq!(
        received.iter().copied().filter(|&x| x < 10).collect::<Vec<_>>(),
        (0..10).collect::<Vec<_>>(),
    );
    assert_eq!(
        received.into_iter().filter(|&x| x >= 10).collect::<Vec<_>>(),
        (10..20).collect::<Vec<_>>(),
    );
}

#[test]
fn clone_is_independent_of_the_original() {
    let queue = RingQueue::<u32, 5>::new();
    queue.push(1);
    queue.push(2);
    let copy = queue.clone();
    queue.push(3);
    copy.push(9);
    assert_eq!(copy.pop(), 1);
    assert_eq!(copy.pop(), 2);
    assert_eq!(copy.pop(), 9);
    assert_eq!(queue.pop(), 1);
    assert_eq!(queue.pop(), 2);
    assert_eq!(queue.pop(), 3);
}

#[test]
fn clone_of_wrapped_queue_keeps_order() {
    let queue = RingQueue::<String, 3>::default();
    for s in ["a", "b", "c"] {
        queue.push(s.to_string());
    }
    assert_eq!(queue.pop(), "a");
    assert_eq!(queue.pop(), "b");
    queue.push("d".to_string());
    queue.push("e".to_string());
    let copy = queue.clone();
    assert_eq!(queue.pop(), "c");
    assert_eq!(queue.pop(), "d");
    assert_eq!(queue.pop(), "e");
    assert_eq!(copy.pop(), "c");
    assert_eq!(copy.pop(), "d");
    assert_eq!(copy.pop(), "e");
}

#[test]
fn storage_starts_empty() {
    let s = Inner::<u8, 4>::new();
    assert!(s.is_empty());
    assert!(!s.is_full());
    let d = Inner::<u8, 4>::default();
    assert!(d.is_empty());
}

#[test]
fn storage_reports_full_at_capacity() {
    let mut s = Inner::<u8, 2>::new();
    s.push(1);
    assert!(!s.is_full());
    assert!(!s.is_empty());
    s.push(2);
    assert!(s.is_full());
    assert_eq!(s.pop(), 1);
    assert!(!s.is_full());
    assert_eq!(s.pop(), 2);
    assert!(s.is_empty());
}

#[test]
fn storage_wraps_round_the_ring() {
    let mut s = Inner::<u32, 3>::new();
    let mut expected = 0u32;
    let mut next = 0u32;
    for _ in 0..4 {
        while !s.is_full() {
            s.push(next);
            next += 1;
        }
        for _ in 0..2 {
            assert_eq!(s.pop(), expected);
            expected += 1;
        }
    }
    while !s.is_empty() {
        assert_eq!(s.pop(), expected);
        expected += 1;
    }
    assert_eq!(expected, next);
}

#[test]
fn storage_clone_copies_only_the_window() {
    let mut s = Inner::<String, 3>::new();
    s.push("x".to_string());
    s.push("y".to_string());
    s.push("z".to_string());
    assert_eq!(s.pop(), "x");
    s.push("w".to_string());
    let mut c = s.clone();
    assert!(c.is_full());
    assert_eq!(s.pop(), "y");
    assert_eq!(c.pop(), "y");
    assert_eq!(c.pop(), "z");
    assert_eq!(c.pop(), "w");
    assert!(c.is_empty());
    assert_eq!(s.pop(), "z");
    assert_eq!(s.pop(), "w");
}

#[test]
fn storage_of_no_slots_is_both_full_and_empty() {
    let s = Inner::<u8, 0>::new();
    assert!(s.is_full());
    assert!(s.is_empty());
}
