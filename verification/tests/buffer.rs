use triple_buffer::TripleBuffer;

#[test]
fn single_thread() {
    let TripleBuffer::<u64>(mut publisher, mut sub, mut state) = TripleBuffer::default();

    publisher.write(&mut state, 42);

    assert_eq!(*sub.data(&mut state), 0);
    publisher.commit(&mut state);

    assert_eq!(*sub.data(&mut state), 42);
}

#[test]
fn monotonic_sequence() {
    let TripleBuffer::<u64>(mut publisher, mut sub, mut state) = TripleBuffer::default();

    let mut prev: u64 = 0;
    for i in 1..1000u64 {
        publisher.write(&mut state, i);
        publisher.commit(&mut state);
        if i % 3 == 0 {
            let next = *sub.data(&mut state);
            assert!(prev <= next);
            prev = next;
        }
    }

    let mut last = *sub.data(&mut state);
    assert!(prev <= last);
    while last != 999 {
        let next = *sub.data(&mut state);
        assert!(last <= next);
        last = next;
    }
    assert_eq!(last, 999);
}

#[test]
fn idempotent_reads() {
    let TripleBuffer::<u64>(mut publisher, mut sub, mut state) = TripleBuffer::default();

    assert_eq!(*sub.data(&mut state), 0);
    assert_eq!(*sub.data(&mut state), 0);

    publisher.write(&mut state, 17);
    publisher.commit(&mut state);

    assert_eq!(*sub.data(&mut state), 17);
    assert_eq!(*sub.data(&mut state), 17);
    assert_eq!(*sub.data(&mut state), 17);
}

#[test]
fn initial_value_seeded() {
    let TripleBuffer::<u64>(publisher, mut sub, mut state) = TripleBuffer::new(&7);

    assert_eq!(*sub.data(&mut state), 7);
    assert_eq!(*publisher.data(&state), 7);
}

#[test]
fn initial_value_default() {
    let TripleBuffer::<u64>(publisher, mut sub, mut state) = TripleBuffer::default();

    assert_eq!(*sub.data(&mut state), 0);
    assert_eq!(*publisher.data(&state), 0);
}

#[test]
fn latest_commit_wins() {
    let TripleBuffer::<u64>(mut publisher, mut sub, mut state) = TripleBuffer::default();

    publisher.write(&mut state, 1);
    publisher.commit(&mut state);
    publisher.write(&mut state, 2);
    publisher.commit(&mut state);

    assert_eq!(*sub.data(&mut state), 2);

    publisher.write(&mut state, 3);
    publisher.commit(&mut state);

    assert_eq!(*sub.data(&mut state), 3);
}

#[test]
fn back_slot_rotates_on_commit() {
    let TripleBuffer::<u64>(mut publisher, mut sub, mut state) = TripleBuffer::new(&9);

    publisher.write(&mut state, 5);
    assert_eq!(*publisher.data(&state), 5);

    publisher.commit(&mut state);
    assert_eq!(*publisher.data(&state), 9);

    assert_eq!(*sub.data(&mut state), 5);
}
