use sound_graph::{clear, clone_sound, push_sound, SoundQueue};

#[test]
fn handles_are_dense_from_zero() {
    let mut q: SoundQueue<Vec<i32>> = SoundQueue::new();
    assert_eq!(q.len(), 0);
    assert_eq!(push_sound(&mut q, vec![1]), 0);
    assert_eq!(push_sound(&mut q, vec![2, 2]), 1);
    assert_eq!(push_sound(&mut q, vec![3, 3, 3]), 2);
    assert_eq!(q.len(), 3);
}

#[test]
fn clone_returns_what_was_pushed() {
    let mut q = SoundQueue::new();
    let a = push_sound(&mut q, vec![0.5f32, -0.5]);
    let b = push_sound(&mut q, vec![1.0f32]);
    assert_eq!(clone_sound(&q, a), vec![0.5f32, -0.5]);
    assert_eq!(clone_sound(&q, b), vec![1.0f32]);
}

#[test]
fn clones_are_independent() {
    let mut q = SoundQueue::new();
    let h = push_sound(&mut q, vec![1, 2, 3].into_iter());
    let mut first = clone_sound(&q, h);
    assert_eq!(first.next(), Some(1));
    assert_eq!(first.next(), Some(2));
    let second = clone_sound(&q, h);
    assert_eq!(second.collect::<Vec<_>>(), vec![1, 2, 3]);
    assert_eq!(first.collect::<Vec<_>>(), vec![3]);
}

#[test]
fn clear_restarts_handles_at_zero() {
    let mut q = SoundQueue::new();
    push_sound(&mut q, "a");
    push_sound(&mut q, "b");
    clear(&mut q);
    assert_eq!(q.len(), 0);
    assert_eq!(push_sound(&mut q, "c"), 0);
    assert_eq!(clone_sound(&q, 0), "c");
}
