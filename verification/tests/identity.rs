use kernel_tasks::task::Computation;
use kernel_tasks::task::Task;
use kernel_tasks::task_id::IdGenerator;

#[test]
fn generator_hands_out_distinct_sequential_ids() {
    let mut gen = IdGenerator::new();
    let mut seen = Vec::new();
    for _ in 0..100 {
        let id = gen.next();
        assert!(!seen.contains(&id.0), "identity repeated");
        seen.push(id.0);
    }
    for (k, value) in seen.iter().enumerate() {
        assert_eq!(*value, k as u64);
    }
}

#[test]
fn tasks_carry_fresh_ids_from_the_generator() {
    let mut gen = IdGenerator::new();
    let a = Task::new(&mut gen, Computation::Immediate);
    let b = Task::new(&mut gen, Computation::Immediate);
    let c = Task::new(&mut gen, Computation::Countdown { remaining: 2 });
    assert_eq!(a.id().0, 0);
    assert_eq!(b.id().0, 1);
    assert_eq!(c.id().0, 2);
    assert_ne!(a.id(), b.id());
    assert_ne!(b.id(), c.id());
}
