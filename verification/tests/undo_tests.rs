use mirante::position::ContentPosition;
use mirante::undo::{pop_recent_group, Undo};

fn at(x: usize, when: u64) -> Undo {
    Undo::insert(ContentPosition::new(x, 0), 'a', when)
}

#[test]
fn quick_successive_edits_are_grouped() {
    let mut stack = vec![at(0, 0), at(1, 1_000), at(2, 400_000_000), at(3, 500_000_000), at(4, 700_000_000)];
    let group = pop_recent_group(&mut stack, 300_000_000);
    let xs: Vec<usize> = group.iter().map(|u| u.pos.x).collect();
    assert_eq!(vec![4, 3, 2], xs);
    assert_eq!(2, stack.len());
    let group = pop_recent_group(&mut stack, 300_000_000);
    assert_eq!(2, group.len());
    assert!(stack.is_empty());
    assert!(pop_recent_group(&mut stack, 300_000_000).is_empty());
}

#[test]
fn a_gap_over_the_threshold_ends_the_group() {
    let mut stack = vec![at(0, 0), at(1, 300_000_001)];
    assert_eq!(1, pop_recent_group(&mut stack, 300_000_000).len());
    assert_eq!(1, stack.len());
    let mut stack = vec![at(0, 0), at(1, 300_000_000)];
    assert_eq!(2, pop_recent_group(&mut stack, 300_000_000).len());
}
