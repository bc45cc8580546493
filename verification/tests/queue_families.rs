use bethlehem::backend::vulkan::queue_family::{
    find_direct_queue_family_index, find_queue_family_index, find_queue_family_indices,
    QueueFamily, QUEUE_COMPUTE, QUEUE_GRAPHICS, QUEUE_TRANSFER,
};

const ALL: u32 = QUEUE_GRAPHICS | QUEUE_COMPUTE | QUEUE_TRANSFER;

fn family(queue_flags: u32, queue_count: u32) -> QueueFamily {
    QueueFamily { queue_flags, queue_count }
}

#[test]
fn flag_bits_are_those_of_the_api() {
    assert_eq!(QUEUE_GRAPHICS, 1);
    assert_eq!(QUEUE_COMPUTE, 2);
    assert_eq!(QUEUE_TRANSFER, 4);
}

#[test]
fn dedicated_families_are_preferred() {
    let families = vec![family(ALL, 2), family(QUEUE_COMPUTE, 1), family(QUEUE_TRANSFER, 1)];
    assert_eq!(find_queue_family_indices(&families), Some((0, 1, 2)));
}

#[test]
fn single_family_serves_every_role() {
    let families = vec![family(ALL, 1)];
    assert_eq!(find_queue_family_indices(&families), Some((0, 0, 0)));
}

#[test]
fn no_family_for_the_direct_role_gives_no_selection() {
    let families = vec![
        family(QUEUE_GRAPHICS | QUEUE_COMPUTE, 4),
        family(QUEUE_COMPUTE | QUEUE_TRANSFER, 4),
        family(QUEUE_GRAPHICS | QUEUE_TRANSFER, 4),
        family(QUEUE_TRANSFER, 1),
    ];
    assert_eq!(find_queue_family_indices(&families), None);
    assert_eq!(find_direct_queue_family_index(&families), None);
}

#[test]
fn empty_table_gives_no_selection() {
    let families: Vec<QueueFamily> = Vec::new();
    assert_eq!(find_queue_family_indices(&families), None);
    assert_eq!(find_queue_family_index(&families, QUEUE_COMPUTE, 0), None);
}

#[test]
fn equal_queue_counts_choose_the_lower_index() {
    let families = vec![family(ALL, 3), family(ALL, 3)];
    assert_eq!(find_direct_queue_family_index(&families), Some(0));
    assert_eq!(find_queue_family_indices(&families), Some((0, 0, 0)));
}

#[test]
fn more_queues_win_over_a_lower_index() {
    let families = vec![family(ALL, 1), family(ALL, 8), family(ALL, 8), family(ALL, 2)];
    assert_eq!(find_direct_queue_family_index(&families), Some(1));
}

#[test]
fn family_without_queues_still_serves_the_direct_role() {
    let families = vec![family(ALL, 0)];
    assert_eq!(find_queue_family_indices(&families), Some((0, 0, 0)));
}

#[test]
fn other_flag_bits_do_not_matter() {
    let sparse_binding = 8;
    let families = vec![family(ALL | sparse_binding, 1), family(QUEUE_COMPUTE | sparse_binding, 1)];
    assert_eq!(find_queue_family_indices(&families), Some((0, 1, 0)));
}

#[test]
fn compute_prefers_a_family_without_graphics_and_transfer() {
    let families = vec![
        family(ALL, 16),
        family(QUEUE_COMPUTE | QUEUE_TRANSFER, 8),
        family(QUEUE_COMPUTE, 1),
    ];
    let (direct, compute, transfer) = find_queue_family_indices(&families).unwrap();
    assert_eq!(direct, 0);
    assert_eq!(compute, 2);
    assert_eq!(transfer, 1);
}

#[test]
fn compute_falls_back_on_a_family_without_graphics() {
    let families = vec![
        family(ALL, 16),
        family(QUEUE_GRAPHICS | QUEUE_COMPUTE, 4),
        family(QUEUE_COMPUTE | QUEUE_TRANSFER, 2),
    ];
    let (direct, compute, transfer) = find_queue_family_indices(&families).unwrap();
    assert_eq!(direct, 0);
    assert_eq!(compute, 2);
    assert_eq!(transfer, 2);
}

#[test]
fn compute_falls_back_on_a_family_without_transfer() {
    let families = vec![family(ALL, 16), family(QUEUE_GRAPHICS | QUEUE_COMPUTE, 4)];
    let (direct, compute, transfer) = find_queue_family_indices(&families).unwrap();
    assert_eq!(direct, 0);
    assert_eq!(compute, 1);
    assert_eq!(transfer, 0);
}

#[test]
fn transfer_falls_back_on_a_family_without_compute() {
    let families = vec![family(QUEUE_GRAPHICS | QUEUE_TRANSFER, 4), family(ALL, 1)];
    let (direct, compute, transfer) = find_queue_family_indices(&families).unwrap();
    assert_eq!(direct, 1);
    assert_eq!(compute, 1);
    assert_eq!(transfer, 0);
}

#[test]
fn dedicated_family_with_more_queues_is_chosen() {
    let families = vec![
        family(ALL, 1),
        family(QUEUE_TRANSFER, 1),
        family(QUEUE_TRANSFER, 2),
        family(QUEUE_TRANSFER, 2),
    ];
    assert_eq!(find_queue_family_indices(&families), Some((0, 0, 2)));
}

#[test]
fn candidate_needs_every_desired_flag_and_no_undesired_one() {
    let families = vec![
        family(QUEUE_COMPUTE, 1),
        family(QUEUE_GRAPHICS | QUEUE_COMPUTE, 5),
        family(QUEUE_COMPUTE | QUEUE_TRANSFER, 3),
    ];
    assert_eq!(find_queue_family_index(&families, QUEUE_COMPUTE, 0), Some(1));
    assert_eq!(find_queue_family_index(&families, QUEUE_COMPUTE, QUEUE_GRAPHICS), Some(2));
    assert_eq!(
        find_queue_family_index(&families, QUEUE_COMPUTE, QUEUE_GRAPHICS | QUEUE_TRANSFER),
        Some(0)
    );
    assert_eq!(
        find_queue_family_index(&families, QUEUE_COMPUTE | QUEUE_TRANSFER, QUEUE_GRAPHICS),
        Some(2)
    );
    assert_eq!(find_queue_family_index(&families, ALL, 0), None);
}

#[test]
fn selection_is_the_same_on_every_run() {
    let families = vec![family(ALL, 2), family(QUEUE_COMPUTE, 1), family(QUEUE_TRANSFER, 1)];
    let first = find_queue_family_indices(&families);
    let second = find_queue_family_indices(&families);
    assert_eq!(first, second);
}
