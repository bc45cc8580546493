//! Queue families and the choice of one family per queue role.

use vstd::prelude::*;

verus! {

/// Flag bit of a family that takes graphics work.
pub const QUEUE_GRAPHICS: u32 = 1;

/// Flag bit of a family that takes compute work.
pub const QUEUE_COMPUTE: u32 = 2;

/// Flag bit of a family that takes transfer work.
pub const QUEUE_TRANSFER: u32 = 4;

/// One queue family of an adapter: its capability flags and how many queues it has.
#[derive(Copy, Clone, Debug, PartialEq, Eq, Hash, Structural)]
pub struct QueueFamily {
    pub queue_flags: u32,
    pub queue_count: u32,
}

/// A family is a candidate when it has every desired flag and no undesired one.
pub open spec fn is_candidate(
    family: QueueFamily,
    desired_flags: u32,
    undesired_flags: u32,
) -> bool {
    &&& family.queue_flags & desired_flags == desired_flags
    &&& family.queue_flags & undesired_flags == 0
}

/// `index` is the chosen candidate: no candidate has more queues, and every
/// candidate before it has fewer.
pub open spec fn is_choice(
    families: Seq<QueueFamily>,
    desired_flags: u32,
    undesired_flags: u32,
    index: int,
) -> bool {
    &&& 0 <= index < families.len()
    &&& is_candidate(families[index], desired_flags, undesired_flags)
    &&& forall|j: int|
        0 <= j < families.len() && #[trigger] is_candidate(
            families[j],
            desired_flags,
            undesired_flags,
        ) ==> families[j].queue_count <= families[index].queue_count
    &&& forall|j: int|
        0 <= j < index && #[trigger] is_candidate(families[j], desired_flags, undesired_flags)
            ==> families[j].queue_count < families[index].queue_count
}

/// Whether any family is a candidate.
pub open spec fn has_candidate(
    families: Seq<QueueFamily>,
    desired_flags: u32,
    undesired_flags: u32,
) -> bool {
    exists|j: int|
        0 <= j < families.len() && #[trigger] is_candidate(
            families[j],
            desired_flags,
            undesired_flags,
        )
}

/// The index of the chosen candidate, where there is a candidate.
pub open spec fn choice(
    families: Seq<QueueFamily>,
    desired_flags: u32,
    undesired_flags: u32,
) -> Option<int> {
    if has_candidate(families, desired_flags, undesired_flags) {
        Some(choose|index: int| is_choice(families, desired_flags, undesired_flags, index))
    } else {
        None
    }
}

/// The flags a family needs to serve the direct role.
pub open spec fn direct_flags() -> u32 {
    QUEUE_GRAPHICS | QUEUE_COMPUTE | QUEUE_TRANSFER
}

/// The family for a role other than direct: one that has the role's flag and
/// neither graphics nor the other role; failing that, one without graphics;
/// failing that, one without the other role; failing that, the direct family.
pub open spec fn dedicated_choice(
    families: Seq<QueueFamily>,
    role_flag: u32,
    other_flag: u32,
    direct: int,
) -> int {
    if has_candidate(families, role_flag, QUEUE_GRAPHICS | other_flag) {
        choice(families, role_flag, QUEUE_GRAPHICS | other_flag)->0
    } else if has_candidate(families, role_flag, QUEUE_GRAPHICS) {
        choice(families, role_flag, QUEUE_GRAPHICS)->0
    } else if has_candidate(families, role_flag, other_flag) {
        choice(families, role_flag, other_flag)->0
    } else {
        direct
    }
}

/// The families for the direct, compute and transfer roles, in that order.
pub open spec fn selection(families: Seq<QueueFamily>) -> Option<(int, int, int)> {
    match choice(families, direct_flags(), 0) {
        None => None,
        Some(direct) => Some(
            (
                direct,
                dedicated_choice(families, QUEUE_COMPUTE, QUEUE_TRANSFER, direct),
                dedicated_choice(families, QUEUE_TRANSFER, QUEUE_COMPUTE, direct),
            ),
        ),
    }
}

/// At most one index is the chosen candidate.
pub proof fn lemma_choice_unique(
    families: Seq<QueueFamily>,
    desired_flags: u32,
    undesired_flags: u32,
    first: int,
    second: int,
)
    requires
        is_choice(families, desired_flags, undesired_flags, first),
        is_choice(families, desired_flags, undesired_flags, second),
    ensures
        first == second,
{
}

/// Of two candidates with equally many queues the one with the higher index
/// is never chosen: the lowest index wins.
pub proof fn lemma_lowest_index_wins(
    families: Seq<QueueFamily>,
    desired_flags: u32,
    undesired_flags: u32,
    lower: int,
    higher: int,
)
    requires
        0 <= lower < higher < families.len(),
        is_candidate(families[lower], desired_flags, undesired_flags),
        is_candidate(families[higher], desired_flags, undesired_flags),
        families[lower].queue_count == families[higher].queue_count,
    ensures
        choice(families, desired_flags, undesired_flags) is Some,
        choice(families, desired_flags, undesired_flags) != Some(higher),
{
    lemma_choice_exists(families, desired_flags, undesired_flags);
}

/// Where there is a candidate, one of them is the chosen one.
pub proof fn lemma_choice_exists(
    families: Seq<QueueFamily>,
    desired_flags: u32,
    undesired_flags: u32,
)
    requires
        has_candidate(families, desired_flags, undesired_flags),
    ensures
        choice(families, desired_flags, undesired_flags) matches Some(index) && is_choice(
            families,
            desired_flags,
            undesired_flags,
            index,
        ),
    decreases families.len(),
{
    let last = families.len() - 1;
    let shorter = families.drop_last();
    if has_candidate(shorter, desired_flags, undesired_flags) {
        lemma_choice_exists(shorter, desired_flags, undesired_flags);
        let before = choice(shorter, desired_flags, undesired_flags)->0;
        assert forall|j: int| 0 <= j < shorter.len() implies shorter[j] == families[j] by {}
        if is_candidate(families[last], desired_flags, undesired_flags)
            && families[last].queue_count > families[before].queue_count {
            assert(is_choice(families, desired_flags, undesired_flags, last));
        } else {
            assert(is_choice(families, desired_flags, undesired_flags, before));
        }
    } else {
        assert forall|j: int| 0 <= j < last implies !#[trigger] is_candidate(
            families[j],
            desired_flags,
            undesired_flags,
        ) by {
            assert(shorter[j] == families[j]);
        }
        assert(is_choice(families, desired_flags, undesired_flags, last));
    }
}

/// A family serves the direct role exactly when its flags hold graphics,
/// compute and transfer, all three.
pub proof fn lemma_direct_candidate(family: QueueFamily)
    ensures
        is_candidate(family, direct_flags(), 0) <==> {
            &&& family.queue_flags & QUEUE_GRAPHICS == QUEUE_GRAPHICS
            &&& family.queue_flags & QUEUE_COMPUTE == QUEUE_COMPUTE
            &&& family.queue_flags & QUEUE_TRANSFER == QUEUE_TRANSFER
        },
{
    let flags = family.queue_flags;
    assert((flags & (1u32 | 2u32 | 4u32) == (1u32 | 2u32 | 4u32) && flags & 0u32 == 0u32) <==> (
    flags & 1u32 == 1u32 && flags & 2u32 == 2u32 && flags & 4u32 == 4u32)) by (bit_vector);
}

/// There is a selection exactly when some family serves the direct role, and
/// then every role has a family that takes the work of the role: the
/// selection never fails for want of a family of its own for compute or
/// transfer.
pub proof fn lemma_selection_serves_roles(families: Seq<QueueFamily>)
    ensures
        selection(families) is Some <==> has_candidate(families, direct_flags(), 0),
        selection(families) matches Some((direct, compute, transfer)) ==> {
            &&& 0 <= direct < families.len()
            &&& 0 <= compute < families.len()
            &&& 0 <= transfer < families.len()
            &&& is_candidate(families[direct], direct_flags(), 0)
            &&& families[compute].queue_flags & QUEUE_COMPUTE == QUEUE_COMPUTE
            &&& families[transfer].queue_flags & QUEUE_TRANSFER == QUEUE_TRANSFER
        },
{
    if has_candidate(families, direct_flags(), 0) {
        lemma_choice_exists(families, direct_flags(), 0);
        let direct = choice(families, direct_flags(), 0)->0;
        lemma_direct_candidate(families[direct]);
        lemma_dedicated_serves_role(families, QUEUE_COMPUTE, QUEUE_TRANSFER, direct);
        lemma_dedicated_serves_role(families, QUEUE_TRANSFER, QUEUE_COMPUTE, direct);
    }
}

/// The family for the compute or the transfer role takes the work of the
/// role, given that the direct family does.
proof fn lemma_dedicated_serves_role(
    families: Seq<QueueFamily>,
    role_flag: u32,
    other_flag: u32,
    direct: int,
)
    requires
        0 <= direct < families.len(),
        families[direct].queue_flags & role_flag == role_flag,
    ensures
        ({
            let index = dedicated_choice(families, role_flag, other_flag, direct);
            0 <= index < families.len() && families[index].queue_flags & role_flag == role_flag
        }),
{
    if has_candidate(families, role_flag, QUEUE_GRAPHICS | other_flag) {
        lemma_choice_exists(families, role_flag, QUEUE_GRAPHICS | other_flag);
    } else if has_candidate(families, role_flag, QUEUE_GRAPHICS) {
        lemma_choice_exists(families, role_flag, QUEUE_GRAPHICS);
    } else if has_candidate(families, role_flag, other_flag) {
        lemma_choice_exists(families, role_flag, other_flag);
    }
}

/// The candidate with the most queues, the lowest index among equals.
pub fn find_queue_family_index(
    properties: &[QueueFamily],
    desired_flags: u32,
    undesired_flags: u32,
) -> (found: Option<u32>)
    requires
        properties.len() <= u32::MAX,
    ensures
        found is Some <==> has_candidate(properties@, desired_flags, undesired_flags),
        found matches Some(index) ==> is_choice(
            properties@,
            desired_flags,
            undesired_flags,
            index as int,
        ),
        found matches Some(index) ==> choice(properties@, desired_flags, undesired_flags) == Some(
            index as int,
        ),
        found is None ==> choice(properties@, desired_flags, undesired_flags) is None,
{
    let mut found: Option<u32> = None;
    let mut queue_count: u32 = 0;
    let mut i: usize = 0;
    while i < properties.len()
        invariant
            i <= properties.len() <= u32::MAX,
            found is None ==> forall|j: int|
                0 <= j < i ==> !#[trigger] is_candidate(
                    properties@[j],
                    desired_flags,
                    undesired_flags,
                ),
            found matches Some(index) ==> {
                &&& index < i
                &&& queue_count == properties@[index as int].queue_count
                &&& is_choice(
                    properties@.subrange(0, i as int),
                    desired_flags,
                    undesired_flags,
                    index as int,
                )
            },
        decreases properties.len() - i,
    {
        let family = &properties[i];
        let candidate = (family.queue_flags & desired_flags) == desired_flags && (family.queue_flags
            & undesired_flags) == 0;
        if candidate && (found.is_none() || family.queue_count > queue_count) {
            queue_count = family.queue_count;
            found = Some(i as u32);
        }
        i += 1;
    }
    proof {
        assert(properties@.subrange(0, i as int) =~= properties@);
        if let Some(index) = found {
            let chosen = choose|k: int| is_choice(properties@, desired_flags, undesired_flags, k);
            lemma_choice_unique(properties@, desired_flags, undesired_flags, index as int, chosen);
        }
    }
    found
}

/// The family for the direct role: the one with the most queues among those
/// that take graphics, compute and transfer work at once.
pub fn find_direct_queue_family_index(properties: &[QueueFamily]) -> (found: Option<u32>)
    requires
        properties.len() <= u32::MAX,
    ensures
        found is Some <==> has_candidate(properties@, direct_flags(), 0),
        found matches Some(index) ==> is_choice(properties@, direct_flags(), 0, index as int),
        found matches Some(index) ==> choice(properties@, direct_flags(), 0) == Some(index as int),
        found is None ==> choice(properties@, direct_flags(), 0) is None,
{
    find_queue_family_index(properties, QUEUE_GRAPHICS | QUEUE_COMPUTE | QUEUE_TRANSFER, 0)
}

/// The family for the compute or the transfer role, by falling preference.
fn find_dedicated_queue_family_index(
    properties: &[QueueFamily],
    role_flag: u32,
    other_flag: u32,
    direct_index: u32,
) -> (index: u32)
    requires
        properties.len() <= u32::MAX,
        direct_index < properties.len(),
    ensures
        index == dedicated_choice(properties@, role_flag, other_flag, direct_index as int),
        index < properties.len(),
{
    if let Some(index) = find_queue_family_index(
        properties,
        role_flag,
        QUEUE_GRAPHICS | other_flag,
    ) {
        return index;
    }
    if let Some(index) = find_queue_family_index(properties, role_flag, QUEUE_GRAPHICS) {
        return index;
    }
    if let Some(index) = find_queue_family_index(properties, role_flag, other_flag) {
        return index;
    }
    direct_index
}

/// One family index for each of the direct, compute and transfer roles.
///
/// There is no result exactly when no family takes graphics, compute and
/// transfer work at once. Compute and transfer each prefer a family of their
/// own and fall back on the direct family.
pub fn find_queue_family_indices(properties: &[QueueFamily]) -> (found: Option<(u32, u32, u32)>)
    requires
        properties.len() <= u32::MAX,
    ensures
        found is None <==> !has_candidate(properties@, direct_flags(), 0),
        found matches Some(indices) ==> selection(properties@) == Some(
            (indices.0 as int, indices.1 as int, indices.2 as int),
        ),
        found is None ==> selection(properties@) is None,
        found matches Some(indices) ==> indices.0 < properties.len() && indices.1
            < properties.len() && indices.2 < properties.len(),
{
    let direct_index = match find_direct_queue_family_index(properties) {
        Some(index) => index,
        None => {
            return None;
        },
    };
    let compute_index = find_dedicated_queue_family_index(
        properties,
        QUEUE_COMPUTE,
        QUEUE_TRANSFER,
        direct_index,
    );
    let transfer_index = find_dedicated_queue_family_index(
        properties,
        QUEUE_TRANSFER,
        QUEUE_COMPUTE,
        direct_index,
    );
    Some((direct_index, compute_index, transfer_index))
}

} // verus!
