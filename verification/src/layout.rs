//! Where things stand when the factory world is set up.
use vstd::prelude::*;
use crate::factory::{AgentRole, BuildingType};

verus! {

/// How many collectors, builders and workers the world starts with.
pub const COLLECTOR_COUNT: usize = 3;
pub const BUILDER_COUNT: usize = 2;
pub const WORKER_COUNT: usize = 2;

/// How far the floor grid reaches from the centre on each side.
pub const GRID_HALF_SPAN: i32 = 16;

/// One line of the floor grid: its offset from the centre, and whether it is
/// a brighter major line.
#[derive(Clone, Copy, Debug, PartialEq, Eq, Structural)]
pub struct GridLine {
    pub offset: i32,
    pub major: bool,
}

/// The gear that an agent of each role wears.
#[derive(Clone, Copy, Debug, PartialEq, Eq, Structural)]
pub enum AgentAccessory {
    /// Collectors carry a backpack.
    Backpack,
    /// Builders wear a helmet.
    Helmet,
    /// Workers hold a tool.
    Tool,
}

/// The coordinates, on each axis, where the first resource nodes may stand.
pub open spec fn site_coords() -> Seq<i32> {
    seq![-10i32, -6i32, 6i32, 10i32]
}

/// Every pair of site coordinates, the x coordinate varying slowest.
pub open spec fn site_candidates() -> Seq<(i32, i32)> {
    Seq::new(16, |k: int| (site_coords()[k / 4], site_coords()[k % 4]))
}

/// Whether a candidate site gets a resource node: its coordinates sum to a
/// multiple of eight.
pub open spec fn is_resource_site(site: (i32, i32)) -> bool {
    (site.0 + site.1) % 8 == 0
}

/// The role of the agent at position `i` of the starting roster: collectors
/// first, then builders, then workers.
pub open spec fn roster_role(i: int) -> AgentRole {
    if i < COLLECTOR_COUNT {
        AgentRole::Collector
    } else if i < COLLECTOR_COUNT + BUILDER_COUNT {
        AgentRole::Builder
    } else {
        AgentRole::Worker
    }
}

/// The gear of each role.
pub open spec fn accessory_of(role: AgentRole) -> AgentAccessory {
    match role {
        AgentRole::Collector => AgentAccessory::Backpack,
        AgentRole::Builder => AgentAccessory::Helmet,
        AgentRole::Worker => AgentAccessory::Tool,
    }
}

/// The resource nodes the world starts with, in the order they are placed.
pub fn initial_resource_sites() -> (sites: Vec<(i32, i32)>)
    ensures
        sites@ == site_candidates().filter(|site: (i32, i32)| is_resource_site(site)),
{
    let coords: [i32; 4] = [-10, -6, 6, 10];
    let ghost pred = |site: (i32, i32)| is_resource_site(site);
    let mut sites: Vec<(i32, i32)> = Vec::new();
    let mut k: usize = 0;
    assert(site_candidates().take(0) =~= Seq::<(i32, i32)>::empty());
    proof {
        reveal(Seq::filter);
    }
    while k < 16
        invariant
            k <= 16,
            coords@ == site_coords(),
            pred == (|site: (i32, i32)| is_resource_site(site)),
            sites@ == site_candidates().take(k as int).filter(pred),
        decreases 16 - k,
    {
        let x = coords[k / 4];
        let z = coords[k % 4];
        let sum: i32 = x + z;
        let on_site = sum % 8 == 0;
        if on_site {
            sites.push((x, z));
        }
        proof {
            let cands = site_candidates();
            assert(cands.take(k + 1).drop_last() =~= cands.take(k as int));
            assert(cands.take(k + 1).last() == (x, z));
            assert(on_site == is_resource_site((x, z)));
            reveal(Seq::filter);
            assert(cands.take(k + 1).filter(pred) == if pred((x, z)) {
                cands.take(k as int).filter(pred).push((x, z))
            } else {
                cands.take(k as int).filter(pred)
            });
        }
        k = k + 1;
    }
    assert(site_candidates().take(16) =~= site_candidates());
    sites
}

/// The roles of the agents the world starts with, in the order they are placed.
pub fn initial_roster() -> (roles: Vec<AgentRole>)
    ensures
        roles.len() == COLLECTOR_COUNT + BUILDER_COUNT + WORKER_COUNT,
        forall|i: int| 0 <= i < roles.len() ==> #[trigger] roles[i] == roster_role(i),
{
    let total = COLLECTOR_COUNT + BUILDER_COUNT + WORKER_COUNT;
    let mut roles: Vec<AgentRole> = Vec::new();
    let mut i: usize = 0;
    while i < total
        invariant
            total == COLLECTOR_COUNT + BUILDER_COUNT + WORKER_COUNT,
            i <= total,
            roles.len() == i,
            forall|j: int| 0 <= j < i ==> #[trigger] roles[j] == roster_role(j),
        decreases total - i,
    {
        let role = if i < COLLECTOR_COUNT {
            AgentRole::Collector
        } else if i < COLLECTOR_COUNT + BUILDER_COUNT {
            AgentRole::Builder
        } else {
            AgentRole::Worker
        };
        roles.push(role);
        i = i + 1;
    }
    roles
}

/// The buildings the world starts with, each with its ground position: a
/// factory in front of the centre and a storage to its right.
pub fn initial_buildings() -> (buildings: Vec<(BuildingType, i32, i32)>)
    ensures
        buildings@ == seq![(BuildingType::Factory, 0i32, -6i32), (BuildingType::Storage, 5i32, 0i32)],
{
    let mut buildings: Vec<(BuildingType, i32, i32)> = Vec::new();
    buildings.push((BuildingType::Factory, 0, -6));
    buildings.push((BuildingType::Storage, 5, 0));
    buildings
}

/// The lines of the floor grid, from `-GRID_HALF_SPAN` to `GRID_HALF_SPAN`;
/// every fourth line, counted from the centre, is a major one.
pub fn grid_lines() -> (lines: Vec<GridLine>)
    ensures
        lines.len() == 2 * GRID_HALF_SPAN + 1,
        forall|k: int|
            0 <= k < lines.len() ==> (#[trigger] lines[k]).offset == k - GRID_HALF_SPAN
                && lines[k].major == ((k - GRID_HALF_SPAN) % 4 == 0),
{
    let mut lines: Vec<GridLine> = Vec::new();
    let mut offset: i32 = -GRID_HALF_SPAN;
    while offset <= GRID_HALF_SPAN
        invariant
            -GRID_HALF_SPAN <= offset <= GRID_HALF_SPAN + 1,
            lines.len() == offset + GRID_HALF_SPAN,
            forall|k: int|
                0 <= k < lines.len() ==> (#[trigger] lines[k]).offset == k - GRID_HALF_SPAN
                    && lines[k].major == ((k - GRID_HALF_SPAN) % 4 == 0),
        decreases GRID_HALF_SPAN + 1 - offset,
    {
        lines.push(GridLine { offset, major: offset % 4 == 0 });
        offset = offset + 1;
    }
    lines
}

/// The gear an agent of `role` is given.
pub fn role_accessory(role: AgentRole) -> (gear: AgentAccessory)
    ensures
        gear == accessory_of(role),
{
    match role {
        AgentRole::Collector => AgentAccessory::Backpack,
        AgentRole::Builder => AgentAccessory::Helmet,
        AgentRole::Worker => AgentAccessory::Tool,
    }
}

/// The starting roster: three collectors, then two builders, then two workers.
pub proof fn lemma_roster_roles(i: int)
    ensures
        COLLECTOR_COUNT + BUILDER_COUNT + WORKER_COUNT == 7,
        0 <= i < 3 ==> roster_role(i) == AgentRole::Collector,
        3 <= i < 5 ==> roster_role(i) == AgentRole::Builder,
        5 <= i < 7 ==> roster_role(i) == AgentRole::Worker,
{
}

/// The world starts with eight resource nodes, at the candidate positions
/// whose coordinates sum to a multiple of eight, in x-major order.
pub proof fn lemma_resource_sites()
    ensures
        site_candidates().filter(|site: (i32, i32)| is_resource_site(site)) == seq![
            (-10i32, -6i32),
            (-10i32, 10i32),
            (-6i32, -10i32),
            (-6i32, 6i32),
            (6i32, -6i32),
            (6i32, 10i32),
            (10i32, -10i32),
            (10i32, 6i32),
        ],
{
    let pred = |site: (i32, i32)| is_resource_site(site);
    let c = site_candidates();
    assert(c.take(0) =~= Seq::<(i32, i32)>::empty());
    lemma_filter_of_empty(pred);
    assert(c[0] == (-10i32, -10i32));
    lemma_filter_step(c, pred, 0);
    assert(c.take(1).filter(pred) =~= Seq::<(i32, i32)>::empty());
    assert(c[1] == (-10i32, -6i32));
    lemma_filter_step(c, pred, 1);
    assert(c.take(2).filter(pred) =~= seq![(-10i32, -6i32)]);
    assert(c[2] == (-10i32, 6i32));
    lemma_filter_step(c, pred, 2);
    assert(c.take(3).filter(pred) =~= seq![(-10i32, -6i32)]);
    assert(c[3] == (-10i32, 10i32));
    lemma_filter_step(c, pred, 3);
    assert(c.take(4).filter(pred) =~= seq![(-10i32, -6i32), (-10i32, 10i32)]);
    assert(c[4] == (-6i32, -10i32));
    lemma_filter_step(c, pred, 4);
    assert(c.take(5).filter(pred) =~= seq![(-10i32, -6i32), (-10i32, 10i32), (-6i32, -10i32)]);
    assert(c[5] == (-6i32, -6i32));
    lemma_filter_step(c, pred, 5);
    assert(c.take(6).filter(pred) =~= seq![(-10i32, -6i32), (-10i32, 10i32), (-6i32, -10i32)]);
    assert(c[6] == (-6i32, 6i32));
    lemma_filter_step(c, pred, 6);
    assert(c.take(7).filter(pred) =~= seq![(-10i32, -6i32), (-10i32, 10i32), (-6i32, -10i32), (-6i32, 6i32)]);
    assert(c[7] == (-6i32, 10i32));
    lemma_filter_step(c, pred, 7);
    assert(c.take(8).filter(pred) =~= seq![(-10i32, -6i32), (-10i32, 10i32), (-6i32, -10i32), (-6i32, 6i32)]);
    assert(c[8] == (6i32, -10i32));
    lemma_filter_step(c, pred, 8);
    assert(c.take(9).filter(pred) =~= seq![(-10i32, -6i32), (-10i32, 10i32), (-6i32, -10i32), (-6i32, 6i32)]);
    assert(c[9] == (6i32, -6i32));
    lemma_filter_step(c, pred, 9);
    assert(c.take(10).filter(pred) =~= seq![(-10i32, -6i32), (-10i32, 10i32), (-6i32, -10i32), (-6i32, 6i32), (6i32, -6i32)]);
    assert(c[10] == (6i32, 6i32));
    lemma_filter_step(c, pred, 10);
    assert(c.take(11).filter(pred) =~= seq![(-10i32, -6i32), (-10i32, 10i32), (-6i32, -10i32), (-6i32, 6i32), (6i32, -6i32)]);
    assert(c[11] == (6i32, 10i32));
    lemma_filter_step(c, pred, 11);
    assert(c.take(12).filter(pred) =~= seq![(-10i32, -6i32), (-10i32, 10i32), (-6i32, -10i32), (-6i32, 6i32), (6i32, -6i32), (6i32, 10i32)]);
    assert(c[12] == (10i32, -10i32));
    lemma_filter_step(c, pred, 12);
    assert(c.take(13).filter(pred) =~= seq![(-10i32, -6i32), (-10i32, 10i32), (-6i32, -10i32), (-6i32, 6i32), (6i32, -6i32), (6i32, 10i32), (10i32, -10i32)]);
    assert(c[13] == (10i32, -6i32));
    lemma_filter_step(c, pred, 13);
    assert(c.take(14).filter(pred) =~= seq![(-10i32, -6i32), (-10i32, 10i32), (-6i32, -10i32), (-6i32, 6i32), (6i32, -6i32), (6i32, 10i32), (10i32, -10i32)]);
    assert(c[14] == (10i32, 6i32));
    lemma_filter_step(c, pred, 14);
    assert(c.take(15).filter(pred) =~= seq![(-10i32, -6i32), (-10i32, 10i32), (-6i32, -10i32), (-6i32, 6i32), (6i32, -6i32), (6i32, 10i32), (10i32, -10i32), (10i32, 6i32)]);
    assert(c[15] == (10i32, 10i32));
    lemma_filter_step(c, pred, 15);
    assert(c.take(16).filter(pred) =~= seq![(-10i32, -6i32), (-10i32, 10i32), (-6i32, -10i32), (-6i32, 6i32), (6i32, -6i32), (6i32, 10i32), (10i32, -10i32), (10i32, 6i32)]);
    assert(c.take(16) =~= c);
}

/// Filtering the empty sequence gives the empty sequence.
proof fn lemma_filter_of_empty(pred: spec_fn((i32, i32)) -> bool)
    ensures
        Seq::<(i32, i32)>::empty().filter(pred) == Seq::<(i32, i32)>::empty(),
{
    reveal(Seq::filter);
}

/// Filtering one element more: the new element is kept exactly when it
/// satisfies the predicate.
proof fn lemma_filter_step(s: Seq<(i32, i32)>, pred: spec_fn((i32, i32)) -> bool, k: int)
    requires
        0 <= k < s.len(),
    ensures
        s.take(k + 1).filter(pred) == if pred(s[k]) {
            s.take(k).filter(pred).push(s[k])
        } else {
            s.take(k).filter(pred)
        },
{
    reveal(Seq::filter);
    assert(s.take(k + 1).drop_last() =~= s.take(k));
}

/// The floor grid reaches sixteen units from the centre each way, which makes
/// thirty-three lines.
pub proof fn lemma_grid_span()
    ensures
        GRID_HALF_SPAN == 16,
        2 * GRID_HALF_SPAN + 1 == 33,
{
}

/// Every role gets its own gear: collectors a backpack, builders a helmet,
/// workers a tool.
pub proof fn lemma_role_gear(a: AgentRole, b: AgentRole)
    ensures
        accessory_of(AgentRole::Collector) == AgentAccessory::Backpack,
        accessory_of(AgentRole::Builder) == AgentAccessory::Helmet,
        accessory_of(AgentRole::Worker) == AgentAccessory::Tool,
        a != b ==> accessory_of(a) != accessory_of(b),
{
}

} // verus!
