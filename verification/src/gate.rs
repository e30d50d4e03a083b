//! Virtual lanes and the physical packer.
//!
//! Witness-building code appends cell values to ordered, append-only lanes:
//! generic gate lanes (one set per phase) and paired dense/spread lanes.
//! The packer then walks the lane pairs in creation order and assigns every
//! cell pair a physical `(row, column)` slot from a running counter, so that
//! any two passes that build the same lane shapes obtain the same layout,
//! whatever values the lanes hold.

use vstd::prelude::*;

verus! {

/// The phase in which the dense/spread lanes live.
pub const FIRST_PHASE: usize = 0;

/// Which family of lanes a context belongs to; part of a cell's identity.
#[derive(Clone, Copy, Debug, PartialEq, Eq, Structural)]
pub enum LaneType {
    /// A generic arithmetic-gate lane.
    Gate,
    /// The dense half of a dense/spread lane pair.
    Dense,
    /// The spread half of a dense/spread lane pair.
    Spread,
}

/// One virtual lane: an ordered, append-only sequence of witness cell
/// values, tagged with its lane type, its id within that type, and its
/// phase.
#[derive(Clone, Debug, PartialEq)]
pub struct Context {
    /// The lane family this context belongs to.
    pub lane_type: LaneType,
    /// The id of this lane, monotonically increasing within its lane type.
    pub context_id: usize,
    /// The challenge phase this lane belongs to.
    pub phase: usize,
    /// The recorded witness cell values, in assignment order.
    pub advice: Vec<u64>,
}

/// The identity of one abstract cell: which lane family, which lane, and
/// the index within that lane.
#[derive(Clone, Copy, Debug, PartialEq, Eq, Structural)]
pub struct ContextCell {
    /// The lane family of the cell's lane.
    pub lane_type: LaneType,
    /// The id of the cell's lane.
    pub context_id: usize,
    /// The index of the cell within its lane.
    pub offset: usize,
}

/// A physical coordinate: a row and a column index within the dense/spread
/// column family.
#[derive(Clone, Copy, Debug, PartialEq, Eq, Structural)]
pub struct Slot {
    /// The physical row.
    pub row: usize,
    /// The physical column index.
    pub column: usize,
}

/// What is written into a physical cell: a concrete value, or a structural
/// placeholder when the pass only needs the circuit's shape.
#[derive(Clone, Copy, Debug, PartialEq, Eq, Structural)]
pub enum CellValue {
    /// A concrete witness value.
    Known(u64),
    /// A structurally present but intentionally blanked value.
    Placeholder,
}

/// The physical assignment of one dense/spread cell pair: the slot it
/// occupies, the lane-pair index and cell index it came from, and the two
/// values written.
#[derive(Clone, Copy, Debug, PartialEq, Eq, Structural)]
pub struct PairPlacement {
    /// The physical row of both halves of the pair.
    pub row: usize,
    /// The physical column of both halves of the pair.
    pub column: usize,
    /// The index of the lane pair in creation order.
    pub lane: usize,
    /// The index of the cell within its lane.
    pub offset: usize,
    /// The value written into the dense column.
    pub dense: CellValue,
    /// The value written into the spread column.
    pub spread: CellValue,
}

/// A fatal layout failure: the caller built inconsistent lanes.
#[derive(Clone, Copy, Debug, PartialEq, Eq, Structural)]
pub enum LayoutError {
    /// The number of dense lanes differs from the number of spread lanes.
    LaneCountMismatch,
    /// A dense lane and its paired spread lane differ in length; `lane` is
    /// the first pair for which they do.
    LaneLengthMismatch { lane: usize },
}

/// The shared store of equality (copy) constraints: every entry maps an
/// abstract cell identity to the physical slot it was placed in, in
/// insertion order.
#[derive(Clone, Debug, PartialEq)]
pub struct CopyManager {
    /// The recorded virtual-to-physical mappings.
    pub assigned_advices: Vec<(ContextCell, Slot)>,
}

/// The generic gate lanes of one phase.
#[derive(Clone, Debug, PartialEq)]
pub struct PhaseManager {
    /// The lanes of this phase, in creation order.
    pub threads: Vec<Context>,
}

/// The generic multi-phase lane manager: pass-wide flags, the generic gate
/// lanes of every phase, and the shared copy-constraint store.
#[derive(Clone, Debug, PartialEq)]
pub struct CoreManager {
    /// Witness-generation-only mode: when set, no equality constraints are
    /// tracked, since no constraint replay will follow.
    pub witness_gen_only: bool,
    /// Placeholder visibility mode: when set, every value written into the
    /// physical grid is blanked; only the shape matters.
    pub use_unknown: bool,
    /// One generic lane set per phase, grown on demand.
    pub phase_manager: Vec<PhaseManager>,
    /// The shared copy-constraint store.
    pub copy_manager: CopyManager,
}

/// The number of cells in the first `t` lanes together.
pub open spec fn prefix_cells(lanes: Seq<Context>, t: int) -> int
    decreases t,
{
    if t <= 0 {
        0
    } else {
        prefix_cells(lanes, t - 1) + lanes[t - 1].advice@.len()
    }
}

/// The number of cells in all lanes together.
pub open spec fn total_cells(lanes: Seq<Context>) -> int {
    prefix_cells(lanes, lanes.len() as int)
}

/// The position of cell `i` of lane `t` in the flattened creation order:
/// the value of the packer's running counter when the cell is placed.
pub open spec fn cell_pos(lanes: Seq<Context>, t: int, i: int) -> int {
    prefix_cells(lanes, t) + i
}

/// Dense and spread lanes pair up: equally many lanes, and each dense lane
/// has exactly the length of its paired spread lane.
pub open spec fn lanes_paired(dense: Seq<Context>, spread: Seq<Context>) -> bool {
    &&& dense.len() == spread.len()
    &&& forall|t: int|
        0 <= t < dense.len() ==> #[trigger] dense[t].advice@.len() == spread[t].advice@.len()
}

/// The value written for a cell under the given visibility mode.
pub open spec fn vis_value(use_unknown: bool, v: u64) -> CellValue {
    if use_unknown {
        CellValue::Placeholder
    } else {
        CellValue::Known(v)
    }
}

/// The slot the cell with running-counter value `n` is packed into, with
/// `c` physical column pairs available: column `n % c`, row `n / c`.
pub open spec fn slot_at(n: int, c: int) -> Slot {
    Slot { row: (n / c) as usize, column: (n % c) as usize }
}

/// The identity of cell `i` of lane `t`.
pub open spec fn cell_id_at(lanes: Seq<Context>, t: int, i: int) -> ContextCell {
    ContextCell {
        lane_type: lanes[t].lane_type,
        context_id: lanes[t].context_id,
        offset: i as usize,
    }
}

/// The placement the packer owes cell `i` of lane pair `t`.
pub open spec fn placement_at(
    dense: Seq<Context>,
    spread: Seq<Context>,
    c: int,
    use_unknown: bool,
    t: int,
    i: int,
) -> PairPlacement {
    PairPlacement {
        row: slot_at(cell_pos(dense, t, i), c).row,
        column: slot_at(cell_pos(dense, t, i), c).column,
        lane: t as usize,
        offset: i as usize,
        dense: vis_value(use_unknown, dense[t].advice@[i]),
        spread: vis_value(use_unknown, spread[t].advice@[i]),
    }
}

/// The packer's whole output is correct: one placement per cell pair, in
/// creation order, each at the slot the running counter dictates.
pub open spec fn placements_ok(
    p: Seq<PairPlacement>,
    dense: Seq<Context>,
    spread: Seq<Context>,
    c: int,
    use_unknown: bool,
) -> bool {
    &&& p.len() == total_cells(dense)
    &&& forall|t: int, i: int|
        0 <= t < dense.len() && 0 <= i < dense[t].advice@.len() ==> p[#[trigger] cell_pos(
            dense,
            t,
            i,
        )] == placement_at(dense, spread, c, use_unknown, t, i)
}

/// The recorded virtual-to-physical mappings are correct: two entries per
/// cell pair (dense then spread), each mapping the cell's identity to the
/// slot its placement occupies.
pub open spec fn copies_ok(
    copies: Seq<(ContextCell, Slot)>,
    dense: Seq<Context>,
    spread: Seq<Context>,
    c: int,
) -> bool {
    &&& copies.len() == 2 * total_cells(dense)
    &&& forall|t: int, i: int|
        0 <= t < dense.len() && 0 <= i < dense[t].advice@.len() ==> {
            &&& copies[2 * #[trigger] cell_pos(dense, t, i)] == (
            cell_id_at(dense, t, i),
            slot_at(cell_pos(dense, t, i), c),
            )
            &&& copies[2 * cell_pos(dense, t, i) + 1] == (
            cell_id_at(spread, t, i),
            slot_at(cell_pos(dense, t, i), c),
            )
        }
}

/// Prefix cell counts never decrease as more lanes are counted.
pub proof fn lemma_prefix_monotonic(lanes: Seq<Context>, a: int, b: int)
    requires
        a <= b,
    ensures
        prefix_cells(lanes, a) <= prefix_cells(lanes, b),
    decreases b - a,
{
    if a < b {
        lemma_prefix_monotonic(lanes, a, b - 1);
    }
}

/// Every cell's flattened position lies within the total cell count.
pub proof fn lemma_cell_pos_in_range(lanes: Seq<Context>, t: int, i: int)
    requires
        0 <= t < lanes.len(),
        0 <= i < lanes[t].advice@.len(),
    ensures
        0 <= cell_pos(lanes, t, i) < total_cells(lanes),
{
    lemma_prefix_monotonic(lanes, 0, t);
    assert(prefix_cells(lanes, t + 1) == prefix_cells(lanes, t) + lanes[t].advice@.len());
    lemma_prefix_monotonic(lanes, t + 1, lanes.len() as int);
}

/// Packs every dense/spread cell pair into a physical slot.
///
/// Lane pairs are visited in creation order and, within a pair, by
/// increasing cell index.  A running counter `n` starts at zero; the pair
/// with counter value `n` goes to column `n % num_advice_columns`, row
/// `n / num_advice_columns`, and the counter increments once per pair.
/// Under placeholder visibility the values are blanked but the slots are
/// the same.  When `track_copies` is set, each placed cell's identity and
/// slot are recorded, dense before spread, for later equality-constraint
/// replay.
///
/// Packing aborts with an error, placing nothing, if the dense and spread
/// lanes do not pair up exactly.
pub fn assign_threads_sha(
    threads_dense: &Vec<Context>,
    threads_spread: &Vec<Context>,
    num_advice_columns: usize,
    use_unknown: bool,
    track_copies: bool,
) -> (r: Result<(Vec<PairPlacement>, Vec<(ContextCell, Slot)>), LayoutError>)
    requires
        num_advice_columns >= 1,
        total_cells(threads_dense@) <= usize::MAX,
    ensures
        match r {
            Ok(out) => {
                &&& lanes_paired(threads_dense@, threads_spread@)
                &&& placements_ok(
                    out.0@,
                    threads_dense@,
                    threads_spread@,
                    num_advice_columns as int,
                    use_unknown,
                )
                &&& if track_copies {
                    copies_ok(out.1@, threads_dense@, threads_spread@, num_advice_columns as int)
                } else {
                    out.1@.len() == 0
                }
            },
            Err(LayoutError::LaneCountMismatch) => threads_dense@.len() != threads_spread@.len(),
            Err(LayoutError::LaneLengthMismatch { lane }) => {
                &&& threads_dense@.len() == threads_spread@.len()
                &&& lane < threads_dense@.len()
                &&& threads_dense@[lane as int].advice@.len() != threads_spread@[
                    lane as int
                ].advice@.len()
                &&& forall|t: int|
                    0 <= t < lane ==> #[trigger] threads_dense@[t].advice@.len()
                        == threads_spread@[t].advice@.len()
            },
        },
{
    if threads_dense.len() != threads_spread.len() {
        return Err(LayoutError::LaneCountMismatch);
    }
    let mut t: usize = 0;
    while t < threads_dense.len()
        invariant
            threads_dense@.len() == threads_spread@.len(),
            t <= threads_dense@.len(),
            forall|u: int|
                0 <= u < t ==> #[trigger] threads_dense@[u].advice@.len() == threads_spread@[
                    u
                ].advice@.len(),
        decreases threads_dense@.len() - t,
    {
        if threads_dense[t].advice.len() != threads_spread[t].advice.len() {
            return Err(LayoutError::LaneLengthMismatch { lane: t });
        }
        t = t + 1;
    }
    let ghost dense_seq = threads_dense@;
    let ghost spread_seq = threads_spread@;
    let mut placements: Vec<PairPlacement> = Vec::new();
    let mut copies: Vec<(ContextCell, Slot)> = Vec::new();
    let mut n: usize = 0;
    let mut t: usize = 0;
    while t < threads_dense.len()
        invariant
            lanes_paired(dense_seq, spread_seq),
            threads_dense@ == dense_seq,
            threads_spread@ == spread_seq,
            num_advice_columns >= 1,
            total_cells(dense_seq) <= usize::MAX,
            t <= dense_seq.len(),
            n == prefix_cells(dense_seq, t as int),
            placements@.len() == n,
            copies@.len() == if track_copies {
                2 * n as int
            } else {
                0
            },
            forall|u: int, i: int|
                0 <= u < t && 0 <= i < dense_seq[u].advice@.len() ==> placements@[
                    #[trigger] cell_pos(dense_seq, u, i)
                ] == placement_at(
                    dense_seq,
                    spread_seq,
                    num_advice_columns as int,
                    use_unknown,
                    u,
                    i,
                ),
            track_copies ==> forall|u: int, i: int|
                0 <= u < t && 0 <= i < dense_seq[u].advice@.len() ==> {
                    &&& copies@[2 * #[trigger] cell_pos(dense_seq, u, i)] == (
                    cell_id_at(dense_seq, u, i),
                    slot_at(cell_pos(dense_seq, u, i), num_advice_columns as int),
                    )
                    &&& copies@[2 * cell_pos(dense_seq, u, i) + 1] == (
                    cell_id_at(spread_seq, u, i),
                    slot_at(cell_pos(dense_seq, u, i), num_advice_columns as int),
                    )
                },
        decreases dense_seq.len() - t,
    {
        let lane_len = threads_dense[t].advice.len();
        let mut i: usize = 0;
        while i < lane_len
            invariant
                lanes_paired(dense_seq, spread_seq),
                threads_dense@ == dense_seq,
                threads_spread@ == spread_seq,
                num_advice_columns >= 1,
                total_cells(dense_seq) <= usize::MAX,
                t < dense_seq.len(),
                lane_len == dense_seq[t as int].advice@.len(),
                i <= lane_len,
                n == cell_pos(dense_seq, t as int, i as int),
                placements@.len() == n,
                copies@.len() == if track_copies {
                    2 * n as int
                } else {
                    0
                },
                forall|u: int, j: int|
                    0 <= u < t && 0 <= j < dense_seq[u].advice@.len() ==> placements@[
                        #[trigger] cell_pos(dense_seq, u, j)
                    ] == placement_at(
                        dense_seq,
                        spread_seq,
                        num_advice_columns as int,
                        use_unknown,
                        u,
                        j,
                    ),
                forall|j: int|
                    0 <= j < i ==> placements@[#[trigger] cell_pos(dense_seq, t as int, j)]
                        == placement_at(
                        dense_seq,
                        spread_seq,
                        num_advice_columns as int,
                        use_unknown,
                        t as int,
                        j,
                    ),
                track_copies ==> forall|u: int, j: int|
                    0 <= u < t && 0 <= j < dense_seq[u].advice@.len() ==> {
                        &&& copies@[2 * #[trigger] cell_pos(dense_seq, u, j)] == (
                        cell_id_at(dense_seq, u, j),
                        slot_at(cell_pos(dense_seq, u, j), num_advice_columns as int),
                        )
                        &&& copies@[2 * cell_pos(dense_seq, u, j) + 1] == (
                        cell_id_at(spread_seq, u, j),
                        slot_at(cell_pos(dense_seq, u, j), num_advice_columns as int),
                        )
                    },
                track_copies ==> forall|j: int|
                    0 <= j < i ==> {
                        &&& copies@[2 * #[trigger] cell_pos(dense_seq, t as int, j)] == (
                        cell_id_at(dense_seq, t as int, j),
                        slot_at(cell_pos(dense_seq, t as int, j), num_advice_columns as int),
                        )
                        &&& copies@[2 * cell_pos(dense_seq, t as int, j) + 1] == (
                        cell_id_at(spread_seq, t as int, j),
                        slot_at(cell_pos(dense_seq, t as int, j), num_advice_columns as int),
                        )
                    },
            decreases lane_len - i,
        {
            proof {
                lemma_cell_pos_in_range(dense_seq, t as int, i as int);
            }
            let column: usize = n % num_advice_columns;
            let row: usize = n / num_advice_columns;
            let dense_value = if use_unknown {
                CellValue::Placeholder
            } else {
                CellValue::Known(threads_dense[t].advice[i])
            };
            let spread_value = if use_unknown {
                CellValue::Placeholder
            } else {
                CellValue::Known(threads_spread[t].advice[i])
            };
            placements.push(
                PairPlacement {
                    row,
                    column,
                    lane: t,
                    offset: i,
                    dense: dense_value,
                    spread: spread_value,
                },
            );
            if track_copies {
                copies.push(
                    (
                        ContextCell {
                            lane_type: threads_dense[t].lane_type,
                            context_id: threads_dense[t].context_id,
                            offset: i,
                        },
                        Slot { row, column },
                    ),
                );
                copies.push(
                    (
                        ContextCell {
                            lane_type: threads_spread[t].lane_type,
                            context_id: threads_spread[t].context_id,
                            offset: i,
                        },
                        Slot { row, column },
                    ),
                );
            }
            proof {
                lemma_prefix_monotonic(dense_seq, 0, t as int);
                assert forall|u: int, j: int|
                    0 <= u < t && 0 <= j < dense_seq[u].advice@.len() implies 0 <= #[trigger] cell_pos(
                    dense_seq,
                    u,
                    j,
                ) < n as int by {
                    lemma_prefix_monotonic(dense_seq, 0, u);
                    lemma_prefix_monotonic(dense_seq, u + 1, t as int);
                }
                assert forall|j: int| 0 <= j < i implies 0 <= #[trigger] cell_pos(
                    dense_seq,
                    t as int,
                    j,
                ) < n as int by {
                    lemma_prefix_monotonic(dense_seq, 0, t as int);
                }
            }
            n = n + 1;
            i = i + 1;
        }
        t = t + 1;
    }
    Ok((placements, copies))
}

/// Two lane sets have the same shape: equally many lanes, created in the
/// same order, with the same number of cells in each.
pub open spec fn same_shape(a: Seq<Context>, b: Seq<Context>) -> bool {
    &&& a.len() == b.len()
    &&& forall|t: int| 0 <= t < a.len() ==> #[trigger] a[t].advice@.len() == b[t].advice@.len()
}

/// Lane sets of the same shape flatten identically: every prefix holds the
/// same number of cells.
pub proof fn lemma_prefix_same_shape(a: Seq<Context>, b: Seq<Context>, t: int)
    requires
        same_shape(a, b),
        t <= a.len(),
    ensures
        prefix_cells(a, t) == prefix_cells(b, t),
    decreases t,
{
    if t > 0 {
        lemma_prefix_same_shape(a, b, t - 1);
    }
}

/// Determinism across modes: two packing passes over lane sets of the same
/// shape — the same lane-pair creation order and the same per-lane cell
/// counts — assign every cell the same row and column, whatever visibility
/// modes the passes ran under and whatever values the lanes held.
pub proof fn lemma_mode_independent_layout(
    p1: Seq<PairPlacement>,
    d1: Seq<Context>,
    s1: Seq<Context>,
    unknown1: bool,
    p2: Seq<PairPlacement>,
    d2: Seq<Context>,
    s2: Seq<Context>,
    unknown2: bool,
    c: int,
)
    requires
        placements_ok(p1, d1, s1, c, unknown1),
        placements_ok(p2, d2, s2, c, unknown2),
        same_shape(d1, d2),
    ensures
        p1.len() == p2.len(),
        forall|t: int, i: int|
            0 <= t < d1.len() && 0 <= i < d1[t].advice@.len() ==> {
                &&& #[trigger] cell_pos(d1, t, i) == cell_pos(d2, t, i)
                &&& p1[cell_pos(d1, t, i)].row == p2[cell_pos(d2, t, i)].row
                &&& p1[cell_pos(d1, t, i)].column == p2[cell_pos(d2, t, i)].column
                &&& p1[cell_pos(d1, t, i)].lane == p2[cell_pos(d2, t, i)].lane
                &&& p1[cell_pos(d1, t, i)].offset == p2[cell_pos(d2, t, i)].offset
            },
{
    lemma_prefix_same_shape(d1, d2, d1.len() as int);
    assert forall|t: int, i: int|
        0 <= t < d1.len() && 0 <= i < d1[t].advice@.len() implies {
        &&& #[trigger] cell_pos(d1, t, i) == cell_pos(d2, t, i)
        &&& p1[cell_pos(d1, t, i)].row == p2[cell_pos(d2, t, i)].row
        &&& p1[cell_pos(d1, t, i)].column == p2[cell_pos(d2, t, i)].column
        &&& p1[cell_pos(d1, t, i)].lane == p2[cell_pos(d2, t, i)].lane
        &&& p1[cell_pos(d1, t, i)].offset == p2[cell_pos(d2, t, i)].offset
    } by {
        lemma_prefix_same_shape(d1, d2, t);
        assert(p1[cell_pos(d1, t, i)] == placement_at(d1, s1, c, unknown1, t, i));
        assert(p2[cell_pos(d2, t, i)] == placement_at(d2, s2, c, unknown2, t, i));
    }
}

/// Packing shape: a single lane pair of `n` cells packed at column width
/// `c` places cell `i` at row `i / c`, column `i % c`, and consumes exactly
/// the rows `0 ..= (n + c - 1) / c - 1`, that is, `ceil(n / c)` rows.
pub proof fn lemma_packing_shape(
    p: Seq<PairPlacement>,
    dense: Seq<Context>,
    spread: Seq<Context>,
    c: int,
    use_unknown: bool,
)
    requires
        placements_ok(p, dense, spread, c, use_unknown),
        dense.len() == 1,
        1 <= dense[0].advice@.len() <= usize::MAX,
        1 <= c <= usize::MAX,
    ensures
        p.len() == dense[0].advice@.len(),
        forall|i: int|
            0 <= i < p.len() ==> #[trigger] p[i].row == i / c && p[i].column == i % c,
        p[p.len() - 1].row + 1 == crate::circuit::ceil_div(p.len() as int, c),
        forall|i: int|
            0 <= i < p.len() ==> #[trigger] p[i].row + 1 <= crate::circuit::ceil_div(
                p.len() as int,
                c,
            ),
{
    let n = dense[0].advice@.len() as int;
    assert(prefix_cells(dense, 0) == 0);
    assert(total_cells(dense) == n);
    assert forall|i: int| 0 <= i < p.len() implies #[trigger] p[i].row == i / c && p[i].column
        == i % c by {
        assert(cell_pos(dense, 0, i) == i);
        assert(p[i] == placement_at(dense, spread, c, use_unknown, 0, i));
        vstd::arithmetic::div_mod::lemma_div_pos_is_pos(i, c);
        vstd::arithmetic::div_mod::lemma_div_nonincreasing(i, c);
        vstd::arithmetic::div_mod::lemma_mod_bound(i, c);
    }
    vstd::arithmetic::div_mod::lemma_div_plus_one(n - 1, c);
    assert forall|i: int| 0 <= i < p.len() implies #[trigger] p[i].row + 1
        <= crate::circuit::ceil_div(p.len() as int, c) by {
        vstd::arithmetic::div_mod::lemma_div_is_ordered(i, n - 1, c);
    }
}

impl PhaseManager {
    /// The number of lanes created so far in this phase.
    pub fn thread_count(&self) -> (r: usize)
        ensures
            r == self.threads@.len(),
    {
        self.threads.len()
    }
}

/// The generic lanes of phase `q`, empty where the phase was never touched.
pub open spec fn phase_threads(cm: CoreManager, q: int) -> Seq<Context> {
    if 0 <= q < cm.phase_manager@.len() {
        cm.phase_manager@[q].threads@
    } else {
        Seq::empty()
    }
}

/// What getting or creating the current generic lane of `phase` does to the
/// manager: the pass-wide flags and the copy store are untouched, every
/// other phase keeps its lanes, and afterwards `phase` has a current lane
/// whose id is returned.  Where a lane already existed the lane set is
/// unchanged; where none did, the phase now holds exactly one fresh gate
/// lane with id zero and no cells.
pub open spec fn current_lane_post(pre: CoreManager, post: CoreManager, phase: int, id: int) -> bool {
    &&& post.witness_gen_only == pre.witness_gen_only
    &&& post.use_unknown == pre.use_unknown
    &&& post.copy_manager == pre.copy_manager
    &&& post.phase_manager@.len() == if pre.phase_manager@.len() > phase {
        pre.phase_manager@.len() as int
    } else {
        phase + 1
    }
    &&& forall|q: int|
        0 <= q < post.phase_manager@.len() && q != phase ==> #[trigger] phase_threads(post, q)
            == phase_threads(pre, q)
    &&& phase_threads(post, phase).len() >= 1
    &&& id == phase_threads(post, phase).len() - 1
    &&& if phase_threads(pre, phase).len() == 0 {
        {
            let lane = phase_threads(post, phase)[id];
            &&& phase_threads(post, phase).len() == 1
            &&& lane.lane_type == LaneType::Gate
            &&& lane.context_id == 0
            &&& lane.phase == phase
            &&& lane.advice@.len() == 0
        }
    } else {
        phase_threads(post, phase) == phase_threads(pre, phase)
    }
}

impl CoreManager {
    /// A fresh manager: flags fixed for the whole pass, no lanes, no
    /// recorded copy constraints.
    pub fn new(witness_gen_only: bool) -> (r: Self)
        ensures
            r.witness_gen_only == witness_gen_only,
            r.use_unknown == false,
            r.phase_manager@.len() == 0,
            r.copy_manager.assigned_advices@.len() == 0,
    {
        CoreManager {
            witness_gen_only,
            use_unknown: false,
            phase_manager: Vec::new(),
            copy_manager: CopyManager { assigned_advices: Vec::new() },
        }
    }

    /// Returns `self` with the placeholder visibility mode set.
    pub fn unknown(self, use_unknown: bool) -> (r: Self)
        ensures
            r.witness_gen_only == self.witness_gen_only,
            r.use_unknown == use_unknown,
            r.phase_manager == self.phase_manager,
            r.copy_manager == self.copy_manager,
    {
        CoreManager { use_unknown, ..self }
    }

    /// Returns the id of the current generic lane of the given phase,
    /// creating the phase's lane set and its first lane on demand.  Lane
    /// ids increase monotonically within the phase.
    pub fn main(&mut self, phase: usize) -> (id: usize)
        requires
            phase < usize::MAX,
        ensures
            current_lane_post(*old(self), *final(self), phase as int, id as int),
    {
        let ghost pre = *self;
        while self.phase_manager.len() < phase + 1
            invariant
                phase < usize::MAX,
                self.witness_gen_only == pre.witness_gen_only,
                self.use_unknown == pre.use_unknown,
                self.copy_manager == pre.copy_manager,
                self.phase_manager@.len() >= pre.phase_manager@.len(),
                self.phase_manager@.len() <= phase + 1 || self.phase_manager@.len()
                    == pre.phase_manager@.len(),
                forall|q: int|
                    0 <= q < pre.phase_manager@.len() ==> #[trigger] self.phase_manager@[q]
                        == pre.phase_manager@[q],
                forall|q: int|
                    pre.phase_manager@.len() <= q < self.phase_manager@.len()
                        ==> #[trigger] self.phase_manager@[q].threads@.len() == 0,
            decreases phase + 1 - self.phase_manager@.len(),
        {
            let ghost before = self.phase_manager@;
            let fresh = PhaseManager { threads: Vec::new() };
            self.phase_manager.push(fresh);
            proof {
                assert forall|q: int|
                    pre.phase_manager@.len() <= q < self.phase_manager@.len()
                        implies #[trigger] self.phase_manager@[q].threads@.len() == 0 by {
                    if q < before.len() {
                        assert(before[q].threads@.len() == 0);
                        assert(self.phase_manager@[q] == before[q]);
                    } else {
                        assert(q == before.len());
                        assert(fresh.threads@.len() == 0);
                        assert(self.phase_manager@[q] == fresh);
                    }
                }
            }
        }
        let ghost grown = *self;
        if self.phase_manager[phase].threads.len() == 0 {
            let next_id = self.phase_manager[phase].threads.len();
            let lane = Context {
                lane_type: LaneType::Gate,
                context_id: next_id,
                phase,
                advice: Vec::new(),
            };
            self.phase_manager[phase].threads.push(lane);
        }
        proof {
            assert forall|q: int|
                0 <= q < self.phase_manager@.len() && q != phase implies #[trigger] phase_threads(
                *self,
                q,
            ) == phase_threads(pre, q) by {
                assert(self.phase_manager@[q] == grown.phase_manager@[q]);
                if q >= pre.phase_manager@.len() {
                    assert(phase_threads(*self, q) =~= phase_threads(pre, q));
                }
            }
        }
        self.phase_manager[phase].threads.len() - 1
    }
}

/// The lane manager of one construction pass: the paired dense/spread
/// lanes, plus the generic multi-phase lanes and pass-wide flags.
#[derive(Clone, Debug, PartialEq)]
pub struct ShaThreadBuilder {
    /// The dense halves of the lane pairs, in creation order.
    pub threads_dense: Vec<Context>,
    /// The spread halves of the lane pairs, in creation order.
    pub threads_spread: Vec<Context>,
    /// The generic lanes, flags, and the shared copy-constraint store.
    pub core: CoreManager,
}

/// A fresh lane of the given family, with the given id, holding no cells.
pub open spec fn fresh_lane(lane: Context, lane_type: LaneType, id: int) -> bool {
    &&& lane.lane_type == lane_type
    &&& lane.context_id == id
    &&& lane.phase == FIRST_PHASE
    &&& lane.advice@.len() == 0
}

impl ShaThreadBuilder {
    /// A fresh builder with no lanes and no recorded constraints; the
    /// witness-generation-only flag is fixed here for the whole pass.
    pub fn new(witness_gen_only: bool) -> (r: Self)
        ensures
            r.threads_dense@.len() == 0,
            r.threads_spread@.len() == 0,
            r.core.witness_gen_only == witness_gen_only,
            r.core.use_unknown == false,
            r.core.phase_manager@.len() == 0,
            r.core.copy_manager.assigned_advices@.len() == 0,
    {
        ShaThreadBuilder {
            threads_dense: Vec::new(),
            threads_spread: Vec::new(),
            core: CoreManager::new(witness_gen_only),
        }
    }

    /// A builder for a mock pass: concrete values, equality tracking on.
    pub fn mock() -> (r: Self)
        ensures
            r.threads_dense@.len() == 0,
            r.threads_spread@.len() == 0,
            r.core.witness_gen_only == false,
            r.core.use_unknown == false,
            r.core.phase_manager@.len() == 0,
            r.core.copy_manager.assigned_advices@.len() == 0,
    {
        Self::new(false)
    }

    /// A builder for a key-generation pass: placeholder values, equality
    /// tracking on.
    pub fn keygen() -> (r: Self)
        ensures
            r.threads_dense@.len() == 0,
            r.threads_spread@.len() == 0,
            r.core.witness_gen_only == false,
            r.core.use_unknown == true,
            r.core.phase_manager@.len() == 0,
            r.core.copy_manager.assigned_advices@.len() == 0,
    {
        Self::new(false).unknown(true)
    }

    /// A builder for a proving pass: concrete values, no equality tracking.
    pub fn prover() -> (r: Self)
        ensures
            r.threads_dense@.len() == 0,
            r.threads_spread@.len() == 0,
            r.core.witness_gen_only == true,
            r.core.use_unknown == false,
            r.core.phase_manager@.len() == 0,
            r.core.copy_manager.assigned_advices@.len() == 0,
    {
        Self::new(true)
    }

    /// A fresh builder with both pass-wide flags chosen from the stage.
    pub fn from_stage(stage: crate::circuit::CircuitBuilderStage) -> (r: Self)
        ensures
            r.threads_dense@.len() == 0,
            r.threads_spread@.len() == 0,
            r.core.witness_gen_only == (stage == crate::circuit::CircuitBuilderStage::Prover),
            r.core.use_unknown == (stage == crate::circuit::CircuitBuilderStage::Keygen),
            r.core.phase_manager@.len() == 0,
            r.core.copy_manager.assigned_advices@.len() == 0,
    {
        Self::new(stage == crate::circuit::CircuitBuilderStage::Prover).unknown(
            stage == crate::circuit::CircuitBuilderStage::Keygen,
        )
    }

    /// A snapshot of the shared copy-constraint store.
    pub fn copy_manager(&self) -> (r: CopyManager)
        ensures
            r.assigned_advices@ == self.core.copy_manager.assigned_advices@,
    {
        let mut entries: Vec<(ContextCell, Slot)> = Vec::new();
        let mut k: usize = 0;
        while k < self.core.copy_manager.assigned_advices.len()
            invariant
                k <= self.core.copy_manager.assigned_advices@.len(),
                entries@ == self.core.copy_manager.assigned_advices@.subrange(0, k as int),
            decreases self.core.copy_manager.assigned_advices@.len() - k,
        {
            entries.push(self.core.copy_manager.assigned_advices[k]);
            proof {
                assert(entries@ =~= self.core.copy_manager.assigned_advices@.subrange(
                    0,
                    k + 1,
                ));
            }
            k = k + 1;
        }
        proof {
            assert(entries@ =~= self.core.copy_manager.assigned_advices@);
        }
        CopyManager { assigned_advices: entries }
    }

    /// Returns `self` with the given copy-constraint store installed.
    pub fn use_copy_manager(self, copy_manager: CopyManager) -> (r: Self)
        ensures
            r.threads_dense == self.threads_dense,
            r.threads_spread == self.threads_spread,
            r.core.witness_gen_only == self.core.witness_gen_only,
            r.core.use_unknown == self.core.use_unknown,
            r.core.phase_manager == self.core.phase_manager,
            r.core.copy_manager == copy_manager,
    {
        ShaThreadBuilder {
            core: CoreManager { copy_manager, ..self.core },
            ..self
        }
    }

    /// Returns `self` with the placeholder visibility mode set.
    pub fn unknown(self, use_unknown: bool) -> (r: Self)
        ensures
            r.threads_dense == self.threads_dense,
            r.threads_spread == self.threads_spread,
            r.core.witness_gen_only == self.core.witness_gen_only,
            r.core.use_unknown == use_unknown,
            r.core.phase_manager == self.core.phase_manager,
            r.core.copy_manager == self.core.copy_manager,
    {
        ShaThreadBuilder { core: self.core.unknown(use_unknown), ..self }
    }

    /// The id of the current generic lane of the first phase, created on
    /// demand.
    pub fn main(&mut self) -> (id: usize)
        ensures
            final(self).threads_dense == old(self).threads_dense,
            final(self).threads_spread == old(self).threads_spread,
            current_lane_post(old(self).core, final(self).core, FIRST_PHASE as int, id as int),
    {
        self.core.main(FIRST_PHASE)
    }

    /// Whether this pass only generates witnesses, so that no equality
    /// constraints are tracked.
    pub fn witness_gen_only(&self) -> (r: bool)
        ensures
            r == self.core.witness_gen_only,
    {
        self.core.witness_gen_only
    }

    /// Whether this pass blanks every value it writes.
    pub fn use_unknown(&self) -> (r: bool)
        ensures
            r == self.core.use_unknown,
    {
        self.core.use_unknown
    }

    /// The number of generic lanes created in the first phase.
    pub fn thread_count(&self) -> (r: usize)
        ensures
            r == phase_threads(self.core, 0).len(),
    {
        if self.core.phase_manager.len() == 0 {
            0
        } else {
            self.core.phase_manager[0].thread_count()
        }
    }

    /// The id the next generic lane of the first phase would get.
    pub fn get_new_thread_id(&mut self) -> (r: usize)
        ensures
            *final(self) == *old(self),
            r == phase_threads(old(self).core, 0).len(),
    {
        self.thread_count()
    }

    /// Starts a new dense lane and returns its id; dense lane ids increase
    /// monotonically in creation order.
    pub fn new_thread_dense(&mut self) -> (id: usize)
        ensures
            id == old(self).threads_dense@.len(),
            final(self).threads_dense@.len() == old(self).threads_dense@.len() + 1,
            forall|t: int|
                0 <= t < old(self).threads_dense@.len() ==> #[trigger] final(self).threads_dense@[t]
                    == old(self).threads_dense@[t],
            fresh_lane(final(self).threads_dense@[id as int], LaneType::Dense, id as int),
            final(self).threads_spread == old(self).threads_spread,
            final(self).core == old(self).core,
    {
        let id = self.threads_dense.len();
        let lane = Context {
            lane_type: LaneType::Dense,
            context_id: id,
            phase: FIRST_PHASE,
            advice: Vec::new(),
        };
        self.threads_dense.push(lane);
        id
    }

    /// Starts a new spread lane and returns its id; spread lane ids
    /// increase monotonically in creation order.
    pub fn new_thread_spread(&mut self) -> (id: usize)
        ensures
            id == old(self).threads_spread@.len(),
            final(self).threads_spread@.len() == old(self).threads_spread@.len() + 1,
            forall|t: int|
                0 <= t < old(self).threads_spread@.len() ==> #[trigger] final(self).threads_spread@[
                    t
                ] == old(self).threads_spread@[t],
            fresh_lane(final(self).threads_spread@[id as int], LaneType::Spread, id as int),
            final(self).threads_dense == old(self).threads_dense,
            final(self).core == old(self).core,
    {
        let id = self.threads_spread.len();
        let lane = Context {
            lane_type: LaneType::Spread,
            context_id: id,
            phase: FIRST_PHASE,
            advice: Vec::new(),
        };
        self.threads_spread.push(lane);
        id
    }

    /// Returns the current generic lane id together with the current
    /// dense/spread lane pair's ids — always the most recently created pair
    /// — creating a first pair, and the generic lane, on demand.  A new
    /// pair is started only by an explicit `new_thread_dense` /
    /// `new_thread_spread` request, never here.
    pub fn sha_contexts_pair(&mut self) -> (r: (usize, (usize, usize)))
        ensures
            final(self).threads_dense@.len() >= 1,
            final(self).threads_spread@.len() >= 1,
            r.1.0 == final(self).threads_dense@.len() - 1,
            r.1.1 == final(self).threads_spread@.len() - 1,
            old(self).threads_dense@.len() >= 1 ==> final(self).threads_dense == old(
                self,
            ).threads_dense,
            old(self).threads_dense@.len() == 0 ==> {
                &&& final(self).threads_dense@.len() == 1
                &&& fresh_lane(final(self).threads_dense@[0], LaneType::Dense, 0)
            },
            old(self).threads_spread@.len() >= 1 ==> final(self).threads_spread == old(
                self,
            ).threads_spread,
            old(self).threads_spread@.len() == 0 ==> {
                &&& final(self).threads_spread@.len() == 1
                &&& fresh_lane(final(self).threads_spread@[0], LaneType::Spread, 0)
            },
            current_lane_post(old(self).core, final(self).core, FIRST_PHASE as int, r.0 as int),
    {
        if self.threads_dense.len() == 0 {
            self.new_thread_dense();
        }
        if self.threads_spread.len() == 0 {
            self.new_thread_spread();
        }
        let gate_id = self.core.main(FIRST_PHASE);
        let dense_id = self.threads_dense.len() - 1;
        let spread_id = self.threads_spread.len() - 1;
        (gate_id, (dense_id, spread_id))
    }

    /// Runs the physical packer over this builder's dense/spread lane
    /// pairs, under the pass-wide visibility mode, and — unless the pass is
    /// witness-generation-only — records every placed cell's
    /// virtual-to-physical mapping in the shared copy-constraint store.
    pub fn assign_raw(&mut self, num_advice_columns: usize) -> (r: Result<
        Vec<PairPlacement>,
        LayoutError,
    >)
        requires
            num_advice_columns >= 1,
            total_cells(old(self).threads_dense@) <= usize::MAX,
        ensures
            match r {
                Ok(placements) => {
                    &&& lanes_paired(old(self).threads_dense@, old(self).threads_spread@)
                    &&& placements_ok(
                        placements@,
                        old(self).threads_dense@,
                        old(self).threads_spread@,
                        num_advice_columns as int,
                        old(self).core.use_unknown,
                    )
                    &&& final(self).threads_dense == old(self).threads_dense
                    &&& final(self).threads_spread == old(self).threads_spread
                    &&& final(self).core.witness_gen_only == old(self).core.witness_gen_only
                    &&& final(self).core.use_unknown == old(self).core.use_unknown
                    &&& final(self).core.phase_manager == old(self).core.phase_manager
                    &&& {
                        let pre = old(self).core.copy_manager.assigned_advices@;
                        let post = final(self).core.copy_manager.assigned_advices@;
                        if old(self).core.witness_gen_only {
                            post == pre
                        } else {
                            &&& post.len() == pre.len() + 2 * total_cells(
                                old(self).threads_dense@,
                            )
                            &&& post.subrange(0, pre.len() as int) == pre
                            &&& copies_ok(
                                post.skip(pre.len() as int),
                                old(self).threads_dense@,
                                old(self).threads_spread@,
                                num_advice_columns as int,
                            )
                        }
                    }
                },
                Err(LayoutError::LaneCountMismatch) => {
                    &&& *final(self) == *old(self)
                    &&& old(self).threads_dense@.len() != old(self).threads_spread@.len()
                },
                Err(LayoutError::LaneLengthMismatch { lane }) => {
                    &&& *final(self) == *old(self)
                    &&& old(self).threads_dense@.len() == old(self).threads_spread@.len()
                    &&& lane < old(self).threads_dense@.len()
                    &&& old(self).threads_dense@[lane as int].advice@.len() != old(
                        self,
                    ).threads_spread@[lane as int].advice@.len()
                    &&& forall|t: int|
                        0 <= t < lane ==> #[trigger] old(self).threads_dense@[t].advice@.len()
                            == old(self).threads_spread@[t].advice@.len()
                },
            },
    {
        let track_copies = !self.core.witness_gen_only;
        let packed = assign_threads_sha(
            &self.threads_dense,
            &self.threads_spread,
            num_advice_columns,
            self.core.use_unknown,
            track_copies,
        );
        match packed {
            Ok((placements, copies)) => {
                let ghost pre_self = *self;
                let ghost pre = self.core.copy_manager.assigned_advices@;
                proof {
                    assert(pre + copies@.subrange(0, 0) =~= pre);
                }
                let mut k: usize = 0;
                while k < copies.len()
                    invariant
                        k <= copies@.len(),
                        self.threads_dense == pre_self.threads_dense,
                        self.threads_spread == pre_self.threads_spread,
                        self.core.witness_gen_only == pre_self.core.witness_gen_only,
                        self.core.use_unknown == pre_self.core.use_unknown,
                        self.core.phase_manager == pre_self.core.phase_manager,
                        self.core.copy_manager.assigned_advices@ == pre + copies@.subrange(
                            0,
                            k as int,
                        ),
                    decreases copies@.len() - k,
                {
                    self.core.copy_manager.assigned_advices.push(copies[k]);
                    proof {
                        assert(pre + copies@.subrange(0, k as int) + seq![copies@[k as int]]
                            =~= pre + copies@.subrange(0, k + 1));
                    }
                    k = k + 1;
                }
                proof {
                    assert(copies@.subrange(0, copies@.len() as int) =~= copies@);
                    let post = self.core.copy_manager.assigned_advices@;
                    assert(post.subrange(0, pre.len() as int) =~= pre);
                    assert(post.skip(pre.len() as int) =~= copies@);
                }
                Ok(placements)
            },
            Err(e) => Err(e),
        }
    }
}

} // verus!
