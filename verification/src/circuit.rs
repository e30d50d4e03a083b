//! Layout sizing, the shape descriptor, and the circuit builder.
//!
//! The builder records abstract work — lane contents through its thread
//! builder, and per-phase lookup row counts reported by the lookup
//! collectors — and sizes a physical layout from it: the shape descriptor
//! says how many advice, fixed and lookup-advice columns a circuit of
//! `2^k` rows needs.  A synthesis pass then packs the recorded lanes into
//! that layout.

use vstd::prelude::*;
use vstd::arithmetic::power2::pow2;
use crate::gate::ContextCell;
use crate::gate::LayoutError;
use crate::gate::PairPlacement;
use crate::gate::PhaseManager;
use crate::gate::ShaThreadBuilder;
use crate::gate::Slot;
use crate::gate::copies_ok;
use crate::gate::current_lane_post;
use crate::gate::lanes_paired;
use crate::gate::placements_ok;
use crate::gate::total_cells;
use crate::spread::build_spread_table;
use crate::spread::spread_spec;

verus! {

/// The number of challenge phases the builder supports.
pub const MAX_PHASE: usize = 3;

/// The column multiplicity of the dense/spread column family: chosen once
/// as a constant, independent of the circuit size.
pub const SPREAD_NUM_ADVICE_COLUMNS: usize = 1;

/// The bit width of the dense/spread lookup table's dense entries.
pub const SPREAD_NUM_BITS_LOOKUP: usize = 8;

/// Ceiling division: the least number of columns of `b` rows that hold `a`
/// cells.
pub open spec fn ceil_div(a: int, b: int) -> int {
    (a + b - 1) / b
}

/// Which kind of construction pass a builder is created for; fixes the
/// pass-wide visibility and equality-tracking flags.
#[derive(Clone, Copy, Debug, PartialEq, Eq, Structural)]
pub enum CircuitBuilderStage {
    /// Key generation: placeholder values, equality tracking on.
    Keygen,
    /// Proving: concrete values, no equality tracking.
    Prover,
    /// Mock proving: concrete values, equality tracking on.
    Mock,
}

/// The shape descriptor: every count the physical layout is allocated
/// from.  Any field change invalidates previously generated keys.
#[derive(Clone, Debug, PartialEq)]
pub struct CircuitParams {
    /// Log2 of the circuit's total row count.
    pub k: usize,
    /// Generic advice columns allocated, one count per phase.
    pub num_advice_per_phase: Vec<usize>,
    /// Fixed (circuit-constant) columns allocated.
    pub num_fixed: usize,
    /// Lookup-argument advice columns allocated, one count per phase.
    pub num_lookup_advice_per_phase: Vec<usize>,
    /// Log2 size of the range-lookup table, if one is used.
    pub lookup_bits: Option<usize>,
    /// Public-output (instance) columns.
    pub num_instance_columns: usize,
}

/// Two shape descriptors are bit-identical: every field agrees.
pub open spec fn params_eq(a: CircuitParams, b: CircuitParams) -> bool {
    &&& a.k == b.k
    &&& a.num_advice_per_phase@ == b.num_advice_per_phase@
    &&& a.num_fixed == b.num_fixed
    &&& a.num_lookup_advice_per_phase@ == b.num_lookup_advice_per_phase@
    &&& a.lookup_bits == b.lookup_bits
    &&& a.num_instance_columns == b.num_instance_columns
}

/// What the external gate-sizing capability reports for the generic gate
/// lanes: the log-size it settled on and the generic column counts.  The
/// builder combines these into the shape descriptor; it does not recompute
/// them.
#[derive(Clone, Debug, PartialEq)]
pub struct GateParams {
    /// Log2 of the circuit's total row count.
    pub k: usize,
    /// Generic advice columns needed, one count per phase.
    pub num_advice_per_phase: Vec<usize>,
    /// Fixed columns needed.
    pub num_fixed: usize,
}

/// The reserved-row count of a sizing call: zero when none was given.
pub open spec fn min_rows_of(minimum_rows: Option<usize>) -> int {
    match minimum_rows {
        Some(m) => m as int,
        None => 0,
    }
}

/// The number of lookup-advice columns that fit `total_cells` lookup cells
/// into columns of `usable_rows` rows: zero cells need no column, an exact
/// multiple fills its columns exactly, and any remainder takes one more.
pub fn num_lookup_advice_columns(total_cells: usize, usable_rows: usize) -> (r: usize)
    requires
        usable_rows >= 1,
    ensures
        r == ceil_div(total_cells as int, usable_rows as int),
{
    if total_cells == 0 {
        proof {
            vstd::arithmetic::div_mod::lemma_basic_div_specific_divisor(usable_rows as int);
        }
        0
    } else {
        proof {
            vstd::arithmetic::div_mod::lemma_div_plus_one(
                total_cells - 1,
                usable_rows as int,
            );
            vstd::arithmetic::div_mod::lemma_div_nonincreasing(
                total_cells - 1,
                usable_rows as int,
            );
            vstd::arithmetic::div_mod::lemma_div_pos_is_pos(
                total_cells - 1,
                usable_rows as int,
            );
        }
        (total_cells - 1) / usable_rows + 1
    }
}

/// Copies a vector of counts.
fn copy_usizes(v: &Vec<usize>) -> (r: Vec<usize>)
    ensures
        r@ == v@,
{
    let mut r: Vec<usize> = Vec::new();
    let mut k: usize = 0;
    while k < v.len()
        invariant
            k <= v@.len(),
            r@ == v@.subrange(0, k as int),
        decreases v@.len() - k,
    {
        r.push(v[k]);
        proof {
            assert(r@ =~= v@.subrange(0, k + 1));
        }
        k = k + 1;
    }
    proof {
        assert(r@ =~= v@);
    }
    r
}

/// Copies a shape descriptor bit-identically.
fn copy_params(p: &CircuitParams) -> (r: CircuitParams)
    ensures
        params_eq(r, *p),
{
    CircuitParams {
        k: p.k,
        num_advice_per_phase: copy_usizes(&p.num_advice_per_phase),
        num_fixed: p.num_fixed,
        num_lookup_advice_per_phase: copy_usizes(&p.num_lookup_advice_per_phase),
        lookup_bits: p.lookup_bits,
        num_instance_columns: p.num_instance_columns,
    }
}

impl Default for CircuitParams {
    /// An empty shape: no rows chosen, no columns, no lookup table.
    fn default() -> (r: Self)
        ensures
            r.k == 0,
            r.num_advice_per_phase@.len() == 0,
            r.num_fixed == 0,
            r.num_lookup_advice_per_phase@.len() == 0,
            r.lookup_bits is None,
            r.num_instance_columns == 0,
    {
        CircuitParams {
            k: 0,
            num_advice_per_phase: Vec::new(),
            num_fixed: 0,
            num_lookup_advice_per_phase: Vec::new(),
            lookup_bits: None,
            num_instance_columns: 0,
        }
    }
}

/// The columns of the dense/spread column family, and its lookup table's
/// bit width.
#[derive(Clone, Copy, Debug, PartialEq, Eq, Structural)]
pub struct SpreadConfig {
    /// How many dense/spread column pairs are allocated; the packer's
    /// column width.
    pub num_advice_columns: usize,
    /// The bit width of the dense entries of the dense/spread table.
    pub num_bits_lookup: usize,
}

/// The one-shot column allocation: the dense/spread column family beside
/// the generic columns the shape descriptor asked for.
#[derive(Clone, Debug, PartialEq)]
pub struct SHAConfig {
    /// The dense/spread column family.
    pub compression: SpreadConfig,
    /// The shape the generic columns were allocated from.
    pub base: CircuitParams,
}

/// Configuring without a shape descriptor: a programmer error by design.
#[derive(Clone, Copy, Debug, PartialEq, Eq, Structural)]
pub enum ConfigError {
    /// The zero-argument configuration entry point was reached; there is
    /// no default shape.
    MissingShape,
}

impl SHAConfig {
    /// Allocates the column set for the given shape.  The dense/spread
    /// family always gets the same fixed, size-independent column
    /// multiplicity and table width.
    pub fn configure(params: CircuitParams) -> (r: Self)
        ensures
            r.compression.num_advice_columns == SPREAD_NUM_ADVICE_COLUMNS,
            r.compression.num_bits_lookup == SPREAD_NUM_BITS_LOOKUP,
            r.base == params,
    {
        SHAConfig {
            compression: SpreadConfig {
                num_advice_columns: SPREAD_NUM_ADVICE_COLUMNS,
                num_bits_lookup: SPREAD_NUM_BITS_LOOKUP,
            },
            base: params,
        }
    }
}

/// Everything one synthesis pass must apply to the physical backend, in
/// order: the tables to load, the slot of every dense/spread cell pair,
/// and the equality constraints to replay.
#[derive(Clone, Debug, PartialEq)]
pub struct SynthesisPlan {
    /// Whether a range-lookup table is configured and must be loaded
    /// first; its load failing is fatal.
    pub load_range_table: bool,
    /// The rows of the dense/spread lookup table to load; its load failing
    /// is fatal.
    pub spread_table: Vec<(u16, u32)>,
    /// The physical slot and value of every dense/spread cell pair.
    pub placements: Vec<PairPlacement>,
    /// Every recorded virtual-to-physical mapping, to be replayed as
    /// equality constraints; empty in a witness-generation-only pass.
    pub replay_copies: Vec<(ContextCell, Slot)>,
}

/// The circuit builder of one construction pass: the lane manager, the
/// per-phase lookup row counts the lookup collectors reported, the shape
/// descriptor, and the public outputs.
#[derive(Clone, Debug, PartialEq)]
pub struct ShaCircuitBuilder {
    /// The lane manager.
    pub core: ShaThreadBuilder,
    /// Total lookup-argument rows requested so far, one count per phase:
    /// the boundary to the lookup-resource collectors.
    pub lookup_rows: Vec<usize>,
    /// The current shape descriptor.
    pub config_params: CircuitParams,
    /// The publicly exposed computed values, one inner vector per instance
    /// column.
    pub assigned_instances: Vec<Vec<u64>>,
}

/// A builder fresh from construction: no lanes, no lookup rows, the empty
/// shape, no instances; only the pass-wide flags are chosen.
pub open spec fn fresh_builder(b: ShaCircuitBuilder, witness_gen_only: bool, use_unknown: bool) -> bool {
    &&& b.core.threads_dense@.len() == 0
    &&& b.core.threads_spread@.len() == 0
    &&& b.core.core.witness_gen_only == witness_gen_only
    &&& b.core.core.use_unknown == use_unknown
    &&& b.core.core.phase_manager@.len() == 0
    &&& b.core.core.copy_manager.assigned_advices@.len() == 0
    &&& b.lookup_rows@.len() == MAX_PHASE
    &&& forall|p: int| 0 <= p < b.lookup_rows@.len() ==> b.lookup_rows@[p] == 0
    &&& b.config_params.k == 0
    &&& b.config_params.num_advice_per_phase@.len() == 0
    &&& b.config_params.num_fixed == 0
    &&& b.config_params.num_lookup_advice_per_phase@.len() == 0
    &&& b.config_params.lookup_bits is None
    &&& b.config_params.num_instance_columns == 0
    &&& b.assigned_instances@.len() == 0
}

impl ShaCircuitBuilder {
    /// A fresh builder; the witness-generation-only flag is fixed here for
    /// the whole pass.
    pub fn new(witness_gen_only: bool) -> (r: Self)
        ensures
            fresh_builder(r, witness_gen_only, false),
    {
        let mut lookup_rows: Vec<usize> = Vec::new();
        let mut p: usize = 0;
        while p < MAX_PHASE
            invariant
                p <= MAX_PHASE,
                lookup_rows@.len() == p,
                forall|q: int| 0 <= q < p ==> lookup_rows@[q] == 0,
            decreases MAX_PHASE - p,
        {
            lookup_rows.push(0);
            p = p + 1;
        }
        ShaCircuitBuilder {
            core: ShaThreadBuilder::new(witness_gen_only),
            lookup_rows,
            config_params: Default::default(),
            assigned_instances: Vec::new(),
        }
    }

    /// A fresh builder with both pass-wide flags chosen from the stage.
    pub fn from_stage(stage: CircuitBuilderStage) -> (r: Self)
        ensures
            fresh_builder(
                r,
                stage == CircuitBuilderStage::Prover,
                stage == CircuitBuilderStage::Keygen,
            ),
    {
        Self::new(stage == CircuitBuilderStage::Prover).unknown(stage == CircuitBuilderStage::Keygen)
    }

    /// Returns `self` with the placeholder visibility mode set.
    pub fn unknown(self, use_unknown: bool) -> (r: Self)
        ensures
            r.core.threads_dense == self.core.threads_dense,
            r.core.threads_spread == self.core.threads_spread,
            r.core.core.witness_gen_only == self.core.core.witness_gen_only,
            r.core.core.use_unknown == use_unknown,
            r.core.core.phase_manager == self.core.core.phase_manager,
            r.core.core.copy_manager == self.core.core.copy_manager,
            r.lookup_rows == self.lookup_rows,
            r.config_params == self.config_params,
            r.assigned_instances == self.assigned_instances,
    {
        ShaCircuitBuilder { core: self.core.unknown(use_unknown), ..self }
    }

    /// A builder for a key-generation pass: placeholder values, equality
    /// tracking on.
    pub fn keygen() -> (r: Self)
        ensures
            fresh_builder(r, false, true),
    {
        Self::from_stage(CircuitBuilderStage::Keygen)
    }

    /// A builder for a mock pass: concrete values, equality tracking on.
    pub fn mock() -> (r: Self)
        ensures
            fresh_builder(r, false, false),
    {
        Self::from_stage(CircuitBuilderStage::Mock)
    }

    /// A builder for a proving pass: concrete values, no equality
    /// tracking.
    pub fn prover() -> (r: Self)
        ensures
            fresh_builder(r, true, false),
    {
        Self::from_stage(CircuitBuilderStage::Prover)
    }

    /// The log2 size of the range-lookup table, if one is used.
    pub fn lookup_bits(&self) -> (r: Option<usize>)
        ensures
            r == self.config_params.lookup_bits,
    {
        self.config_params.lookup_bits
    }

    /// Sets the log2 size of the range-lookup table.
    pub fn set_lookup_bits(&mut self, lookup_bits: usize)
        ensures
            final(self).config_params == (CircuitParams {
                lookup_bits: Some(lookup_bits),
                ..old(self).config_params
            }),
            final(self).core == old(self).core,
            final(self).lookup_rows == old(self).lookup_rows,
            final(self).assigned_instances == old(self).assigned_instances,
    {
        self.config_params.lookup_bits = Some(lookup_bits);
    }

    /// Returns `self` with the range-lookup table size set.
    pub fn use_lookup_bits(self, lookup_bits: usize) -> (r: Self)
        ensures
            r.config_params == (CircuitParams {
                lookup_bits: Some(lookup_bits),
                ..self.config_params
            }),
            r.core == self.core,
            r.lookup_rows == self.lookup_rows,
            r.assigned_instances == self.assigned_instances,
    {
        let mut b = self;
        b.set_lookup_bits(lookup_bits);
        b
    }

    /// Sets `k`, the log2 of the circuit's row count.
    pub fn set_k(&mut self, k: usize)
        ensures
            final(self).config_params == (CircuitParams { k, ..old(self).config_params }),
            final(self).core == old(self).core,
            final(self).lookup_rows == old(self).lookup_rows,
            final(self).assigned_instances == old(self).assigned_instances,
    {
        self.config_params.k = k;
    }

    /// Returns `self` with `k` set.
    pub fn use_k(self, k: usize) -> (r: Self)
        ensures
            r.config_params == (CircuitParams { k, ..self.config_params }),
            r.core == self.core,
            r.lookup_rows == self.lookup_rows,
            r.assigned_instances == self.assigned_instances,
    {
        let mut b = self;
        b.set_k(k);
        b
    }

    /// Installs a whole shape descriptor.
    pub fn set_params(&mut self, params: CircuitParams)
        ensures
            final(self).config_params == params,
            final(self).core == old(self).core,
            final(self).lookup_rows == old(self).lookup_rows,
            final(self).assigned_instances == old(self).assigned_instances,
    {
        self.config_params = params;
    }

    /// Returns `self` with the whole shape descriptor installed.
    pub fn use_params(self, params: CircuitParams) -> (r: Self)
        ensures
            r.config_params == params,
            r.core == self.core,
            r.lookup_rows == self.lookup_rows,
            r.assigned_instances == self.assigned_instances,
    {
        let mut b = self;
        b.set_params(params);
        b
    }

    /// A mutable handle on the lane manager.
    pub fn core_mut(&mut self) -> (r: &mut ShaThreadBuilder)
        ensures
            *r == old(self).core,
            final(self).core == *final(r),
            final(self).lookup_rows == old(self).lookup_rows,
            final(self).config_params == old(self).config_params,
            final(self).assigned_instances == old(self).assigned_instances,
    {
        &mut self.core
    }

    /// The id of the current generic lane of the first phase, created on
    /// demand.
    pub fn main(&mut self) -> (id: usize)
        ensures
            final(self).core.threads_dense == old(self).core.threads_dense,
            final(self).core.threads_spread == old(self).core.threads_spread,
            current_lane_post(
                old(self).core.core,
                final(self).core.core,
                crate::gate::FIRST_PHASE as int,
                id as int,
            ),
            final(self).lookup_rows == old(self).lookup_rows,
            final(self).config_params == old(self).config_params,
            final(self).assigned_instances == old(self).assigned_instances,
    {
        self.core.main()
    }

    /// A mutable handle on the generic lane set of the given phase.
    pub fn pool(&mut self, phase: usize) -> (r: &mut PhaseManager)
        requires
            phase < old(self).core.core.phase_manager@.len(),
        ensures
            *r == old(self).core.core.phase_manager@[phase as int],
            final(self).core.core.phase_manager@ == old(self).core.core.phase_manager@.update(
                phase as int,
                *final(r),
            ),
            final(self).core.threads_dense == old(self).core.threads_dense,
            final(self).core.threads_spread == old(self).core.threads_spread,
            final(self).core.core.witness_gen_only == old(self).core.core.witness_gen_only,
            final(self).core.core.use_unknown == old(self).core.core.use_unknown,
            final(self).core.core.copy_manager == old(self).core.core.copy_manager,
            final(self).lookup_rows == old(self).lookup_rows,
            final(self).config_params == old(self).config_params,
            final(self).assigned_instances == old(self).assigned_instances,
    {
        &mut self.core.core.phase_manager[phase]
    }

    /// Records `rows` more lookup-argument rows requested for a phase: the
    /// boundary through which the lookup-resource collectors report their
    /// demand.
    pub fn add_lookup_rows(&mut self, phase: usize, rows: usize)
        requires
            phase < old(self).lookup_rows@.len(),
            old(self).lookup_rows@[phase as int] + rows <= usize::MAX,
        ensures
            final(self).lookup_rows@ == old(self).lookup_rows@.update(
                phase as int,
                (old(self).lookup_rows@[phase as int] + rows) as usize,
            ),
            final(self).core == old(self).core,
            final(self).config_params == old(self).config_params,
            final(self).assigned_instances == old(self).assigned_instances,
    {
        let updated = self.lookup_rows[phase] + rows;
        self.lookup_rows.set(phase, updated);
    }

    /// The total lookup-argument rows requested, one count per phase.
    fn total_lookup_advice_per_phase(&self) -> (r: Vec<usize>)
        ensures
            r@ == self.lookup_rows@,
    {
        copy_usizes(&self.lookup_rows)
    }

    /// A copy of the current shape descriptor.
    pub fn params(&self) -> (r: CircuitParams)
        ensures
            params_eq(r, self.config_params),
    {
        copy_params(&self.config_params)
    }

    /// The zero-argument configuration entry point: present only to
    /// satisfy the external circuit interface, and failing unconditionally
    /// — there is no default shape.
    pub fn configure() -> (r: Result<SHAConfig, ConfigError>)
        ensures
            r == Result::<SHAConfig, ConfigError>::Err(ConfigError::MissingShape),
    {
        Err(ConfigError::MissingShape)
    }

    /// Allocates the column set for the given shape descriptor.
    pub fn configure_with_params(params: CircuitParams) -> (r: SHAConfig)
        ensures
            r.compression.num_advice_columns == SPREAD_NUM_ADVICE_COLUMNS,
            r.compression.num_bits_lookup == SPREAD_NUM_BITS_LOOKUP,
            r.base == params,
    {
        SHAConfig::configure(params)
    }
}

/// The result-side facts of one sizing call: what `calculate_params`
/// returns for a builder whose shape was `cfg`, whose per-phase lookup row
/// counts were `lookup_rows`, for a gate-sizing report `gate` and the
/// given reserved-row count.
pub open spec fn sized_params_ok(
    r: CircuitParams,
    cfg: CircuitParams,
    lookup_rows: Seq<usize>,
    gate: GateParams,
    minimum_rows: Option<usize>,
) -> bool {
    let usable_rows = pow2(cfg.k as nat) - min_rows_of(minimum_rows);
    &&& r.k == gate.k
    &&& r.num_advice_per_phase@ == gate.num_advice_per_phase@
    &&& r.num_fixed == gate.num_fixed
    &&& r.num_lookup_advice_per_phase@.len() == lookup_rows.len()
    &&& forall|p: int|
        0 <= p < lookup_rows.len() ==> #[trigger] r.num_lookup_advice_per_phase@[p] == ceil_div(
            lookup_rows[p] as int,
            usable_rows,
        )
    &&& r.lookup_bits == cfg.lookup_bits
    &&& r.num_instance_columns == cfg.num_instance_columns
}

impl ShaCircuitBuilder {
    /// Sizes the layout.  The generic column counts come from the external
    /// gate-sizing capability; the lookup-advice column counts are the
    /// fewest whose columns of `2^k - minimum_rows` usable rows hold the
    /// recorded lookup rows of each phase.
    /// The result is also installed as the builder's shape.  The recorded
    /// statistics — lanes and lookup row counts — are left untouched, so a
    /// repeated call returns a bit-identical descriptor.
    pub fn calculate_params(
        &mut self,
        minimum_rows: Option<usize>,
        gate_params: GateParams,
    ) -> (r: CircuitParams)
        requires
            old(self).config_params.k < usize::BITS,
            min_rows_of(minimum_rows) < pow2(old(self).config_params.k as nat),
        ensures
            sized_params_ok(
                r,
                old(self).config_params,
                old(self).lookup_rows@,
                gate_params,
                minimum_rows,
            ),
            params_eq(final(self).config_params, r),
            final(self).core == old(self).core,
            final(self).lookup_rows == old(self).lookup_rows,
            final(self).assigned_instances == old(self).assigned_instances,
    {
        let k = self.config_params.k;
        let min_rows = match minimum_rows {
            Some(m) => m,
            None => 0,
        };
        proof {
            vstd::bits::lemma_usize_pow2_no_overflow(k as nat);
            vstd::bits::lemma_usize_shl_is_mul(1usize, k as usize);
        }
        let max_rows = (1usize << k) - min_rows;
        let mut num_lookup_advice_per_phase: Vec<usize> = Vec::new();
        let mut p: usize = 0;
        while p < self.lookup_rows.len()
            invariant
                max_rows >= 1,
                max_rows == pow2(old(self).config_params.k as nat) - min_rows_of(minimum_rows),
                p <= self.lookup_rows@.len(),
                *self == *old(self),
                num_lookup_advice_per_phase@.len() == p,
                forall|q: int|
                    0 <= q < p ==> #[trigger] num_lookup_advice_per_phase@[q] == ceil_div(
                        self.lookup_rows@[q] as int,
                        max_rows as int,
                    ),
            decreases self.lookup_rows@.len() - p,
        {
            let columns = num_lookup_advice_columns(self.lookup_rows[p], max_rows);
            num_lookup_advice_per_phase.push(columns);
            p = p + 1;
        }
        let params = CircuitParams {
            k: gate_params.k,
            num_advice_per_phase: gate_params.num_advice_per_phase,
            num_fixed: gate_params.num_fixed,
            num_lookup_advice_per_phase,
            lookup_bits: self.config_params.lookup_bits,
            num_instance_columns: self.config_params.num_instance_columns,
        };
        self.config_params = copy_params(&params);
        params
    }

    /// One synthesis pass over everything recorded: says which lookup
    /// tables to load (both loads are fatal on failure), packs every
    /// dense/spread lane pair into its physical slot — recording the
    /// virtual-to-physical mappings unless the pass is
    /// witness-generation-only — and lists every recorded mapping for
    /// replay as equality constraints.  The caller must apply the plan
    /// exactly once per synthesis: packing assigns each slot at most once.
    pub fn sub_synthesize(&mut self, config: &SHAConfig) -> (r: Result<SynthesisPlan, LayoutError>)
        requires
            config.compression.num_advice_columns >= 1,
            config.compression.num_bits_lookup <= 16,
            total_cells(old(self).core.threads_dense@) <= usize::MAX,
        ensures
            match r {
                Ok(plan) => {
                    &&& plan.load_range_table == (old(self).config_params.lookup_bits is Some)
                    &&& plan.spread_table@.len() == pow2(config.compression.num_bits_lookup as nat)
                    &&& forall|d: int|
                        0 <= d < plan.spread_table@.len() ==> #[trigger] plan.spread_table@[d] == (
                        d as u16,
                        spread_spec(d as nat) as u32,
                        )
                    &&& lanes_paired(old(self).core.threads_dense@, old(self).core.threads_spread@)
                    &&& placements_ok(
                        plan.placements@,
                        old(self).core.threads_dense@,
                        old(self).core.threads_spread@,
                        config.compression.num_advice_columns as int,
                        old(self).core.core.use_unknown,
                    )
                    &&& if old(self).core.core.witness_gen_only {
                        &&& final(self).core.core.copy_manager.assigned_advices@ == old(
                            self,
                        ).core.core.copy_manager.assigned_advices@
                        &&& plan.replay_copies@.len() == 0
                    } else {
                        let pre = old(self).core.core.copy_manager.assigned_advices@;
                        let post = final(self).core.core.copy_manager.assigned_advices@;
                        &&& post.len() == pre.len() + 2 * total_cells(old(self).core.threads_dense@)
                        &&& post.subrange(0, pre.len() as int) == pre
                        &&& copies_ok(
                            post.skip(pre.len() as int),
                            old(self).core.threads_dense@,
                            old(self).core.threads_spread@,
                            config.compression.num_advice_columns as int,
                        )
                        &&& plan.replay_copies@ == post
                    }
                    &&& final(self).core.threads_dense == old(self).core.threads_dense
                    &&& final(self).core.threads_spread == old(self).core.threads_spread
                    &&& final(self).core.core.witness_gen_only == old(
                        self,
                    ).core.core.witness_gen_only
                    &&& final(self).core.core.use_unknown == old(self).core.core.use_unknown
                    &&& final(self).core.core.phase_manager == old(self).core.core.phase_manager
                    &&& final(self).lookup_rows == old(self).lookup_rows
                    &&& final(self).config_params == old(self).config_params
                    &&& final(self).assigned_instances == old(self).assigned_instances
                },
                Err(LayoutError::LaneCountMismatch) => {
                    &&& *final(self) == *old(self)
                    &&& old(self).core.threads_dense@.len() != old(self).core.threads_spread@.len()
                },
                Err(LayoutError::LaneLengthMismatch { lane }) => {
                    &&& *final(self) == *old(self)
                    &&& old(self).core.threads_dense@.len() == old(self).core.threads_spread@.len()
                    &&& lane < old(self).core.threads_dense@.len()
                    &&& old(self).core.threads_dense@[lane as int].advice@.len() != old(
                        self,
                    ).core.threads_spread@[lane as int].advice@.len()
                    &&& forall|t: int|
                        0 <= t < lane ==> #[trigger] old(self).core.threads_dense@[t].advice@.len()
                            == old(self).core.threads_spread@[t].advice@.len()
                },
            },
    {
        let load_range_table = self.config_params.lookup_bits.is_some();
        let spread_table = build_spread_table(config.compression.num_bits_lookup);
        let packed = self.core.assign_raw(config.compression.num_advice_columns);
        match packed {
            Ok(placements) => {
                let replay_copies: Vec<(ContextCell, Slot)> = if !self.core.witness_gen_only() {
                    self.core.copy_manager().assigned_advices
                } else {
                    Vec::new()
                };
                Ok(
                    SynthesisPlan {
                        load_range_table,
                        spread_table,
                        placements,
                        replay_copies,
                    },
                )
            },
            Err(e) => Err(e),
        }
    }
}

/// Sizing idempotence: two sizing calls that see the same shape inputs,
/// the same recorded lookup row counts, the same gate-sizing report and
/// the same reserved-row budget return bit-identical shape descriptors.
/// Since sizing leaves the recorded statistics untouched, a repeated call
/// on one builder sees exactly the same inputs.
pub proof fn lemma_sizing_idempotent(
    r1: CircuitParams,
    r2: CircuitParams,
    cfg1: CircuitParams,
    cfg2: CircuitParams,
    lookup_rows: Seq<usize>,
    gate: GateParams,
    minimum_rows: Option<usize>,
)
    requires
        sized_params_ok(r1, cfg1, lookup_rows, gate, minimum_rows),
        sized_params_ok(r2, cfg2, lookup_rows, gate, minimum_rows),
        cfg1.k == cfg2.k,
        cfg1.lookup_bits == cfg2.lookup_bits,
        cfg1.num_instance_columns == cfg2.num_instance_columns,
    ensures
        params_eq(r1, r2),
{
    assert(r1.num_lookup_advice_per_phase@ =~= r2.num_lookup_advice_per_phase@);
}

} // verus!
