//! One-dimensional Finite-Difference Time-Domain (FDTD) kernel.
//!
//! The kernel owns every exact part of the update scheme: grid allocation,
//! the strict ordering of the leapfrog sweep, the zero-field boundary
//! convention at both grid edges, source injection, and observation
//! emission.  IEEE-754 binary64 arithmetic itself is outside what the
//! verifier reasons about, so field samples are carried as `u64` bit
//! patterns and each arithmetic operation is delegated to the caller: a
//! [`Session`] hands out one [`Op`] at a time and is fed the resulting bit
//! pattern back.  A driver loop around `Session` that evaluates each `Op`
//! in double precision performs exactly the computation
//!
//! ```text
//! for t in 0..time_steps {
//!     for i in 0..nodes {
//!         Hy[i] += (Ez[i+1] - Ez[i]) / eta0;   // Ez[nodes] reads as zero
//!         Ez[i] += (Hy[i] - Hy[i-1]) * eta0;   // Hy[-1]    reads as zero
//!     }
//!     Ez[0] = exp(-((t - 30)^2) / 100.0);
//!     emit Ez[50];
//! }
//! ```
//!
//! where both neighbour reads use the value already updated in the same
//! sweep, and the exponent of the source pulse is formed in floating point
//! (dividing the squared distance as an integer first would collapse most
//! steps onto the same exponent).
use vstd::prelude::*;

use crate::errors::ConfigError;
use crate::errors::ParamName;
use crate::parse::is_nonneg_int_token;
use crate::parse::parse_nonneg;
use crate::parse::token_val;

verus! {

/// Bit pattern of the free-space wave impedance `eta0 = 377.0`.
pub const ETA0_BITS: u64 = 0x4077_9000_0000_0000;

/// Bit pattern of the Gaussian source width parameter `100.0`.
pub const SOURCE_WIDTH_BITS: u64 = 0x4059_0000_0000_0000;

/// Time step at which the Gaussian source pulse peaks.
pub const SOURCE_PEAK_STEP: usize = 30;

/// Grid index whose electric field sample is emitted once per time step.
pub const OBSERVATION_INDEX: usize = 50;

/// Bit pattern of the zero field: what a neighbour read outside the grid
/// yields under the perfect-conductor truncation chosen at both edges.
pub const ZERO_BITS: u64 = 0;

/// Static configuration of one 1D grid simulation; immutable once built.
#[derive(Debug, Clone, Copy, PartialEq, Eq, Structural)]
pub struct FDTD1D {
    /// Number of leapfrog steps to run.
    pub time_steps: usize,
    /// Number of spatial samples in each field array.
    pub nodes: usize,
}

/// What constructing a kernel from the tokens `args[first..]` yields:
/// `time_steps` then `nodes`, each a non-negative integer that fits the
/// machine word; the first absent token names the missing parameter, a
/// malformed or oversized token is an invalid numeric parameter, and
/// trailing tokens are ignored.
pub open spec fn kernel_new_spec(args: Seq<String>, first: int) -> Result<FDTD1D, ConfigError> {
    if args.len() <= first {
        Err(ConfigError::MissingParameter(ParamName::TimeSteps))
    } else if !(is_nonneg_int_token(args[first]@) && token_val(args[first]@) <= usize::MAX) {
        Err(ConfigError::InvalidNumericParameter)
    } else if args.len() <= first + 1 {
        Err(ConfigError::MissingParameter(ParamName::Nodes))
    } else if !(is_nonneg_int_token(args[first + 1]@) && token_val(args[first + 1]@)
        <= usize::MAX) {
        Err(ConfigError::InvalidNumericParameter)
    } else {
        Ok(
            FDTD1D {
                time_steps: token_val(args[first]@) as usize,
                nodes: token_val(args[first + 1]@) as usize,
            },
        )
    }
}

impl FDTD1D {
    /// Builds a kernel configuration from the tokens `args[first..]`.
    pub fn new(args: &Vec<String>, first: usize) -> (r: Result<FDTD1D, ConfigError>)
        ensures
            r == kernel_new_spec(args@, first as int),
    {
        if args.len() <= first {
            return Err(ConfigError::MissingParameter(ParamName::TimeSteps));
        }
        let time_steps = match parse_nonneg(args[first].as_str()) {
            Ok(v) => v,
            Err(e) => { return Err(e) },
        };
        if args.len() <= first + 1 {
            return Err(ConfigError::MissingParameter(ParamName::Nodes));
        }
        let nodes = match parse_nonneg(args[first + 1].as_str()) {
            Ok(v) => v,
            Err(e) => { return Err(e) },
        };
        Ok(FDTD1D { time_steps, nodes })
    }
}

/// Squared distance from the source peak, saturated at `u64::MAX`.
///
/// Saturation never changes the emitted pulse: the value only feeds
/// `exp(-value / 100)`, and both the exact and the saturated squared
/// distance lie far beyond the magnitude where that exponential underflows
/// to zero.
pub open spec fn src_numerator(t: nat) -> u64 {
    let d = if t >= SOURCE_PEAK_STEP as nat {
        (t - SOURCE_PEAK_STEP as nat) as nat
    } else {
        (SOURCE_PEAK_STEP as nat - t) as nat
    };
    if d * d <= u64::MAX {
        (d * d) as u64
    } else {
        u64::MAX
    }
}

/// One arithmetic request on IEEE-754 binary64 bit patterns.  The driver
/// evaluates the operation in double precision and feeds the result's bit
/// pattern back to the session.
#[derive(Debug, Clone, Copy, PartialEq, Eq, Structural)]
pub enum Op {
    /// Sum of the two operands.
    Add(u64, u64),
    /// First operand minus the second.
    Sub(u64, u64),
    /// Product of the two operands.
    Mul(u64, u64),
    /// First operand divided by the second.
    Div(u64, u64),
    /// Negation of the operand.
    Neg(u64),
    /// Natural exponential of the operand.
    Exp(u64),
    /// The operand, an unsigned integer (not a bit pattern), converted to
    /// the nearest binary64 value.
    FromUint(u64),
}

/// Which request of the current time step a session is waiting on.
#[derive(Debug, Clone, Copy, PartialEq, Eq, Structural)]
pub enum Phase {
    /// Spatial difference `Ez[i+1] - Ez[i]` for the magnetic update.
    HySub,
    /// Scaling of that difference by `1 / eta0`.
    HyDiv,
    /// Accumulation into `Hy[i]`.
    HyAdd,
    /// Spatial difference `Hy[i] - Hy[i-1]` for the electric update.
    EzSub,
    /// Scaling of that difference by `eta0`.
    EzMul,
    /// Accumulation into `Ez[i]`.
    EzAdd,
    /// Conversion of the squared peak distance to binary64.
    SrcCast,
    /// Division of the squared distance by the source width.
    SrcDiv,
    /// Negation of the exponent.
    SrcNeg,
    /// The exponential that completes the Gaussian pulse.
    SrcExp,
    /// All time steps have completed.
    Done,
}

/// Mathematical state of a session: the field arrays, the observations
/// emitted so far, and the position inside the sweep.
#[verifier::ext_equal]
pub struct SessionModel {
    /// Number of leapfrog steps the session runs.
    pub time_steps: nat,
    /// Number of spatial samples in each field array.
    pub nodes: nat,
    /// Completed time steps.
    pub t: nat,
    /// Spatial index the sweep is working on.
    pub i: nat,
    /// Pending request.
    pub phase: Phase,
    /// Result of the previous request of the current chain.
    pub scratch: u64,
    /// Electric field samples, as bit patterns.
    pub ez: Seq<u64>,
    /// Magnetic field samples, as bit patterns.
    pub hy: Seq<u64>,
    /// Observations emitted so far, as bit patterns.
    pub obs: Seq<u64>,
}

/// Well-formedness: arrays span the grid, the grid reaches past the
/// observation index, one observation stands per completed step, and an
/// unfinished session points at a valid step and node.
pub open spec fn wf(m: SessionModel) -> bool {
    &&& m.ez.len() == m.nodes
    &&& m.hy.len() == m.nodes
    &&& m.nodes > OBSERVATION_INDEX as nat
    &&& m.obs.len() == m.t
    &&& (m.phase is Done ==> m.t == m.time_steps)
    &&& (!(m.phase is Done) ==> m.t < m.time_steps && m.i < m.nodes)
}

/// The state a session starts from: both field arrays all zero, no
/// observations, and — when there is at least one step to run — the first
/// magnetic-difference request of step zero pending.
pub open spec fn start_model(time_steps: nat, nodes: nat) -> SessionModel {
    SessionModel {
        time_steps,
        nodes,
        t: 0,
        i: 0,
        phase: if time_steps == 0 {
            Phase::Done
        } else {
            Phase::HySub
        },
        scratch: ZERO_BITS,
        ez: Seq::new(nodes, |j: int| ZERO_BITS),
        hy: Seq::new(nodes, |j: int| ZERO_BITS),
        obs: Seq::empty(),
    }
}

/// The electric sample to the right of `m.i`: zero field beyond the last
/// node (the chosen boundary convention).
pub open spec fn right_ez(m: SessionModel) -> u64 {
    if m.i + 1 < m.nodes {
        m.ez[m.i as int + 1]
    } else {
        ZERO_BITS
    }
}

/// The magnetic sample to the left of `m.i`: zero field before the first
/// node (the chosen boundary convention).
pub open spec fn left_hy(m: SessionModel) -> u64 {
    if m.i == 0 {
        ZERO_BITS
    } else {
        m.hy[m.i as int - 1]
    }
}

/// The request a session in state `m` is waiting on, `None` once done.
/// Neighbour reads use the value already updated in the current sweep.
pub open spec fn spec_pending(m: SessionModel) -> Option<Op> {
    match m.phase {
        Phase::HySub => Some(Op::Sub(right_ez(m), m.ez[m.i as int])),
        Phase::HyDiv => Some(Op::Div(m.scratch, ETA0_BITS)),
        Phase::HyAdd => Some(Op::Add(m.hy[m.i as int], m.scratch)),
        Phase::EzSub => Some(Op::Sub(m.hy[m.i as int], left_hy(m))),
        Phase::EzMul => Some(Op::Mul(m.scratch, ETA0_BITS)),
        Phase::EzAdd => Some(Op::Add(m.ez[m.i as int], m.scratch)),
        Phase::SrcCast => Some(Op::FromUint(src_numerator(m.t))),
        Phase::SrcDiv => Some(Op::Div(m.scratch, SOURCE_WIDTH_BITS)),
        Phase::SrcNeg => Some(Op::Neg(m.scratch)),
        Phase::SrcExp => Some(Op::Exp(m.scratch)),
        Phase::Done => None,
    }
}

/// How feeding the result `r` of the pending request advances state `m`.
/// A finished session absorbs further results unchanged.
pub open spec fn spec_feed(m: SessionModel, r: u64) -> SessionModel {
    match m.phase {
        Phase::HySub => SessionModel { scratch: r, phase: Phase::HyDiv, ..m },
        Phase::HyDiv => SessionModel { scratch: r, phase: Phase::HyAdd, ..m },
        Phase::HyAdd => SessionModel { hy: m.hy.update(m.i as int, r), phase: Phase::EzSub, ..m },
        Phase::EzSub => SessionModel { scratch: r, phase: Phase::EzMul, ..m },
        Phase::EzMul => SessionModel { scratch: r, phase: Phase::EzAdd, ..m },
        Phase::EzAdd => {
            if m.i + 1 < m.nodes {
                SessionModel { ez: m.ez.update(m.i as int, r), i: m.i + 1, phase: Phase::HySub, ..m }
            } else {
                SessionModel { ez: m.ez.update(m.i as int, r), phase: Phase::SrcCast, ..m }
            }
        },
        Phase::SrcCast => SessionModel { scratch: r, phase: Phase::SrcDiv, ..m },
        Phase::SrcDiv => SessionModel { scratch: r, phase: Phase::SrcNeg, ..m },
        Phase::SrcNeg => SessionModel { scratch: r, phase: Phase::SrcExp, ..m },
        Phase::SrcExp => {
            let ez2 = m.ez.update(0, r);
            let obs2 = m.obs.push(ez2[OBSERVATION_INDEX as int]);
            if m.t + 1 < m.time_steps {
                SessionModel { ez: ez2, obs: obs2, t: m.t + 1, i: 0, phase: Phase::HySub, ..m }
            } else {
                SessionModel { ez: ez2, obs: obs2, t: m.t + 1, phase: Phase::Done, ..m }
            }
        },
        Phase::Done => m,
    }
}

/// Feeding the result of the pending request keeps a session well-formed.
pub proof fn lemma_feed_preserves_wf(m: SessionModel, r: u64)
    requires
        wf(m),
    ensures
        wf(spec_feed(m, r)),
{
}

/// The state a session reaches after being fed the results `rs`, one at a
/// time, from state `m`.  A session that finishes early absorbs the rest
/// unchanged.
pub open spec fn replay(m: SessionModel, rs: Seq<u64>) -> SessionModel
    decreases rs.len(),
{
    if rs.len() == 0 {
        m
    } else {
        replay(spec_feed(m, rs[0]), rs.skip(1))
    }
}

/// Replaying results keeps a session well-formed; in particular, however a
/// session is driven, once it is done it has emitted exactly one
/// observation per configured time step.
pub proof fn lemma_replay_wf(m: SessionModel, rs: Seq<u64>)
    requires
        wf(m),
    ensures
        wf(replay(m, rs)),
        replay(m, rs).phase is Done ==> replay(m, rs).obs.len() == replay(m, rs).time_steps,
    decreases rs.len(),
{
    if rs.len() > 0 {
        lemma_feed_preserves_wf(m, rs[0]);
        lemma_replay_wf(spec_feed(m, rs[0]), rs.skip(1));
    }
}

/// Arithmetic requests one full time step answers: six per node for the
/// sweep, four for the source chain.
pub open spec fn step_ops(nodes: nat) -> nat {
    6 * nodes + 4
}

/// How many answers state `m` still needs before the session is done.
pub open spec fn ops_remaining(m: SessionModel) -> int {
    let tail = (m.time_steps - m.t - 1) * step_ops(m.nodes);
    match m.phase {
        Phase::HySub => tail + 6 * (m.nodes - m.i) + 4,
        Phase::HyDiv => tail + 6 * (m.nodes - m.i) + 3,
        Phase::HyAdd => tail + 6 * (m.nodes - m.i) + 2,
        Phase::EzSub => tail + 6 * (m.nodes - m.i) + 1,
        Phase::EzMul => tail + 6 * (m.nodes - m.i),
        Phase::EzAdd => tail + 6 * (m.nodes - m.i) - 1,
        Phase::SrcCast => tail + 4,
        Phase::SrcDiv => tail + 3,
        Phase::SrcNeg => tail + 2,
        Phase::SrcExp => tail + 1,
        Phase::Done => 0,
    }
}

/// An unfinished session needs at least one more answer.
pub proof fn lemma_ops_remaining_pos(m: SessionModel)
    requires
        wf(m),
        !(m.phase is Done),
    ensures
        ops_remaining(m) >= 1,
{
    let s = step_ops(m.nodes) as int;
    let k = m.time_steps - m.t - 1;
    assert(k * s >= 0) by (nonlinear_arith)
        requires
            k >= 0 && s >= 0,
    ;
}

/// Every answer brings the session exactly one request closer to done.
pub proof fn lemma_feed_decreases_ops(m: SessionModel, r: u64)
    requires
        wf(m),
        !(m.phase is Done),
    ensures
        ops_remaining(spec_feed(m, r)) == ops_remaining(m) - 1,
{
    let s = step_ops(m.nodes) as int;
    let k = m.time_steps - m.t - 1;
    if m.phase is SrcExp {
        if m.t + 1 < m.time_steps {
            assert((k - 1) * s + s == k * s) by (nonlinear_arith);
        } else {
            assert(k == 0);
            assert(k * s == 0) by (nonlinear_arith)
                requires
                    k == 0,
            ;
        }
    }
}

/// Progress: from any well-formed state that still needs `k` answers, the
/// session is done after exactly `k`, whatever each answer is, and then
/// holds one observation per configured time step.
pub proof fn lemma_completion(m: SessionModel, rs: Seq<u64>)
    requires
        wf(m),
        rs.len() == ops_remaining(m),
    ensures
        replay(m, rs).phase is Done,
        replay(m, rs).time_steps == m.time_steps,
        replay(m, rs).obs.len() == m.time_steps,
    decreases rs.len(),
{
    if m.phase is Done {
        assert(replay(m, rs) == m);
    } else {
        lemma_ops_remaining_pos(m);
        lemma_feed_decreases_ops(m, rs[0]);
        lemma_feed_preserves_wf(m, rs[0]);
        lemma_completion(spec_feed(m, rs[0]), rs.skip(1));
    }
}

/// A run of `time_steps` steps on a grid of `nodes` nodes completes after
/// exactly `time_steps * (6 * nodes + 4)` answers — in particular it never
/// fails once the grid reaches past the observation index — and emits
/// exactly one observation per time step.
pub proof fn lemma_run_completes(time_steps: nat, nodes: nat, rs: Seq<u64>)
    requires
        nodes > OBSERVATION_INDEX as nat,
        rs.len() == time_steps * step_ops(nodes),
    ensures
        replay(start_model(time_steps, nodes), rs).phase is Done,
        replay(start_model(time_steps, nodes), rs).obs.len() == time_steps,
{
    let m = start_model(time_steps, nodes);
    let s = step_ops(nodes) as int;
    if time_steps == 0 {
        assert(rs.len() == 0) by {
            assert(0 * s == 0) by (nonlinear_arith);
        }
        assert(replay(m, rs) == m);
    } else {
        assert(ops_remaining(m) == (time_steps - 1) * s + s);
        assert((time_steps - 1) * s + s == time_steps * s) by (nonlinear_arith);
        lemma_completion(m, rs);
    }
}

/// Determinism: a session's whole behaviour is a function of its
/// configuration and of the arithmetic results it is fed.  Two sessions
/// built from identical parameters and fed identical result sequences
/// emit identical observation sequences.
pub proof fn lemma_deterministic(
    ts1: nat,
    n1: nat,
    ts2: nat,
    n2: nat,
    rs1: Seq<u64>,
    rs2: Seq<u64>,
)
    requires
        ts1 == ts2,
        n1 == n2,
        rs1 == rs2,
    ensures
        replay(start_model(ts1, n1), rs1).obs == replay(start_model(ts2, n2), rs2).obs,
{
}

/// A configuration of zero time steps starts already complete: no update
/// or source pass is pending and no observation is ever emitted.
pub proof fn lemma_zero_steps(nodes: nat)
    ensures
        start_model(0, nodes).phase is Done,
        start_model(0, nodes).obs.len() == 0,
        spec_pending(start_model(0, nodes)) is None,
{
}

/// The boundary convention: at the last node the right-hand electric
/// neighbour reads as the zero field, and at node zero the left-hand
/// magnetic neighbour reads as the zero field.  Every neighbour read of
/// the sweep therefore stays on the grid or yields the zero field; none
/// reaches outside it.
pub proof fn lemma_edge_policy(m: SessionModel)
    requires
        wf(m),
    ensures
        m.phase is HySub && m.i + 1 == m.nodes ==> spec_pending(m) == Some(
            Op::Sub(ZERO_BITS, m.ez[m.i as int]),
        ),
        m.phase is EzSub && m.i == 0 ==> spec_pending(m) == Some(Op::Sub(m.hy[0], ZERO_BITS)),
{
}

/// At the peak step the squared distance from the source peak is zero, so
/// the session requests the conversion of the integer zero there: the
/// driver's exponent is `-0/100` and the injected pulse `exp(0) = 1`.
pub proof fn lemma_source_peak(m: SessionModel)
    requires
        wf(m),
        m.phase is SrcCast,
        m.t == SOURCE_PEAK_STEP as nat,
    ensures
        spec_pending(m) == Some(Op::FromUint(0)),
{
    let t: nat = SOURCE_PEAK_STEP as nat;
    let d: nat = if t >= SOURCE_PEAK_STEP as nat {
        (t - SOURCE_PEAK_STEP as nat) as nat
    } else {
        (SOURCE_PEAK_STEP as nat - t) as nat
    };
    assert(d == 0);
    assert(d * d == 0);
    assert(src_numerator(t) == 0);
}

/// Source injection: the sample the driver computes for the Gaussian
/// pulse overwrites node zero unchanged, whatever the sweep left there,
/// and the observation emitted at the end of the step is exactly the
/// electric sample at the observation index after that overwrite.
pub proof fn lemma_source_injection(m: SessionModel, r: u64)
    requires
        wf(m),
        m.phase is SrcExp,
    ensures
        spec_feed(m, r).ez[0] == r,
        spec_feed(m, r).obs.last() == spec_feed(m, r).ez[OBSERVATION_INDEX as int],
{
}

/// Squared distance from the source peak, saturated at `u64::MAX`.
fn src_numerator_exec(t: usize) -> (r: u64)
    ensures
        r == src_numerator(t as nat),
{
    let d: u64 = if t >= SOURCE_PEAK_STEP {
        (t - SOURCE_PEAK_STEP) as u64
    } else {
        (SOURCE_PEAK_STEP - t) as u64
    };
    if d <= 0xFFFF_FFFF {
        proof {
            assert(d * d <= 0xFFFF_FFFF * 0xFFFF_FFFFu64) by (nonlinear_arith)
                requires
                    d <= 0xFFFF_FFFF,
            ;
        }
        d * d
    } else {
        proof {
            assert(d * d > u64::MAX) by (nonlinear_arith)
                requires
                    d > 0xFFFF_FFFF,
            ;
        }
        u64::MAX
    }
}

/// A vector of `n` zero-field samples.
fn zero_field(n: usize) -> (r: Vec<u64>)
    ensures
        r@ =~= Seq::new(n as nat, |j: int| ZERO_BITS),
{
    let mut v: Vec<u64> = Vec::new();
    let mut k: usize = 0;
    while k < n
        invariant
            k <= n,
            v@ =~= Seq::new(k as nat, |j: int| ZERO_BITS),
        decreases n - k,
    {
        v.push(ZERO_BITS);
        k = k + 1;
    }
    v
}

/// One run of the kernel, advanced one arithmetic request at a time.
///
/// The session owns the field arrays for its whole duration; the driver
/// around it owns only the double-precision evaluation of each [`Op`].
/// The intended loop is: while [`Session::pending`] yields a request,
/// evaluate it and hand the resulting bit pattern to [`Session::feed`];
/// then read [`Session::observations`].
pub struct Session {
    time_steps: usize,
    nodes: usize,
    t: usize,
    i: usize,
    phase: Phase,
    scratch: u64,
    ez: Vec<u64>,
    hy: Vec<u64>,
    obs: Vec<u64>,
}

impl View for Session {
    type V = SessionModel;

    closed spec fn view(&self) -> SessionModel {
        SessionModel {
            time_steps: self.time_steps as nat,
            nodes: self.nodes as nat,
            t: self.t as nat,
            i: self.i as nat,
            phase: self.phase,
            scratch: self.scratch,
            ez: self.ez@,
            hy: self.hy@,
            obs: self.obs@,
        }
    }
}

impl Session {
    /// Allocates fresh zeroed field arrays and stands ready to run the
    /// given number of steps; the grid must reach past the observation
    /// index (the caller rejects smaller grids first).
    pub fn start(time_steps: usize, nodes: usize) -> (r: Session)
        requires
            nodes > OBSERVATION_INDEX,
        ensures
            r@ =~= start_model(time_steps as nat, nodes as nat),
            wf(r@),
    {
        Session {
            time_steps,
            nodes,
            t: 0,
            i: 0,
            phase: if time_steps == 0 {
                Phase::Done
            } else {
                Phase::HySub
            },
            scratch: ZERO_BITS,
            ez: zero_field(nodes),
            hy: zero_field(nodes),
            obs: Vec::new(),
        }
    }

    /// The arithmetic request the session is waiting on, or `None` once
    /// every time step has completed.
    pub fn pending(&self) -> (r: Option<Op>)
        requires
            wf(self@),
        ensures
            r == spec_pending(self@),
            r is Some <==> !(self@.phase is Done),
    {
        match self.phase {
            Phase::HySub => {
                let right = if self.i + 1 < self.nodes {
                    self.ez[self.i + 1]
                } else {
                    ZERO_BITS
                };
                Some(Op::Sub(right, self.ez[self.i]))
            },
            Phase::HyDiv => Some(Op::Div(self.scratch, ETA0_BITS)),
            Phase::HyAdd => Some(Op::Add(self.hy[self.i], self.scratch)),
            Phase::EzSub => {
                let left = if self.i == 0 {
                    ZERO_BITS
                } else {
                    self.hy[self.i - 1]
                };
                Some(Op::Sub(self.hy[self.i], left))
            },
            Phase::EzMul => Some(Op::Mul(self.scratch, ETA0_BITS)),
            Phase::EzAdd => Some(Op::Add(self.ez[self.i], self.scratch)),
            Phase::SrcCast => Some(Op::FromUint(src_numerator_exec(self.t))),
            Phase::SrcDiv => Some(Op::Div(self.scratch, SOURCE_WIDTH_BITS)),
            Phase::SrcNeg => Some(Op::Neg(self.scratch)),
            Phase::SrcExp => Some(Op::Exp(self.scratch)),
            Phase::Done => None,
        }
    }

    /// Hands the session the bit pattern that evaluating the pending
    /// request produced, advancing it exactly as [`spec_feed`] describes.
    pub fn feed(&mut self, r: u64)
        requires
            wf(old(self)@),
            !(old(self)@.phase is Done),
        ensures
            final(self)@ =~= spec_feed(old(self)@, r),
            wf(final(self)@),
    {
        match self.phase {
            Phase::HySub => {
                self.scratch = r;
                self.phase = Phase::HyDiv;
            },
            Phase::HyDiv => {
                self.scratch = r;
                self.phase = Phase::HyAdd;
            },
            Phase::HyAdd => {
                self.hy.set(self.i, r);
                self.phase = Phase::EzSub;
            },
            Phase::EzSub => {
                self.scratch = r;
                self.phase = Phase::EzMul;
            },
            Phase::EzMul => {
                self.scratch = r;
                self.phase = Phase::EzAdd;
            },
            Phase::EzAdd => {
                self.ez.set(self.i, r);
                if self.i + 1 < self.nodes {
                    self.i = self.i + 1;
                    self.phase = Phase::HySub;
                } else {
                    self.phase = Phase::SrcCast;
                }
            },
            Phase::SrcCast => {
                self.scratch = r;
                self.phase = Phase::SrcDiv;
            },
            Phase::SrcDiv => {
                self.scratch = r;
                self.phase = Phase::SrcNeg;
            },
            Phase::SrcNeg => {
                self.scratch = r;
                self.phase = Phase::SrcExp;
            },
            Phase::SrcExp => {
                self.ez.set(0, r);
                let sample = self.ez[OBSERVATION_INDEX];
                self.obs.push(sample);
                self.t = self.t + 1;
                if self.t < self.time_steps {
                    self.i = 0;
                    self.phase = Phase::HySub;
                } else {
                    self.phase = Phase::Done;
                }
            },
            Phase::Done => {
            },
        }
    }

    /// The observations emitted so far: the bit pattern of
    /// `Ez[OBSERVATION_INDEX]` at the end of each completed time step.
    pub fn observations(&self) -> (r: &Vec<u64>)
        ensures
            r@ == self@.obs,
    {
        &self.obs
    }

    /// Whether every time step has completed.
    pub fn done(&self) -> (r: bool)
        ensures
            r == (self@.phase is Done),
    {
        match self.phase {
            Phase::Done => true,
            _ => false,
        }
    }
}

} // verus!
