use crate::digest::DefaultDigest;
use crate::digest::DigestStrategy;
use crate::digest::strategy_fn;
use vstd::arithmetic::power2::lemma_pow2_strictly_increases;
use vstd::arithmetic::power2::lemma2_to64;
use vstd::arithmetic::power2::pow2;
use vstd::bits::lemma_u64_shl_is_mul;
use vstd::prelude::*;

verus! {

/// Why a sketch operation was refused.
#[derive(Clone, Copy, Debug, PartialEq, Eq, Structural)]
pub enum SketchError {
    /// The precision handed to a constructor lies outside the accepted range.
    InvalidPrecision,
    /// The two sketches of a merge were built with different precisions.
    IncompatibleMerge,
}

/// The cached evaluation state of a sketch.
///
/// The cardinality estimate is the arithmetic mean of the register values:
/// the register sum divided by the register count. The count is fixed at
/// construction, so the sum determines the estimate exactly, and the cache
/// stores the sum as an integer; callers that want the mean divide.
#[derive(Clone, Copy, Debug, PartialEq, Eq, Structural)]
pub enum Cardinality {
    /// The register sum at the time of the last evaluation, still current:
    /// no mutation has happened since it was computed.
    Evaluated(u64),
    /// A mutation has happened since the last evaluation (or none has
    /// happened yet), so the next evaluation must recompute.
    Expired,
}

/// The abstract state of a sketch: what every contract in this module
/// speaks of.
#[verifier::ext_equal]
pub struct SketchView {
    /// The precision the sketch was constructed with.
    pub precision: u8,
    /// The register values, in index order.
    pub registers: Seq<u8>,
    /// The cached evaluation state.
    pub cache: Cardinality,
    /// The digest function of the configured strategy.
    pub digest: spec_fn(Seq<u8>) -> u64,
}

/// A precision is accepted when it lies between 4 and 16 inclusive: below 4
/// the register array is too small for any useful estimate, above 16 it costs
/// more memory than the added precision buys and crowds the rank bits out of
/// a 64-bit digest.
pub open spec fn valid_precision(p: u8) -> bool {
    4 <= p <= 16
}

/// The register count of a sketch of precision `p`.
pub open spec fn register_count(p: u8) -> nat {
    pow2(p as nat)
}

/// The largest rank a digest can yield at precision `p`: the `64 - p`
/// remaining bits are all zero, and the rank is one more than that many
/// leading zeros.
pub open spec fn max_rank(p: u8) -> u8
    recommends
        valid_precision(p),
{
    (65 - p) as u8
}

/// The larger of two register values.
pub open spec fn max_u8(a: u8, b: u8) -> u8 {
    if a >= b {
        a
    } else {
        b
    }
}

/// The sum of a sequence of register values.
pub open spec fn regs_sum(regs: Seq<u8>) -> int
    decreases regs.len(),
{
    if regs.len() == 0 {
        0
    } else {
        regs_sum(regs.drop_last()) + regs.last()
    }
}

/// The register index carved out of a digest: its top `p` bits.
pub open spec fn digest_index(d: u64, p: u8) -> int
    recommends
        valid_precision(p),
{
    (d >> (64 - p) as u64) as int
}

/// The rank carved out of a digest: one more than the number of leading zero
/// bits among the `64 - p` bits that remain once the index bits are dropped.
pub open spec fn digest_rank(d: u64, p: u8) -> u8
    recommends
        valid_precision(p),
{
    let rest = d << p as u64;
    if rest == 0 {
        max_rank(p)
    } else {
        (vstd::std_specs::bits::u64_leading_zeros(rest) + 1) as u8
    }
}

/// The index any digest yields lies inside the register array.
pub proof fn lemma_digest_index_bound(d: u64, p: u8)
    requires
        valid_precision(p),
    ensures
        0 <= digest_index(d, p) < register_count(p),
{
    assert((d >> ((64 - p) as u64)) < (1u64 << (p as u64))) by (bit_vector)
        requires
            4 <= p <= 16,
    ;
    lemma_pow2_bounds(p);
    lemma_u64_shl_is_mul(1u64, p as u64);
}

/// The rank any digest yields is at least 1 and at most [`max_rank`].
pub proof fn lemma_digest_rank_bound(d: u64, p: u8)
    requires
        valid_precision(p),
    ensures
        1 <= digest_rank(d, p) <= max_rank(p),
{
    let rest = d << p as u64;
    if rest != 0 {
        vstd::std_specs::bits::axiom_u64_leading_zeros(rest);
        let lzu: u64 = vstd::std_specs::bits::u64_leading_zeros(rest) as u64;
        let jj: u64 = (63 - lzu) as u64;
        assert(lzu + p <= 63) by (bit_vector)
            requires
                ((d << (p as u64)) >> jj) & 1u64 != 0u64,
                jj == (63 - lzu) as u64,
                lzu <= 63,
                4 <= p <= 16,
        ;
    }
}

/// At a valid precision the register count is at least 16 and at most 65536.
proof fn lemma_pow2_bounds(p: u8)
    requires
        valid_precision(p),
    ensures
        16 <= register_count(p) <= 65536,
{
    lemma2_to64();
    if p > 4 {
        lemma_pow2_strictly_increases(4, p as nat);
    }
    if p < 16 {
        lemma_pow2_strictly_increases(p as nat, 16);
    }
}

/// The state of a sketch in state `v` after an element whose digest is `d`
/// was inserted: the register that the digest's index bits pick rises to the
/// digest's rank if it was below it, and the cached evaluation expires.
pub open spec fn spec_insert_digest(v: SketchView, d: u64) -> SketchView {
    let idx = digest_index(d, v.precision);
    let rank = digest_rank(d, v.precision);
    SketchView {
        registers: v.registers.update(idx, max_u8(v.registers[idx], rank)),
        cache: Cardinality::Expired,
        ..v
    }
}

/// The state of a sketch after inserting the element `bytes`: its digest,
/// under the sketch's own strategy, drives [`spec_insert_digest`].
pub open spec fn spec_insert(v: SketchView, bytes: Seq<u8>) -> SketchView {
    spec_insert_digest(v, (v.digest)(bytes))
}

/// The register values of a merge: the elementwise maximum of the two
/// inputs' registers.
pub open spec fn merged_regs(a: Seq<u8>, b: Seq<u8>) -> Seq<u8>
    recommends
        a.len() == b.len(),
{
    Seq::new(a.len(), |i: int| max_u8(a[i], b[i]))
}

/// The state of a sketch in state `v` after a sketch in state `w` of equal
/// precision was merged into it: elementwise-maximum registers and an expired
/// cache; precision and digest strategy stay the sketch's own.
pub open spec fn spec_merge(v: SketchView, w: SketchView) -> SketchView {
    SketchView {
        registers: merged_regs(v.registers, w.registers),
        cache: Cardinality::Expired,
        ..v
    }
}

impl SketchView {
    /// Every sketch satisfies this: the register array has the length the
    /// precision dictates, no register exceeds the largest achievable rank,
    /// and a cached evaluation equals the current register sum.
    pub open spec fn wf(self) -> bool {
        &&& valid_precision(self.precision)
        &&& self.registers.len() == register_count(self.precision)
        &&& (forall|i: int|
            0 <= i < self.registers.len() ==> self.registers[i] <= max_rank(self.precision))
        &&& match self.cache {
            Cardinality::Evaluated(s) => s == regs_sum(self.registers),
            Cardinality::Expired => true,
        }
    }
}

/// The state of a freshly constructed sketch of precision `p`: all registers
/// zero, cache expired. `reset` restores exactly this state.
pub open spec fn spec_fresh(p: u8, digest: spec_fn(Seq<u8>) -> u64) -> SketchView {
    SketchView {
        precision: p,
        registers: Seq::new(register_count(p), |i: int| 0u8),
        cache: Cardinality::Expired,
        digest,
    }
}

/// A fixed-memory probabilistic sketch that estimates the number of distinct
/// elements inserted into it, without storing the elements themselves.
///
/// Each inserted element is digested to 64 bits; the top `precision` bits of
/// the digest pick a register, and the register keeps the maximum rank (see
/// [`digest_rank`]) observed for its index. Sketches of equal precision can
/// be merged register-wise, which makes independent per-partition sketches
/// combinable in any order.
#[derive(Clone, Debug)]
pub struct HyperLogLog<D: DigestStrategy> {
    precision: u8,
    registers: Vec<u8>,
    cardinality: Cardinality,
    digester: D,
}

impl<D: DigestStrategy> View for HyperLogLog<D> {
    type V = SketchView;

    closed spec fn view(&self) -> SketchView {
        SketchView {
            precision: self.precision,
            registers: self.registers@,
            cache: self.cardinality,
            digest: strategy_fn(self.digester),
        }
    }
}

impl<D: DigestStrategy> HyperLogLog<D> {
    /// Every constructed sketch is well-formed, and every method keeps it so.
    pub open spec fn wf(&self) -> bool {
        self@.wf()
    }

    /// Construct a sketch of the given precision around the given digest
    /// strategy, which the sketch owns from then on. Fails with
    /// [`SketchError::InvalidPrecision`] exactly when the precision lies
    /// outside the accepted range.
    pub fn with_hasher(precision: u8, digester: D) -> (result: Result<Self, SketchError>)
        ensures
            result is Ok <==> valid_precision(precision),
            result matches Ok(s) ==> s.wf() && s@ == spec_fresh(precision, strategy_fn(digester)),
            result matches Err(e) ==> e == SketchError::InvalidPrecision,
    {
        if precision < 4 || precision > 16 {
            Err(SketchError::InvalidPrecision)
        } else {
            Ok(Self::fresh(precision, digester))
        }
    }

    /// Build the construction-time state: `2^precision` zero registers and an
    /// expired cache.
    fn fresh(precision: u8, digester: D) -> (s: Self)
        requires
            valid_precision(precision),
        ensures
            s.wf(),
            s@ == spec_fresh(precision, strategy_fn(digester)),
    {
        proof {
            lemma_pow2_bounds(precision);
            lemma_u64_shl_is_mul(1u64, precision as u64);
        }
        let count_wide: u64 = 1u64 << (precision as u64);
        let count: usize = count_wide as usize;
        let mut registers: Vec<u8> = Vec::new();
        while registers.len() < count
            invariant
                registers@.len() <= count,
                forall|i: int| 0 <= i < registers@.len() ==> registers@[i] == 0u8,
            decreases count - registers.len(),
        {
            registers.push(0u8);
        }
        proof {
            assert(registers@ =~= Seq::new(register_count(precision), |i: int| 0u8));
        }
        let s = HyperLogLog { precision, registers, cardinality: Cardinality::Expired, digester };
        proof {
            assert(s@ =~= spec_fresh(precision, strategy_fn(digester)));
        }
        s
    }

    /// Insert an element, given as its byte string. The register picked by
    /// the index bits of the element's digest rises to the digest's rank if
    /// it was below it, and the cached evaluation expires unconditionally,
    /// even when no register value changed.
    pub fn insert(&mut self, elem: &[u8])
        requires
            old(self).wf(),
        ensures
            final(self).wf(),
            final(self)@ == spec_insert(old(self)@, elem@),
    {
        let digest = self.digester.digest(elem);
        let idx_wide: u64 = digest >> ((64 - self.precision) as u64);
        let rest: u64 = digest << (self.precision as u64);
        proof {
            lemma_digest_index_bound(digest, self.precision);
            lemma_digest_rank_bound(digest, self.precision);
            lemma_pow2_bounds(self.precision);
            vstd::std_specs::bits::axiom_u64_leading_zeros(rest);
        }
        let idx: usize = idx_wide as usize;
        let rank: u8 = if rest == 0 {
            65 - self.precision
        } else {
            (rest.leading_zeros() as u8) + 1
        };
        let cur: u8 = self.registers[idx];
        let next: u8 = if rank > cur {
            rank
        } else {
            cur
        };
        self.registers[idx] = next;
        self.cardinality = Cardinality::Expired;
        proof {
            assert(self@ =~= spec_insert(old(self)@, elem@));
        }
    }

    /// Merge another sketch of the same precision into this one: every
    /// register rises to the larger of the two inputs' values at its index,
    /// and the cached evaluation expires. Fails with
    /// [`SketchError::IncompatibleMerge`], leaving this sketch untouched,
    /// exactly when the precisions (equivalently, the register-array lengths)
    /// differ; a failed merge never reads or writes past either array.
    pub fn merge(&mut self, other: &Self) -> (result: Result<(), SketchError>)
        requires
            old(self).wf(),
            other.wf(),
        ensures
            final(self).wf(),
            result is Ok <==> other@.precision == old(self)@.precision,
            result is Ok ==> final(self)@ == spec_merge(old(self)@, other@),
            result matches Err(e) ==> e == SketchError::IncompatibleMerge && *final(self) == *old(
                self,
            ),
    {
        if self.precision != other.precision {
            return Err(SketchError::IncompatibleMerge);
        }
        let len = self.registers.len();
        let mut i: usize = 0;
        while i < len
            invariant
                i <= len,
                len == self.registers@.len(),
                other.registers@.len() == len,
                self.precision == old(self).precision,
                self.cardinality == old(self).cardinality,
                self.digester == old(self).digester,
                forall|j: int|
                    0 <= j < i ==> self.registers@[j] == max_u8(
                        old(self).registers@[j],
                        other.registers@[j],
                    ),
                forall|j: int| i <= j < len ==> self.registers@[j] == old(self).registers@[j],
            decreases len - i,
        {
            let a = self.registers[i];
            let b = other.registers[i];
            let m = if a >= b {
                a
            } else {
                b
            };
            self.registers[i] = m;
            i += 1;
        }
        self.cardinality = Cardinality::Expired;
        proof {
            assert(self@.registers =~= merged_regs(old(self)@.registers, other@.registers));
            assert(self@ =~= spec_merge(old(self)@, other@));
        }
        Ok(())
    }

    /// The current cardinality estimate, as the exact sum of the register
    /// values. The estimate proper is this sum divided by the register
    /// count; that division is left to the caller, so that the library stays
    /// in exact integer arithmetic. A still-current cached sum is returned
    /// without touching the registers; otherwise the sum is computed afresh
    /// and cached.
    pub fn evaluate(&mut self) -> (sum: u64)
        requires
            old(self).wf(),
        ensures
            final(self).wf(),
            sum == regs_sum(old(self)@.registers),
            final(self)@ == (SketchView {
                cache: Cardinality::Evaluated(sum),
                ..old(self)@
            }),
    {
        match self.cardinality {
            Cardinality::Evaluated(s) => {
                proof {
                    assert(self@ =~= SketchView {
                        cache: Cardinality::Evaluated(s),
                        ..old(self)@
                    });
                }
                s
            },
            Cardinality::Expired => {
                proof {
                    lemma_pow2_bounds(self.precision);
                }
                let len = self.registers.len();
                let mut sum: u64 = 0;
                let mut i: usize = 0;
                while i < len
                    invariant
                        i <= len,
                        len == self.registers@.len(),
                        len <= 65536,
                        sum == regs_sum(self.registers@.take(i as int)),
                        sum <= 255 * i,
                    decreases len - i,
                {
                    proof {
                        assert(self.registers@.take(i + 1).drop_last() =~= self.registers@.take(
                            i as int,
                        ));
                    }
                    sum = sum + self.registers[i] as u64;
                    i += 1;
                }
                proof {
                    assert(self.registers@.take(len as int) =~= self.registers@);
                }
                self.cardinality = Cardinality::Evaluated(sum);
                proof {
                    assert(self@ =~= SketchView {
                        cache: Cardinality::Evaluated(sum),
                        ..old(self)@
                    });
                }
                sum
            },
        }
    }

    /// Restore the construction-time state: every register zero and the
    /// cache expired. The result is indistinguishable from a freshly
    /// constructed sketch of the same precision and digest strategy.
    pub fn reset(&mut self)
        requires
            old(self).wf(),
        ensures
            final(self).wf(),
            final(self)@ == spec_fresh(old(self)@.precision, old(self)@.digest),
    {
        let len = self.registers.len();
        let mut i: usize = 0;
        while i < len
            invariant
                i <= len,
                len == self.registers@.len(),
                self.precision == old(self).precision,
                self.cardinality == old(self).cardinality,
                self.digester == old(self).digester,
                forall|j: int| 0 <= j < i ==> self.registers@[j] == 0u8,
            decreases len - i,
        {
            self.registers[i] = 0;
            i += 1;
        }
        self.cardinality = Cardinality::Expired;
        proof {
            assert(self@.registers =~= spec_fresh(
                old(self)@.precision,
                old(self)@.digest,
            ).registers);
            assert(self@ =~= spec_fresh(old(self)@.precision, old(self)@.digest));
        }
    }

    /// The precision this sketch was constructed with.
    pub fn precision(&self) -> (p: u8)
        ensures
            p == self@.precision,
    {
        self.precision
    }

    /// The register values, in index order.
    pub fn registers(&self) -> (r: &Vec<u8>)
        ensures
            r@ == self@.registers,
    {
        &self.registers
    }
}

impl HyperLogLog<DefaultDigest> {
    /// Construct a sketch of the given precision around the default digest
    /// strategy. Fails with [`SketchError::InvalidPrecision`] exactly when
    /// the precision lies outside the accepted range.
    pub fn new(precision: u8) -> (result: Result<Self, SketchError>)
        ensures
            result is Ok <==> valid_precision(precision),
            result matches Ok(s) ==> s.wf() && s@ == spec_fresh(
                precision,
                strategy_fn(DefaultDigest),
            ),
            result matches Err(e) ==> e == SketchError::InvalidPrecision,
    {
        Self::with_hasher(precision, DefaultDigest)
    }
}

impl Default for HyperLogLog<DefaultDigest> {
    /// A sketch of precision 8 around the default digest strategy.
    fn default() -> (s: Self)
        ensures
            s.wf(),
            s@ == spec_fresh(8, strategy_fn(DefaultDigest)),
    {
        Self::fresh(8, DefaultDigest)
    }
}

/// The register sum — and with it the cardinality estimate — is never
/// negative, and never exceeds a common bound on the registers times the
/// register count.
pub proof fn lemma_regs_sum_bounds(regs: Seq<u8>, bound: u8)
    requires
        forall|i: int| 0 <= i < regs.len() ==> regs[i] <= bound,
    ensures
        0 <= regs_sum(regs) <= bound * regs.len(),
    decreases regs.len(),
{
    if regs.len() > 0 {
        lemma_regs_sum_bounds(regs.drop_last(), bound);
        let n = regs.len() as int;
        assert(bound * (n - 1) + bound == bound * n) by (nonlinear_arith);
    }
}

/// A freshly constructed (or reset) sketch of precision `p` has `2^p`
/// registers and evaluates to zero: its register sum, and with it its
/// cardinality estimate, is zero.
pub proof fn lemma_fresh_evaluates_zero(p: u8, digest: spec_fn(Seq<u8>) -> u64)
    requires
        valid_precision(p),
    ensures
        spec_fresh(p, digest).wf(),
        spec_fresh(p, digest).registers.len() == register_count(p),
        regs_sum(spec_fresh(p, digest).registers) == 0,
{
    lemma_regs_sum_bounds(spec_fresh(p, digest).registers, 0);
}

/// Merging is commutative: merging `B` into `A` and merging `A` into `B`
/// yield identical registers, for any two sketches of equal precision.
pub proof fn lemma_merge_commutative(v: SketchView, w: SketchView)
    requires
        v.wf(),
        w.wf(),
        v.precision == w.precision,
    ensures
        spec_merge(v, w).registers == spec_merge(w, v).registers,
{
    assert(spec_merge(v, w).registers =~= spec_merge(w, v).registers);
}

/// Merging is associative: merging `B` into `A` and then `C` into the result
/// yields the registers of merging `C` into `B` first and that into `A`, for
/// any three sketches of equal precision.
pub proof fn lemma_merge_associative(u: SketchView, v: SketchView, w: SketchView)
    requires
        u.wf(),
        v.wf(),
        w.wf(),
        u.precision == v.precision,
        v.precision == w.precision,
    ensures
        spec_merge(spec_merge(u, v), w).registers == spec_merge(u, spec_merge(v, w)).registers,
{
    assert(spec_merge(spec_merge(u, v), w).registers =~= spec_merge(
        u,
        spec_merge(v, w),
    ).registers);
}

/// Merging is idempotent: merging a sketch into itself leaves its registers
/// as they were. Together with commutativity and associativity this makes a
/// sketch under merge a join-semilattice, so independent per-partition
/// sketches can be combined in any order and pairing.
pub proof fn lemma_merge_idempotent(v: SketchView)
    ensures
        spec_merge(v, v).registers == v.registers,
{
    assert(spec_merge(v, v).registers =~= v.registers);
}

/// Inserting an element twice leaves exactly the state that inserting it
/// once leaves: the repeated digest picks the same register and rank, and
/// the register already holds at least that rank.
pub proof fn lemma_insert_twice(v: SketchView, bytes: Seq<u8>)
    requires
        v.wf(),
    ensures
        spec_insert(spec_insert(v, bytes), bytes) == spec_insert(v, bytes),
{
    lemma_digest_index_bound((v.digest)(bytes), v.precision);
    assert(spec_insert(spec_insert(v, bytes), bytes) =~= spec_insert(v, bytes));
}

} // verus!
