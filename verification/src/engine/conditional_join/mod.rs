//! Conditional joins: parsing conditions, building predicates, planning a join
//! and streaming it over chunks of the left frame.

pub mod operators;
pub mod types;

use vstd::prelude::*;
use vstd::arithmetic::div_mod::lemma_fundamental_div_mod_converse;
use polars::prelude::{DataFrame, Expr, IntoLazy, JoinType, PolarsError};
use crate::expr::{is_predicate_expr, predicate_exprs};
use crate::errors::{BearBridgeError, ErrorSpec};
use crate::frame::{frame_column_names, frame_height, frame_slice, height, join_type_of, polars_join_type, slice};
use operators::{PredicateSpec, predicate_of};
use types::{ConditionSpec, parse_join_kind};

pub use operators::{Operand, Operator, Predicate, get_predicate};
pub use types::{Condition, JoinKind, JoinOptions, TimeUnit, str_to_join_type};

verus! {

/// The predicates of a list of conditions, in order. The first condition that
/// fails stops the list with its error; the first predicate the engine cannot
/// build stops it too, as its last predicate (building it fails).
pub open spec fn predicates_of(cs: Seq<ConditionSpec>) -> Result<Seq<PredicateSpec>, ErrorSpec>
    decreases cs.len(),
{
    if cs.len() == 0 {
        Ok(Seq::empty())
    } else {
        match predicate_of(cs[0]) {
            Err(e) => Err(e),
            Ok(p) => if !p.buildable() {
                Ok(seq![p])
            } else {
                prepend(seq![p], predicates_of(cs.drop_first()))
            },
        }
    }
}

/// Puts predicates in front of a list of predicates; an error stays.
pub open spec fn prepend(ps: Seq<PredicateSpec>, r: Result<Seq<PredicateSpec>, ErrorSpec>) -> Result<
    Seq<PredicateSpec>,
    ErrorSpec,
> {
    match r {
        Ok(rest) => Ok(ps + rest),
        Err(e) => Err(e),
    }
}

/// The plan of a join: the join kind is read first, then the predicates.
pub open spec fn plan_of(cs: Seq<ConditionSpec>, how: Seq<char>) -> Result<
    (JoinKind, Seq<PredicateSpec>),
    ErrorSpec,
> {
    match parse_join_kind(how) {
        Err(e) => Err(e),
        Ok(kind) => match predicates_of(cs) {
            Err(e) => Err(e),
            Ok(ps) => Ok((kind, ps)),
        },
    }
}

/// The conditions of a slice in mathematical form.
pub open spec fn conditions_view(cs: Seq<Condition>) -> Seq<ConditionSpec> {
    cs.map_values(|c: Condition| c@)
}

/// The predicates of a vector in mathematical form.
pub open spec fn predicates_view(ps: Seq<Predicate>) -> Seq<PredicateSpec> {
    ps.map_values(|p: Predicate| p@)
}

/// What a join is run with: the engine's join type for the join kind, and the
/// predicates that the rows of the two frames must meet together.
pub struct JoinPlan {
    pub join_type: JoinType,
    pub kind: JoinKind,
    pub predicates: Vec<Predicate>,
}

/// Plans a join of two frames under a list of conditions and a join kind name.
pub fn plan_join(conditions: &[Condition], how: &str) -> (r: Result<JoinPlan, BearBridgeError>)
    ensures
        match (r, plan_of(conditions_view(conditions@), how@)) {
            (Ok(plan), Ok((kind, ps))) => plan.kind == kind && plan.join_type == join_type_of(kind)
                && predicates_view(plan.predicates@) == ps,
            (Err(e), Err(f)) => e@ == f,
            _ => false,
        },
{
    let kind = match JoinKind::from_str(how) {
        Ok(k) => k,
        Err(e) => return Err(e),
    };
    let ghost cs = conditions_view(conditions@);
    let mut predicates: Vec<Predicate> = Vec::new();
    let n = conditions.len();
    let mut i: usize = 0;
    assert(cs.skip(0) =~= cs);
    assert(predicates_view(predicates@) =~= Seq::<PredicateSpec>::empty());
    proof {
        match predicates_of(cs) {
            Ok(t) => {
                assert(Seq::<PredicateSpec>::empty() + t =~= t);
            },
            Err(_) => {},
        }
    }
    while i < n
        invariant
            parse_join_kind(how@) == Ok::<JoinKind, ErrorSpec>(kind),
            n == conditions@.len(),
            cs == conditions_view(conditions@),
            i <= n,
            predicates_of(cs) == prepend(predicates_view(predicates@), predicates_of(cs.skip(i as int))),
        decreases n - i,
    {
        let ghost rest = cs.skip(i as int);
        assert(rest[0] == cs[i as int]);
        assert(rest.drop_first() =~= cs.skip(i as int + 1));
        let p = match get_predicate(&conditions[i]) {
            Ok(p) => p,
            Err(e) => {
                assert(predicates_of(rest) == Err::<Seq<PredicateSpec>, ErrorSpec>(e@));
                return Err(e);
            },
        };
        let buildable = p.is_buildable();
        let ghost before = predicates_view(predicates@);
        predicates.push(p);
        assert(predicates_view(predicates@) =~= before + seq![p@]);
        if !buildable {
            assert(predicates_of(rest) == Ok::<Seq<PredicateSpec>, ErrorSpec>(seq![p@]));
            assert(predicates_of(cs) == Ok::<Seq<PredicateSpec>, ErrorSpec>(before + seq![p@]));
            return Ok(JoinPlan { join_type: polars_join_type(kind), kind, predicates });
        }
        proof {
            let tail = predicates_of(cs.skip(i as int + 1));
            match tail {
                Ok(t) => {
                    assert(before + (seq![p@] + t) =~= (before + seq![p@]) + t);
                },
                Err(_) => {},
            }
        }
        i = i + 1;
    }
    assert(cs.skip(n as int) =~= Seq::<ConditionSpec>::empty());
    assert(predicates_view(predicates@) + Seq::<PredicateSpec>::empty() =~= predicates_view(predicates@));
    Ok(JoinPlan { join_type: polars_join_type(kind), kind, predicates })
}

/// The joins the engine may give: `result` is an outcome of joining `left`
/// with `right` by `join_where` under the join type `how` and the predicate
/// expressions `predicates`, then collecting the lazy frame.
pub uninterp spec fn join_outcome(
    left: DataFrame,
    right: DataFrame,
    how: JoinType,
    predicates: Seq<Expr>,
    result: Result<DataFrame, PolarsError>,
) -> bool;

/// Calls `polars`'s join builder: `left.lazy().join_builder().with(right.lazy())
/// .how(join_type).join_where(predicates).collect()`. Its result is an outcome
/// of that join (`join_outcome`); which rows the joined frame holds, and in
/// what order, is not stated. `join_where` starts from a cross join of the two
/// frames and filters it by the predicates, which the optimiser may turn into
/// an equi-join or an inequality join on the predicates' columns; a predicate
/// that becomes neither is run as a filtered cross join.
#[verifier::external_body]
fn join_where(left: &DataFrame, right: &DataFrame, join_type: JoinType, predicates: Vec<Expr>) -> (r:
    Result<DataFrame, PolarsError>)
    ensures
        join_outcome(*left, *right, join_type, predicates@, r),
{
    left.clone().lazy().join_builder().with(right.clone().lazy()).how(join_type).join_where(
        predicates,
    ).collect()
}

/// `r` is an outcome of the engine's join of `left` with `right` under the join
/// type `how` and the predicate expressions `exprs`: the joined frame, or the
/// engine's error as `Polars`.
pub open spec fn engine_outcome(
    left: DataFrame,
    right: DataFrame,
    how: JoinType,
    exprs: Seq<Expr>,
    r: Result<DataFrame, BearBridgeError>,
) -> bool {
    exists|raw: Result<DataFrame, PolarsError>|
        #![trigger join_outcome(left, right, how, exprs, raw)]
        join_outcome(left, right, how, exprs, raw) && match (raw, r) {
            (Ok(a), Ok(b)) => a == b,
            (Err(a), Err(b)) => b@ == ErrorSpec::Polars(a),
            _ => false,
        }
}

/// `exprs` are the engine expressions of the predicates `ps`, in order, a
/// binary64 literal built by `float_lit`.
pub open spec fn are_predicate_exprs<F: Fn(u64) -> Expr>(
    ps: Seq<PredicateSpec>,
    exprs: Seq<Expr>,
    float_lit: F,
) -> bool {
    &&& exprs.len() == ps.len()
    &&& forall|i: int| 0 <= i < ps.len() ==> is_predicate_expr(ps[i], #[trigger] exprs[i], float_lit)
}

/// `r` is an outcome of running a plan of join kind `kind` and predicates `ps`
/// on two frames: the engine joins them with the join type of `kind` and the
/// predicates' expressions.
pub open spec fn run_outcome<F: Fn(u64) -> Expr>(
    left: DataFrame,
    right: DataFrame,
    kind: JoinKind,
    ps: Seq<PredicateSpec>,
    float_lit: F,
    r: Result<DataFrame, BearBridgeError>,
) -> bool {
    exists|exprs: Seq<Expr>|
        #![trigger are_predicate_exprs(ps, exprs, float_lit)]
        are_predicate_exprs(ps, exprs, float_lit) && engine_outcome(
            left,
            right,
            join_type_of(kind),
            exprs,
            r,
        )
}

/// Runs a planned join: the plan's predicates, built into `polars`
/// expressions in order (a binary64 literal by `float_lit`), joined with the
/// join type of the plan's kind. The engine's error comes back as `Polars`.
pub fn run_join<F: Fn(u64) -> Expr>(
    left: &DataFrame,
    right: &DataFrame,
    plan: &JoinPlan,
    float_lit: &F,
) -> (r: Result<DataFrame, BearBridgeError>)
    requires
        forall|i: int| 0 <= i < plan.predicates@.len() ==> (#[trigger] plan.predicates@[i])@.buildable(),
        forall|b: u64| call_requires(*float_lit, (b,)),
    ensures
        run_outcome(*left, *right, plan.kind, predicates_view(plan.predicates@), *float_lit, r),
        r matches Err(e) ==> e@ is Polars,
{
    let exprs = predicate_exprs(&plan.predicates, float_lit);
    let join_type = polars_join_type(plan.kind);
    let joined = join_where(left, right, join_type, exprs);
    let r = match joined {
        Ok(df) => Ok(df),
        Err(e) => Err(BearBridgeError::Polars(e)),
    };
    proof {
        let ps = predicates_view(plan.predicates@);
        assert forall|i: int| 0 <= i < ps.len() implies is_predicate_expr(
            ps[i],
            #[trigger] exprs@[i],
            *float_lit,
        ) by {
            assert(ps[i] == plan.predicates@[i]@);
        }
        assert(are_predicate_exprs(ps, exprs@, *float_lit));
        assert(join_outcome(*left, *right, join_type_of(plan.kind), exprs@, joined));
    }
    r
}

/// Every predicate of a successful plan can be built by the engine.
pub open spec fn plan_buildable(cs: Seq<ConditionSpec>, how: Seq<char>) -> bool {
    match plan_of(cs, how) {
        Ok(plan) => forall|i: int| 0 <= i < plan.1.len() ==> (#[trigger] plan.1[i]).buildable(),
        Err(_) => true,
    }
}

/// The rows of the `k`-th chunk of a frame of `height` rows cut into chunks of
/// `size` rows: `Some((start, length))`, or `None` once the chunks are used up.
/// The last chunk may be shorter.
pub open spec fn chunk_at(k: nat, size: nat, height: nat) -> Option<(nat, nat)> {
    if k * size < height {
        let start = k * size;
        Some((start, if size <= height - start { size } else { (height - start) as nat }))
    } else {
        None
    }
}

/// Every row of a frame lies in exactly one chunk: for a positive chunk size,
/// row `row` lies in chunk `row / size` and in no other. Streaming a join chunk
/// by chunk thus hands every left row to exactly one join.
pub proof fn lemma_chunks_cover_rows(size: nat, height: nat, row: nat)
    requires
        size > 0,
        row < height,
    ensures
        chunk_at(row / size, size, height) matches Some((start, length)) && start <= row < start
            + length,
        forall|k: nat|
            #[trigger] chunk_at(k, size, height) matches Some((start, length)) && start <= row < start
                + length ==> k == row / size,
{
    let q = row / size;
    let r = row % size;
    assert(row == q * size + r && 0 <= r < size) by (nonlinear_arith)
        requires
            size > 0,
            q == row / size,
            r == row % size,
    ;
    assert forall|k: nat|
        #[trigger] chunk_at(k, size, height) matches Some((start, length)) && start <= row < start
            + length implies k == row / size by {
        let start = k * size;
        lemma_fundamental_div_mod_converse(row as int, size as int, k as int, row - start);
    }
}

/// Chunks follow each other without gaps: each chunk starts where the one
/// before it ends, and once the chunks are used up no later chunk exists.
pub proof fn lemma_chunks_consecutive(k: nat, size: nat, height: nat)
    ensures
        chunk_at(k + 1, size, height) matches Some((next_start, _)) ==> chunk_at(
            k,
            size,
            height,
        ) matches Some((start, length)) && start + length == next_start,
        chunk_at(k, size, height) is None ==> chunk_at(k + 1, size, height) is None,
{
    assert((k + 1) * size == k * size + size) by (nonlinear_arith);
}

/// A frame of `height` rows has `ceil(height / size)` chunks: chunk `k`
/// exists exactly when `k` is below that count. A stream thus hands out at most
/// that many joined chunks.
pub proof fn lemma_chunk_count(k: nat, size: nat, height: nat)
    requires
        size > 0,
    ensures
        chunk_at(k, size, height) is Some <==> k < (height + size - 1) / (size as int),
{
    let c = (height + size - 1) / (size as int);
    if k * size < height {
        assert(k < c) by (nonlinear_arith)
            requires
                size > 0,
                k * size < height,
                c == (height + size - 1) / (size as int),
        ;
    } else {
        assert(k >= c) by (nonlinear_arith)
            requires
                size > 0,
                k * size >= height,
                c == (height + size - 1) / (size as int),
        ;
    }
}

/// A join streamed over the left frame: each step joins the next chunk of
/// `chunk_size` left rows with the whole right frame.
pub struct JoinIterator {
    pub left: DataFrame,
    pub right: DataFrame,
    pub conditions: Vec<Condition>,
    pub how: String,
    pub current_chunk: usize,
    pub chunk_size: usize,
}

/// Chunk `k` of the left frame, cut into chunks of `size` rows, exists and
/// its join with the right frame under a plan of join kind `kind` and
/// predicates `ps` may give `r`.
pub open spec fn chunk_outcome<F: Fn(u64) -> Expr>(
    left: DataFrame,
    right: DataFrame,
    size: nat,
    k: nat,
    kind: JoinKind,
    ps: Seq<PredicateSpec>,
    float_lit: F,
    r: Result<DataFrame, BearBridgeError>,
) -> bool {
    chunk_at(k, size, frame_height(left)) matches Some((start, length)) && run_outcome(
        frame_slice(left, start, length),
        right,
        kind,
        ps,
        float_lit,
        r,
    )
}

/// Chunk `k` of the left frame joined to a frame without rows.
pub open spec fn chunk_joins_empty<F: Fn(u64) -> Expr>(
    left: DataFrame,
    right: DataFrame,
    size: nat,
    k: nat,
    kind: JoinKind,
    ps: Seq<PredicateSpec>,
    float_lit: F,
) -> bool {
    exists|df: DataFrame|
        #![trigger chunk_outcome(left, right, size, k, kind, ps, float_lit, Ok(df))]
        frame_height(df) == 0 && chunk_outcome(left, right, size, k, kind, ps, float_lit, Ok(df))
}

/// The limits within which a stream step is taken: the left frame's rows can
/// be addressed by 64-bit offsets, every predicate of the plan can be built,
/// and chunks of no rows come only where the step ends at once (no left rows,
/// or a plan error) with a chunk counter that can still advance.
pub open spec fn next_joined_limits(it: JoinIterator) -> bool {
    let h = frame_height(it.left);
    let cs = conditions_view(it.conditions@);
    &&& h <= i64::MAX
    &&& plan_buildable(cs, it.how@)
    &&& it.chunk_size > 0 || h == 0 || plan_of(cs, it.how@) is Err
    &&& !(it.chunk_size == 0 && it.current_chunk == usize::MAX && h > 0)
}

/// What a stream step gives, from the stream `old` to the stream `new`, with
/// `r` handed on. The frames, conditions, join kind name and chunk size stay.
/// With a plan error, the error is handed on for the current chunk and the
/// stream moves one chunk on; `None` once the chunks are used up. With a plan,
/// the chunks from the current one up to the one whose join is handed on
/// (or to the end of the frame, for `None`) joined to frames without rows,
/// the handed-on result is that chunk's join, an error or a frame with rows,
/// and a used-up stream stays where it is.
pub open spec fn next_joined_post<F: Fn(u64) -> Expr>(
    old: JoinIterator,
    new: JoinIterator,
    float_lit: F,
    r: Option<Result<DataFrame, BearBridgeError>>,
) -> bool {
    let size = old.chunk_size as nat;
    let h = frame_height(old.left);
    let k0 = old.current_chunk as nat;
    let k1 = new.current_chunk as nat;
    let cs = conditions_view(old.conditions@);
    &&& new.left == old.left
    &&& new.right == old.right
    &&& new.conditions == old.conditions
    &&& new.how == old.how
    &&& new.chunk_size == old.chunk_size
    &&& k0 <= k1
    &&& chunk_at(k0, size, h) is None ==> r is None && k1 == k0
    &&& r is None ==> chunk_at(k1, size, h) is None
    &&& r is Some ==> k0 < k1 && chunk_at((k1 - 1) as nat, size, h) is Some
    &&& r matches Some(Ok(df)) ==> frame_height(df) > 0
    &&& match plan_of(cs, old.how@) {
        Err(f) => match chunk_at(k0, size, h) {
            None => r is None && k1 == k0,
            Some(_) => r matches Some(Err(e)) && e@ == f && k1 == k0 + 1,
        },
        Ok((kind, ps)) => {
            &&& forall|k: nat|
                k0 <= k < (if r is Some { k1 - 1 } else { k1 as int }) ==> #[trigger] chunk_joins_empty(
                    old.left,
                    old.right,
                    size,
                    k,
                    kind,
                    ps,
                    float_lit,
                )
            &&& r matches Some(joined) ==> chunk_outcome(
                old.left,
                old.right,
                size,
                (k1 - 1) as nat,
                kind,
                ps,
                float_lit,
                joined,
            )
        },
    }
}

/// A stream hands out at most one result per chunk of the left frame: a step
/// that hands a result on moves the chunk counter past an existing chunk, so
/// the counter stays at most `ceil(height / size)`, the number of chunks, and
/// from counter `k` on at most `ceil(height / size) - k` results come. A step
/// that hands nothing on leaves the counter at or past that number.
pub proof fn lemma_stream_bound<F: Fn(u64) -> Expr>(
    old: JoinIterator,
    new: JoinIterator,
    float_lit: F,
    r: Option<Result<DataFrame, BearBridgeError>>,
)
    requires
        old.chunk_size > 0,
        next_joined_post(old, new, float_lit, r),
    ensures
        r is Some ==> old.current_chunk < new.current_chunk <= (frame_height(old.left)
            + old.chunk_size - 1) / (old.chunk_size as int),
        r is None ==> new.current_chunk >= (frame_height(old.left) + old.chunk_size - 1) / (
        old.chunk_size as int),
        new.chunk_size == old.chunk_size,
        frame_height(new.left) == frame_height(old.left),
{
    let size = old.chunk_size as nat;
    let h = frame_height(old.left);
    if r is Some {
        lemma_chunk_count((new.current_chunk - 1) as nat, size, h);
    } else {
        lemma_chunk_count(new.current_chunk as nat, size, h);
    }
}

/// A plan error does not end a stream: the step hands it on for the current
/// chunk and moves one chunk on, and the stream after it has the same
/// conditions and join kind name, so its next step meets the same error, for
/// each remaining chunk, until the chunks are used up.
pub proof fn lemma_plan_error_repeats<F: Fn(u64) -> Expr>(
    old: JoinIterator,
    new: JoinIterator,
    float_lit: F,
    r: Option<Result<DataFrame, BearBridgeError>>,
)
    requires
        next_joined_post(old, new, float_lit, r),
        plan_of(conditions_view(old.conditions@), old.how@) is Err,
    ensures
        plan_of(conditions_view(new.conditions@), new.how@) == plan_of(
            conditions_view(old.conditions@),
            old.how@,
        ),
        chunk_at(old.current_chunk as nat, old.chunk_size as nat, frame_height(old.left)) is Some
            ==> (r matches Some(Err(e)) && Err::<(JoinKind, Seq<PredicateSpec>), ErrorSpec>(e@)
            == plan_of(conditions_view(old.conditions@), old.how@) && new.current_chunk
            == old.current_chunk + 1),
        chunk_at(old.current_chunk as nat, old.chunk_size as nat, frame_height(old.left)) is None
            ==> r is None && new.current_chunk == old.current_chunk,
{
}

impl JoinIterator {
    /// The next chunk of left rows to join, or `None` when the left frame is
    /// used up. A chunk handed out advances the iterator by one; at the end it
    /// stays where it is.
    pub fn next_left_slice(&mut self) -> (r: Option<DataFrame>)
        requires
            frame_height(old(self).left) <= i64::MAX,
            !(old(self).chunk_size == 0 && old(self).current_chunk == usize::MAX && frame_height(
                old(self).left,
            ) > 0),
        ensures
            final(self).left == old(self).left,
            final(self).right == old(self).right,
            final(self).conditions == old(self).conditions,
            final(self).how == old(self).how,
            final(self).chunk_size == old(self).chunk_size,
            match chunk_at(
                old(self).current_chunk as nat,
                old(self).chunk_size as nat,
                frame_height(old(self).left),
            ) {
                None => r is None && final(self).current_chunk == old(self).current_chunk,
                Some((start, length)) => r matches Some(chunk)
                    && chunk == frame_slice(old(self).left, start, length)
                    && frame_height(chunk) == length
                    && frame_column_names(chunk) == frame_column_names(old(self).left)
                    && final(self).current_chunk == old(self).current_chunk + 1,
            },
    {
        let rows = height(&self.left);
        let start = match self.current_chunk.checked_mul(self.chunk_size) {
            Some(s) => s,
            None => return None,
        };
        if start >= rows {
            return None;
        }
        let length = if self.chunk_size <= rows - start { self.chunk_size } else { rows - start };
        if self.chunk_size > 0 {
            assert(self.current_chunk <= start) by (nonlinear_arith)
                requires
                    self.chunk_size > 0,
                    start == self.current_chunk * self.chunk_size,
            ;
        }
        let chunk = slice(&self.left, start, length);
        self.current_chunk = self.current_chunk + 1;
        Some(chunk)
    }

    /// `next_left_slice` where its limits hold: a left frame whose rows a
    /// 64-bit offset can address, and a chunk counter that can still advance.
    /// Outside them gives `None` and leaves the iterator as it was.
    pub fn checked_next_left_slice(&mut self) -> (r: Option<Option<DataFrame>>)
        ensures
            final(self).left == old(self).left,
            final(self).right == old(self).right,
            final(self).conditions == old(self).conditions,
            final(self).how == old(self).how,
            final(self).chunk_size == old(self).chunk_size,
            (frame_height(old(self).left) <= i64::MAX && !(old(self).chunk_size == 0
                && old(self).current_chunk == usize::MAX && frame_height(old(self).left) > 0))
                <==> r is Some,
            r is None ==> final(self).current_chunk == old(self).current_chunk,
            r matches Some(next) ==> match chunk_at(
                old(self).current_chunk as nat,
                old(self).chunk_size as nat,
                frame_height(old(self).left),
            ) {
                None => next is None && final(self).current_chunk == old(self).current_chunk,
                Some((start, length)) => next matches Some(chunk)
                    && chunk == frame_slice(old(self).left, start, length)
                    && frame_height(chunk) == length
                    && frame_column_names(chunk) == frame_column_names(old(self).left)
                    && final(self).current_chunk == old(self).current_chunk + 1,
            },
    {
        let rows = height(&self.left);
        if rows as u64 > 0x7fff_ffff_ffff_ffffu64 {
            return None;
        }
        if self.chunk_size == 0 && self.current_chunk == usize::MAX && rows > 0 {
            return None;
        }
        Some(self.next_left_slice())
    }

    /// Whether a joined chunk is handed on: errors are, and results that hold
    /// rows; an empty result is skipped and the stream moves to the next chunk.
    pub fn emits(joined: &Result<DataFrame, BearBridgeError>) -> (r: bool)
        ensures
            r == match joined {
                Ok(df) => frame_height(*df) > 0,
                Err(_) => true,
            },
    {
        match joined {
            Ok(df) => height(df) > 0,
            Err(_) => true,
        }
    }

    /// The next joined chunk of the stream: the chunks from the current one on
    /// are joined in turn with the right frame under the conditions and the join
    /// kind, and the first result that is an error or holds rows is handed on;
    /// `None` once the left frame is used up. A plan error (a bad join kind,
    /// time unit or operator) is handed on once per remaining chunk.
    pub fn next_joined<F: Fn(u64) -> Expr>(&mut self, float_lit: &F) -> (r: Option<
        Result<DataFrame, BearBridgeError>,
    >)
        requires
            next_joined_limits(*old(self)),
            forall|b: u64| call_requires(*float_lit, (b,)),
        ensures
            next_joined_post(*old(self), *final(self), *float_lit, r),
    {
        let ghost left0 = self.left;
        let ghost right0 = self.right;
        let ghost conditions0 = self.conditions;
        let ghost how0 = self.how;
        let ghost size = self.chunk_size;
        let ghost k0 = self.current_chunk;
        let ghost h = frame_height(self.left);
        let ghost cs = conditions_view(self.conditions@);
        loop
            invariant
                left0 == old(self).left,
                right0 == old(self).right,
                conditions0 == old(self).conditions,
                how0 == old(self).how,
                size == old(self).chunk_size,
                k0 == old(self).current_chunk,
                self.left == left0,
                self.right == right0,
                self.conditions == conditions0,
                self.how == how0,
                self.chunk_size == size,
                h == frame_height(left0),
                h <= i64::MAX,
                size > 0 || h == 0 || plan_of(cs, how0@) is Err,
                !(size == 0 && self.current_chunk == usize::MAX && h > 0),
                cs == conditions_view(conditions0@),
                plan_buildable(cs, how0@),
                forall|b: u64| call_requires(*float_lit, (b,)),
                k0 <= self.current_chunk,
                plan_of(cs, how0@) is Err ==> self.current_chunk == k0,
                chunk_at(k0 as nat, size as nat, h) is None ==> self.current_chunk == k0,
                k0 < self.current_chunk ==> chunk_at(
                    (self.current_chunk - 1) as nat,
                    size as nat,
                    h,
                ) is Some,
                plan_of(cs, how0@) matches Ok((kind, ps)) ==> forall|k: nat|
                    k0 <= k < self.current_chunk ==> #[trigger] chunk_joins_empty(
                        left0,
                        right0,
                        size as nat,
                        k,
                        kind,
                        ps,
                        *float_lit,
                    ),
            decreases h + size - self.current_chunk * size,
        {
            let ghost k = self.current_chunk;
            let chunk = match self.next_left_slice() {
                Some(c) => c,
                None => return None,
            };
            let plan = match plan_join(&self.conditions, self.how.as_str()) {
                Ok(p) => p,
                Err(e) => return Some(Err(e)),
            };
            assert forall|i: int| 0 <= i < plan.predicates@.len() implies (
            #[trigger] plan.predicates@[i])@.buildable() by {
                assert(predicates_view(plan.predicates@)[i] == plan.predicates@[i]@);
            }
            let joined = run_join(&chunk, &self.right, &plan, float_lit);
            assert(chunk_outcome(
                left0,
                right0,
                size as nat,
                k as nat,
                plan.kind,
                predicates_view(plan.predicates@),
                *float_lit,
                joined,
            ));
            if JoinIterator::emits(&joined) {
                return Some(joined);
            }
            assert(chunk_joins_empty(
                left0,
                right0,
                size as nat,
                k as nat,
                plan.kind,
                predicates_view(plan.predicates@),
                *float_lit,
            ));
            assert(size > 0);
            assert(self.current_chunk * size < h + size) by (nonlinear_arith)
                requires
                    (self.current_chunk - 1) * size < h,
                    size > 0,
                    self.current_chunk >= 1,
            ;
            assert(self.current_chunk * size == (self.current_chunk - 1) * size + size)
                by (nonlinear_arith);
        }
    }

    /// `next_joined` where its limits hold (`next_joined_limits`): a left frame
    /// whose rows a 64-bit offset can address, conditions whose every predicate
    /// the engine can build, and a chunk size of zero only where the step ends
    /// at once. Inside them it gives `Some` of what `next_joined` gives; outside
    /// them, `None`, and the iterator stays as it was.
    pub fn checked_next_joined<F: Fn(u64) -> Expr>(&mut self, float_lit: &F) -> (r: Option<
        Option<Result<DataFrame, BearBridgeError>>,
    >)
        requires
            forall|b: u64| call_requires(*float_lit, (b,)),
        ensures
            r is Some <==> next_joined_limits(*old(self)),
            r is None ==> *final(self) == *old(self),
            r matches Some(next) ==> next_joined_post(*old(self), *final(self), *float_lit, next),
    {
        let rows = height(&self.left);
        if rows as u64 > 0x7fff_ffff_ffff_ffffu64 {
            return None;
        }
        match plan_join(&self.conditions, self.how.as_str()) {
            Ok(plan) => {
                if self.chunk_size == 0 && rows > 0 {
                    return None;
                }
                let n = plan.predicates.len();
                let mut i: usize = 0;
                assert(plan_of(conditions_view(self.conditions@), self.how@) == Ok::<
                    (JoinKind, Seq<PredicateSpec>),
                    ErrorSpec,
                >((plan.kind, predicates_view(plan.predicates@))));
                while i < n
                    invariant
                        plan_of(conditions_view(self.conditions@), self.how@) == Ok::<
                            (JoinKind, Seq<PredicateSpec>),
                            ErrorSpec,
                        >((plan.kind, predicates_view(plan.predicates@))),
                        n == plan.predicates@.len(),
                        i <= n,
                        forall|j: int| 0 <= j < i ==> (#[trigger] plan.predicates@[j])@.buildable(),
                    decreases n - i,
                {
                    if !plan.predicates[i].is_buildable() {
                        let ghost ps = predicates_view(plan.predicates@);
                        assert(ps[i as int] == plan.predicates@[i as int]@);
                        assert(!ps[i as int].buildable());
                        let ghost whole = plan_of(conditions_view(self.conditions@), self.how@);
                        assert(whole matches Ok(pl) && pl.1 == ps);
                        assert(!plan_buildable(conditions_view(self.conditions@), self.how@));
                        return None;
                    }
                    i = i + 1;
                }
                assert forall|j: int| 0 <= j < predicates_view(plan.predicates@).len() implies (
                #[trigger] predicates_view(plan.predicates@)[j]).buildable() by {
                    assert(predicates_view(plan.predicates@)[j] == plan.predicates@[j]@);
                }
            },
            Err(_) => {
                if self.chunk_size == 0 && self.current_chunk == usize::MAX && rows > 0 {
                    return None;
                }
            },
        }
        Some(self.next_joined(float_lit))
    }
}

} // verus!
