//! The model-query protocol: what the binding layer decides when a model is
//! asked for interpretations, evaluated, or iterated.
//!
//! A model's contents live in the engine and are authoritative there; what is
//! verified here is every decision the layer makes around the engine's
//! answers — which query to make for a declaration of a given arity, what a
//! null answer means, how an as-array constant redirects to another
//! function's interpretation, and the order and count of iteration.

use vstd::prelude::*;
use crate::Handle;
use crate::handle::RefLedger;
use crate::handle::acquire_spec;

verus! {

/// Which question the engine is asked for a declaration's interpretation:
/// a zero-arity declaration is inspected through its constant value, a
/// positive-arity one has its tabulated interpretation fetched directly.
#[derive(Clone, Copy, Debug, PartialEq, Eq, Structural)]
pub enum InterpQuery {
    /// Ask for the declaration's constant interpretation.
    ConstValue,
    /// Ask for the declaration's tabulated function interpretation.
    FuncTable,
}

/// Where the zero-arity leg of an interpretation lookup goes next.
#[derive(Clone, Copy, Debug, PartialEq, Eq, Structural)]
pub enum AsArrayStep {
    /// The model holds no function interpretation reachable from here.
    Absent,
    /// The constant is an as-array value: resolution continues at the
    /// function declaration (given by its address) that defines the array.
    Follow(u64),
}

/// `translate` always succeeds on a well-formed model: the engine hands back
/// a non-null model living in the destination context, and the layer takes
/// one claim on it there. The result is tagged with the destination context,
/// which is what makes the translated model usable against expressions built
/// in that context.
pub fn translate_outcome(ledger: &mut RefLedger, dest_ctx: u64, translated_raw: u64) -> (h: Handle)
    requires
        old(ledger).wf(),
        translated_raw != 0,
        old(ledger)@.contains_key(translated_raw) ==> old(ledger)@[translated_raw] < u64::MAX,
    ensures
        final(ledger).wf(),
        h.wf(),
        h.ctx == dest_ctx,
        h.raw == translated_raw,
        final(ledger)@ == acquire_spec(old(ledger)@, translated_raw),
{
    let h = ledger.acquire(dest_ctx, translated_raw);
    h.unwrap()
}

/// How `functionInterpretation` consults the engine for a declaration of the
/// given arity.
pub fn interp_query_for(arity: u32) -> (q: InterpQuery)
    ensures
        q == InterpQuery::ConstValue <==> arity == 0,
{
    if arity == 0 {
        InterpQuery::ConstValue
    } else {
        InterpQuery::FuncTable
    }
}

/// The zero-arity leg of `functionInterpretation`: a constant resolves to a
/// function interpretation only through an as-array value — the declaration's
/// range must be an array sort and the interpreted constant an as-array
/// value; resolution then continues at the function declaration that defines
/// the array. The two flags are only consulted when the constant is present,
/// and `as_array_decl` only when both flags hold. The chain has no cycle
/// guard: whether it terminates rests on the engine never producing a
/// self-referential as-array value.
pub fn as_array_step(
    const_raw: u64,
    range_is_array: bool,
    is_as_array: bool,
    as_array_decl: u64,
) -> (r: AsArrayStep)
    ensures
        const_raw == 0 ==> r is Absent,
        const_raw != 0 && range_is_array && is_as_array ==> r == AsArrayStep::Follow(
            as_array_decl,
        ),
        const_raw != 0 && !(range_is_array && is_as_array) ==> r is Absent,
{
    if const_raw != 0 && range_is_array && is_as_array {
        AsArrayStep::Follow(as_array_decl)
    } else {
        AsArrayStep::Absent
    }
}

/// `constantInterpretation`: an expression whose own declaration cannot be
/// resolved has no interpretation. Otherwise the engine's answer for that
/// declaration decides (`fetched` carries it): null means the declaration is
/// free in the model — absent, with no count moved — and anything else is the
/// interpreted value, claimed once.
pub fn const_interp_outcome(
    ledger: &mut RefLedger,
    ctx: u64,
    decl_resolved: bool,
    fetched: Option<u64>,
) -> (r: Option<Handle>)
    requires
        old(ledger).wf(),
        decl_resolved ==> fetched is Some,
        decl_resolved ==> (fetched matches Some(raw) ==> (old(ledger)@.contains_key(raw)
            ==> old(ledger)@[raw] < u64::MAX)),
    ensures
        final(ledger).wf(),
        !decl_resolved ==> r is None && final(ledger)@ == old(ledger)@,
        decl_resolved ==> (fetched matches Some(raw) ==> {
            &&& raw == 0 ==> r is None && final(ledger)@ == old(ledger)@
            &&& raw != 0 ==> r == Some((Handle { ctx, raw })) && final(ledger)@ == acquire_spec(
                old(ledger)@,
                raw,
            )
        }),
{
    if !decl_resolved {
        None
    } else {
        let raw = match fetched {
            Some(raw) => raw,
            None => 0u64,
        };
        ledger.acquire(ctx, raw)
    }
}

/// `functionInterpretationAsConstant`: only a zero-arity declaration can have
/// a constant interpretation. For arity zero the engine is asked (`fetched`
/// carries its answer; null means the declaration is uninterpreted in the
/// model). For any positive arity the answer is absent no matter what the
/// model holds, the engine is not consulted, and no count moves.
pub fn func_interp_as_const_outcome(
    ledger: &mut RefLedger,
    ctx: u64,
    arity: u32,
    fetched: Option<u64>,
) -> (r: Option<Handle>)
    requires
        old(ledger).wf(),
        arity == 0 ==> fetched is Some,
        arity == 0 ==> (fetched matches Some(raw) ==> (old(ledger)@.contains_key(raw)
            ==> old(ledger)@[raw] < u64::MAX)),
    ensures
        final(ledger).wf(),
        arity != 0 ==> r is None && final(ledger)@ == old(ledger)@,
        arity == 0 ==> (fetched matches Some(raw) ==> {
            &&& raw == 0 ==> r is None && final(ledger)@ == old(ledger)@
            &&& raw != 0 ==> r == Some((Handle { ctx, raw })) && final(ledger)@ == acquire_spec(
                old(ledger)@,
                raw,
            )
        }),
{
    if arity != 0 {
        None
    } else {
        let raw = match fetched {
            Some(raw) => raw,
            None => 0u64,
        };
        ledger.acquire(ctx, raw)
    }
}

/// `evaluate`: the engine reports whether evaluation succeeded and, when it
/// did, the resulting expression. A failure (an unassigned declaration with
/// completion off, or an engine error) is an absent value; success wraps the
/// result with one claim. Neither the model nor the evaluated expression is
/// touched. When completion is on, whether every well-typed closed expression
/// evaluates rests on the engine; this layer faithfully surfaces its report.
pub fn eval_outcome(ledger: &mut RefLedger, ctx: u64, succeeded: bool, out_raw: u64) -> (r: Option<
    Handle,
>)
    requires
        old(ledger).wf(),
        succeeded ==> out_raw != 0,
        succeeded ==> (old(ledger)@.contains_key(out_raw) ==> old(ledger)@[out_raw] < u64::MAX),
    ensures
        final(ledger).wf(),
        !succeeded ==> r is None && final(ledger)@ == old(ledger)@,
        succeeded ==> r == Some((Handle { ctx, raw: out_raw })) && final(ledger)@ == acquire_spec(
            old(ledger)@,
            out_raw,
        ),
{
    if succeeded {
        ledger.acquire(ctx, out_raw)
    } else {
        None
    }
}

/// Which slot of a model a declaration occupies: constants and functions are
/// numbered separately by the engine, constants coming first in iteration.
#[derive(Clone, Copy, Debug, PartialEq, Eq, Structural)]
pub enum DeclIndex {
    /// The `i`-th constant declaration of the model.
    Constant(u32),
    /// The `i`-th function declaration of the model.
    Function(u32),
}

/// The number of declarations a model holds: its constant declarations and
/// its function declarations together.
pub fn model_len(num_consts: u32, num_funcs: u32) -> (n: u32)
    requires
        num_consts + num_funcs <= u32::MAX,
    ensures
        n == num_consts + num_funcs,
{
    num_consts + num_funcs
}

/// The order in which a model's declarations are iterated: every constant
/// declaration in engine order, then every function declaration in engine
/// order.
pub open spec fn decl_order(num_consts: u32, num_funcs: u32) -> Seq<DeclIndex> {
    Seq::new(num_consts as nat, |i: int| DeclIndex::Constant(i as u32)) + Seq::new(
        num_funcs as nat,
        |i: int| DeclIndex::Function(i as u32),
    )
}

/// Law: an iteration over a model reporting `num_consts` constant and
/// `num_funcs` function declarations yields exactly `num_consts + num_funcs`
/// items; every slot below `num_consts` is a constant, in rising engine
/// order, and every slot from `num_consts` on is a function, in rising engine
/// order — constants always precede functions.
pub proof fn lemma_decl_order_shape(num_consts: u32, num_funcs: u32)
    ensures
        decl_order(num_consts, num_funcs).len() == num_consts + num_funcs,
        forall|i: int|
            0 <= i < num_consts ==> decl_order(num_consts, num_funcs)[i] == DeclIndex::Constant(
                i as u32,
            ),
        forall|i: int|
            num_consts <= i < num_consts + num_funcs ==> decl_order(num_consts, num_funcs)[i]
                == DeclIndex::Function((i - num_consts) as u32),
{
}

/// Iteration state over a model's declarations. The counts are captured once,
/// when iteration starts: the length of the iteration is fixed at that moment
/// even if the model would answer differently when queried again later.
pub struct ModelIter {
    idx: u32,
    num_consts: u32,
    len: u32,
}

impl ModelIter {
    /// The counts captured at the start and the position stay consistent.
    pub closed spec fn wf(self) -> bool {
        self.idx <= self.len && self.num_consts <= self.len
    }

    /// How many items this iteration yields in total.
    pub closed spec fn spec_len(self) -> u32 {
        self.len
    }

    /// How many constant declarations the model reported at the start.
    pub closed spec fn spec_num_consts(self) -> u32 {
        self.num_consts
    }

    /// The position of the next item to yield.
    pub closed spec fn spec_idx(self) -> u32 {
        self.idx
    }

    /// Starts an iteration over a model that reports `num_consts` constant
    /// and `num_funcs` function declarations. Both counts are fixed here,
    /// for the whole lifetime of the iteration.
    pub fn new(num_consts: u32, num_funcs: u32) -> (it: ModelIter)
        requires
            num_consts + num_funcs <= u32::MAX,
        ensures
            it.wf(),
            it.spec_idx() == 0,
            it.spec_num_consts() == num_consts,
            it.spec_len() == num_consts + num_funcs,
    {
        ModelIter { idx: 0, num_consts, len: num_consts + num_funcs }
    }

    /// How many items remain to be yielded.
    pub fn remaining(&self) -> (n: u32)
        requires
            self.wf(),
        ensures
            n == self.spec_len() - self.spec_idx(),
    {
        self.len - self.idx
    }

    /// The next declaration slot to fetch from the engine, or nothing when
    /// the iteration is spent: first the constants, by rising engine index,
    /// then the functions, by rising engine index.
    pub fn next(&mut self) -> (r: Option<DeclIndex>)
        requires
            old(self).wf(),
        ensures
            final(self).wf(),
            final(self).spec_len() == old(self).spec_len(),
            final(self).spec_num_consts() == old(self).spec_num_consts(),
            old(self).spec_idx() == old(self).spec_len() ==> r is None && final(self).spec_idx()
                == old(self).spec_idx(),
            old(self).spec_idx() < old(self).spec_len() ==> {
                &&& final(self).spec_idx() == old(self).spec_idx() + 1
                &&& r == Some(decl_order(old(self).spec_num_consts(), (old(self).spec_len()
                    - old(self).spec_num_consts()) as u32)[old(self).spec_idx() as int])
            },
    {
        if self.idx >= self.len {
            None
        } else {
            let i = self.idx;
            self.idx = i + 1;
            if i < self.num_consts {
                Some(DeclIndex::Constant(i))
            } else {
                Some(DeclIndex::Function(i - self.num_consts))
            }
        }
    }

    /// Runs a whole iteration: the result is exactly one slot per declaration
    /// the model reported at the start — all `num_consts` constants first,
    /// then all functions, each by rising index. The count is fixed when the
    /// iteration begins.
    pub fn collect_order(num_consts: u32, num_funcs: u32) -> (r: Vec<DeclIndex>)
        requires
            num_consts + num_funcs <= u32::MAX,
        ensures
            r@ == decl_order(num_consts, num_funcs),
            r@.len() == num_consts + num_funcs,
    {
        let mut it = ModelIter::new(num_consts, num_funcs);
        let mut out: Vec<DeclIndex> = Vec::new();
        loop
            invariant
                it.wf(),
                it.spec_num_consts() == num_consts,
                it.spec_len() == num_consts + num_funcs,
                out@.len() == it.spec_idx(),
                out@ == decl_order(num_consts, num_funcs).take(it.spec_idx() as int),
            ensures
                out@ == decl_order(num_consts, num_funcs),
            decreases it.spec_len() - it.spec_idx(),
        {
            match it.next() {
                None => {
                    proof {
                        assert(out@ =~= decl_order(num_consts, num_funcs));
                    }
                    break ;
                },
                Some(d) => {
                    out.push(d);
                    proof {
                        assert(out@ =~= decl_order(num_consts, num_funcs).take(
                            it.spec_idx() as int,
                        ));
                    }
                },
            }
        }
        out
    }
}

} // verus!
