//! What holds of every generation pass.

use vstd::prelude::*;
use crate::classify::{
    call_arg_of, call_args, env_count, failure_at, failures, failures_upto, is_env_type,
    is_forwarded, is_unsupported,
};
use crate::client::{all_failures, all_failures_upto, generated, variant_at};
use crate::emit::stub_name;
use crate::output::{outcome_type, unwrapping_type};
use crate::model::{CallArgView, GeneratedView, MethodView, ParamView, TypeView};
use crate::render::{marshal_text, marshal_text_upto, params_text, params_text_upto};

verus! {

/// Where no parameter fails, the pass yields a client with exactly two
/// methods for each interface method, side by side: at the even place the
/// unwrapping variant under the method's name, at the odd place the outcome
/// variant under that name behind `try_`. Both are dispatched under the
/// method's name and take its parameter list without a leading environment
/// handle and without receivers.
pub proof fn lemma_two_methods_per_method(
    crate_path: Seq<char>,
    ty_literal: Seq<char>,
    name: Seq<char>,
    fns: Seq<MethodView>,
)
    requires
        all_failures(fns).len() == 0,
    ensures
        match generated(crate_path, ty_literal, name, fns) {
            GeneratedView::Client(c) => {
                &&& c.methods.len() == 2 * fns.len()
                &&& forall|k: int|
                    0 <= k < c.methods.len() ==> {
                        &&& (#[trigger] c.methods[k]).variant == variant_at(k)
                        &&& c.methods[k].name == stub_name(variant_at(k), fns[k / 2].name)
                        &&& c.methods[k].target == fns[k / 2].name
                        &&& c.methods[k].args == call_args(fns[k / 2].inputs)
                    }
            },
            GeneratedView::Rejected(_) => false,
        },
{
}

/// Whether a type names the environment handle is decided by the final
/// segment of its path alone: two paths that end in the same segment are
/// told alike, whatever stands before it, and a type that is no path never
/// names it.
pub proof fn lemma_env_rule_reads_final_segment(a: TypeView, b: TypeView)
    ensures
        (a matches TypeView::Path { segments: sa, .. } && b matches TypeView::Path {
            segments: sb,
            ..
        } && sa.len() > 0 && sb.len() > 0 && sa.last() == sb.last()) ==> is_env_type(a)
            == is_env_type(b),
        a matches TypeView::Path { segments, .. } ==> (is_env_type(a) <==> segments.len() > 0
            && segments.last() == "Env"@),
        !(a is Path) ==> !is_env_type(a),
{
}

/// Filtering keeps the order: two items of the filtered sequence stand in
/// the same order in the sequence they were taken from.
proof fn lemma_filter_keeps_order<T>(s: Seq<T>, pred: spec_fn(T) -> bool, a: int, b: int)
    requires
        0 <= a < b < s.filter(pred).len(),
    ensures
        exists|p: int, q: int|
            0 <= p < q < s.len() && pred(s[p]) && pred(s[q]) && s[p] == s.filter(pred)[a] && s[q]
                == s.filter(pred)[b],
    decreases s.len(),
{
    if s.len() == 0 {
        s.lemma_filter_len(pred);
    } else {
        let t = s.drop_last();
        let x = s.last();
        assert(s =~= t.push(x));
        t.lemma_filter_push(x, pred);
        let ft = t.filter(pred);
        if b < ft.len() {
            lemma_filter_keeps_order(t, pred, a, b);
            let (p, q) = choose|p: int, q: int|
                0 <= p < q < t.len() && pred(t[p]) && pred(t[q]) && t[p] == ft[a] && t[q] == ft[b];
            assert(s[p] == t[p] && s[q] == t[q]);
        } else {
            assert(pred(x));
            assert(s.filter(pred) == ft.push(x));
            assert(b == ft.len());
            t.lemma_filter_pred(pred, a);
            assert(ft.contains(ft[a]));
            t.lemma_filter_contains_rev(pred, ft[a]);
            let p = choose|p: int| 0 <= p < t.len() && t[p] == ft[a];
            let q = s.len() - 1;
            assert(s[p] == t[p]);
            assert(0 <= p < q < s.len() && pred(s[p]) && pred(s[q]) && s[p] == s.filter(pred)[a]
                && s[q] == s.filter(pred)[b]);
        }
    }
}

/// The call arguments stand in the order of the declaration: of any two of
/// them, the earlier one comes from a forwarded parameter that stands
/// earlier in the parameter list, behind the environment handle.
pub proof fn lemma_call_args_keep_order(inputs: Seq<ParamView>, a: int, b: int)
    requires
        0 <= a < b < call_args(inputs).len(),
    ensures
        exists|p: int, q: int|
            env_count(inputs) <= p < q < inputs.len() && is_forwarded(inputs[p]) && is_forwarded(
                inputs[q],
            ) && call_args(inputs)[a] == call_arg_of(inputs[p]) && call_args(inputs)[b]
                == call_arg_of(inputs[q]),
{
    let start = env_count(inputs);
    let rest = inputs.skip(start);
    let keep = |p: ParamView| is_forwarded(p);
    lemma_filter_keeps_order(rest, keep, a, b);
    let (p0, q0) = choose|p: int, q: int|
        0 <= p < q < rest.len() && keep(rest[p]) && keep(rest[q]) && rest[p] == rest.filter(keep)[a]
            && rest[q] == rest.filter(keep)[b];
    let p = p0 + start;
    let q = q0 + start;
    assert(inputs[p] == rest[p0] && inputs[q] == rest[q0]);
    assert(env_count(inputs) <= p < q < inputs.len() && is_forwarded(inputs[p]) && is_forwarded(
        inputs[q],
    ) && call_args(inputs)[a] == call_arg_of(inputs[p]) && call_args(inputs)[b] == call_arg_of(
        inputs[q],
    ));
}

/// The text of the first `n` call arguments does not depend on what follows
/// them.
proof fn lemma_texts_read_a_prefix(args: Seq<CallArgView>, more: Seq<CallArgView>, n: int)
    requires
        0 <= n <= args.len(),
    ensures
        params_text_upto(args + more, n) == params_text_upto(args, n),
        marshal_text_upto(args + more, n) == marshal_text_upto(args, n),
    decreases n,
{
    if n > 0 {
        lemma_texts_read_a_prefix(args, more, n - 1);
        assert((args + more)[n - 1] == args[n - 1]);
    }
}

/// The list of dynamic values handed to the host follows the parameter list:
/// one more call argument at the end adds its parameter at the end of the
/// signature and its value at the end of that list, and leaves what stands
/// before untouched.
pub proof fn lemma_marshalling_follows_parameters(args: Seq<CallArgView>, last: CallArgView)
    ensures
        params_text(args.push(last)) == params_text(args) + ", "@ + last.name + ": "@ + last.ty,
        marshal_text(args.push(last)) == marshal_text(args) + ", "@ + last.name
            + ".into_val(&self.env)"@,
{
    assert(args.push(last) =~= args + seq![last]);
    lemma_texts_read_a_prefix(args, seq![last], args.len() as int);
}

/// A method without a declared return type has the outcome type of one that
/// declares the unit type: the outcome variant is defined for it as for any
/// other, over the unit type.
pub proof fn lemma_outcome_of_no_value(crate_path: Seq<char>)
    ensures
        unwrapping_type(None) == "()"@,
        outcome_type(crate_path, None) == outcome_type(crate_path, Some("()"@)),
        outcome_type(crate_path, None) == crate_path + "::InvocationOutcome<"@ + "()"@ + ", "@
            + crate_path + "::HostError, "@ + crate_path + "::ConversionError>"@,
{
}

/// The number of unsupported parameters among those before index `n` that
/// stand behind the environment handle.
pub open spec fn unsupported_upto(inputs: Seq<ParamView>, n: int) -> nat
    decreases n,
{
    if n <= env_count(inputs) || n > inputs.len() {
        0
    } else if is_unsupported(inputs[n - 1]) {
        unsupported_upto(inputs, n - 1) + 1
    } else {
        unsupported_upto(inputs, n - 1)
    }
}

/// The number of unsupported parameters in the first `n` methods.
pub open spec fn unsupported_in(fns: Seq<MethodView>, n: int) -> nat
    decreases n,
{
    if n <= 0 || n > fns.len() {
        0
    } else {
        unsupported_in(fns, n - 1) + unsupported_upto(
            fns[n - 1].inputs,
            fns[n - 1].inputs.len() as int,
        )
    }
}

/// A method has one diagnostic for each unsupported parameter, and each
/// such parameter has its own, at its position.
pub proof fn lemma_one_failure_per_parameter(inputs: Seq<ParamView>, method: usize, n: int)
    requires
        0 <= n <= inputs.len(),
    ensures
        failures_upto(inputs, method, n).len() == unsupported_upto(inputs, n),
        forall|j: int|
            env_count(inputs) <= j < n && is_unsupported(#[trigger] inputs[j]) ==> failures_upto(
                inputs,
                method,
                n,
            ).contains(failure_at(method, j)),
    decreases n,
{
    if n > env_count(inputs) {
        lemma_one_failure_per_parameter(inputs, method, n - 1);
        let before = failures_upto(inputs, method, n - 1);
        let now = failures_upto(inputs, method, n);
        assert forall|j: int|
            env_count(inputs) <= j < n && is_unsupported(#[trigger] inputs[j]) implies now.contains(
            failure_at(method, j),
        ) by {
            if j < n - 1 {
                let k = choose|k: int| 0 <= k < before.len() && before[k] == failure_at(method, j);
                assert(now[k] == failure_at(method, j));
            } else {
                assert(now[now.len() - 1] == failure_at(method, j));
            }
        }
    }
}

/// The diagnostics of the first `n` methods are as many as their
/// unsupported parameters, and hold those of each of these methods.
pub proof fn lemma_failures_of_all_methods(fns: Seq<MethodView>, n: int)
    requires
        0 <= n <= fns.len(),
    ensures
        all_failures_upto(fns, n).len() == unsupported_in(fns, n),
        forall|i: int, k: int|
            0 <= i < n && 0 <= k < failures(fns[i].inputs, i as usize).len()
                ==> all_failures_upto(fns, n).contains(
                #[trigger] failures(fns[i].inputs, i as usize)[k],
            ),
    decreases n,
{
    if n > 0 {
        lemma_failures_of_all_methods(fns, n - 1);
        let before = all_failures_upto(fns, n - 1);
        let last = failures(fns[n - 1].inputs, (n - 1) as usize);
        let now = all_failures_upto(fns, n);
        lemma_one_failure_per_parameter(
            fns[n - 1].inputs,
            (n - 1) as usize,
            fns[n - 1].inputs.len() as int,
        );
        assert forall|i: int, k: int|
            0 <= i < n && 0 <= k < failures(fns[i].inputs, i as usize).len() implies now.contains(
            #[trigger] failures(fns[i].inputs, i as usize)[k],
        ) by {
            let d = failures(fns[i].inputs, i as usize)[k];
            if i < n - 1 {
                let at = choose|at: int| 0 <= at < before.len() && before[at] == d;
                assert(now[at] == d);
            } else {
                assert(now[before.len() + k] == d);
            }
        }
    }
}

/// If any parameter of any method is unsupported, the pass yields no client
/// at all: it yields the diagnostics, as many as there are unsupported
/// parameters in the whole interface, the one for that parameter among them.
pub proof fn lemma_any_failure_rejects(
    crate_path: Seq<char>,
    ty_literal: Seq<char>,
    name: Seq<char>,
    fns: Seq<MethodView>,
    i: int,
    j: int,
)
    requires
        0 <= i < fns.len(),
        fns.len() <= usize::MAX,
        env_count(fns[i].inputs) <= j < fns[i].inputs.len(),
        is_unsupported(fns[i].inputs[j]),
    ensures
        match generated(crate_path, ty_literal, name, fns) {
            GeneratedView::Rejected(diags) => {
                &&& diags.len() == unsupported_in(fns, fns.len() as int)
                &&& diags.len() > 0
                &&& diags.contains(failure_at(i as usize, j))
            },
            GeneratedView::Client(_) => false,
        },
{
    let inputs = fns[i].inputs;
    lemma_failures_of_all_methods(fns, fns.len() as int);
    lemma_one_failure_per_parameter(inputs, i as usize, inputs.len() as int);
    let own = failures(inputs, i as usize);
    let k = choose|k: int| 0 <= k < own.len() && own[k] == failure_at(i as usize, j);
    assert(all_failures(fns).contains(own[k]));
}

} // verus!
