//! The signature classifier and the reference rewriter: which parameters of a
//! method are forwarded to the host, under which names and types, and which
//! cannot be compiled.

use vstd::prelude::*;
use vstd::string::StringExecFns;
use crate::model::{
    call_arg_views, diagnostic_views, params, CallArg, CallArgView, Diagnostic, DiagnosticView,
    Param, ParamView, Position, TypeExpr, TypeView,
};

verus! {

/// A type names the environment handle iff it is a path whose final segment
/// is the identifier `Env`.
pub open spec fn is_env_type(t: TypeView) -> bool {
    match t {
        TypeView::Path { segments, .. } => segments.len() > 0 && segments.last() == "Env"@,
        _ => false,
    }
}

/// A parameter is an environment handle iff it is no receiver and its type
/// names the environment handle.
pub open spec fn is_env_param(p: ParamView) -> bool {
    match p {
        ParamView::Receiver => false,
        ParamView::Named { ty, .. } => is_env_type(ty),
        ParamView::Pattern { ty } => is_env_type(ty),
    }
}

/// The number of leading parameters taken as the environment handle: one if
/// the first parameter is one, else none.
pub open spec fn env_count(inputs: Seq<ParamView>) -> int {
    if inputs.len() > 0 && is_env_param(inputs[0]) {
        1
    } else {
        0
    }
}

/// Every parameter but a receiver is forwarded.
pub open spec fn is_forwarded(p: ParamView) -> bool {
    !(p is Receiver)
}

/// A parameter fails to compile iff it is bound by a pattern that is no
/// plain name.
pub open spec fn is_unsupported(p: ParamView) -> bool {
    p is Pattern
}

/// The type under which a generated method takes a parameter declared with
/// type `t`: `t` itself if it is a reference, else a reference to it.
pub open spec fn reference_text(t: TypeView) -> Seq<char> {
    match t {
        TypeView::Reference { text } => text,
        _ => "&"@ + t.text(),
    }
}

/// The call argument that a forwarded parameter becomes. A parameter without
/// a plain name gets the empty name.
pub open spec fn call_arg_of(p: ParamView) -> CallArgView {
    match p {
        ParamView::Named { name, ty } => CallArgView { name, ty: reference_text(ty) },
        ParamView::Pattern { ty } => CallArgView { name: Seq::empty(), ty: reference_text(ty) },
        ParamView::Receiver => CallArgView { name: Seq::empty(), ty: Seq::empty() },
    }
}

/// The call arguments made of the parameters before index `n`.
pub open spec fn call_args_upto(inputs: Seq<ParamView>, n: int) -> Seq<CallArgView> {
    inputs.subrange(env_count(inputs), n).filter(|p: ParamView| is_forwarded(p)).map_values(
        |p: ParamView| call_arg_of(p),
    )
}

/// The call arguments of a parameter list: the list without a leading
/// environment handle and without receivers, in the order of the declaration.
pub open spec fn call_args(inputs: Seq<ParamView>) -> Seq<CallArgView> {
    inputs.skip(env_count(inputs)).filter(|p: ParamView| is_forwarded(p)).map_values(
        |p: ParamView| call_arg_of(p),
    )
}

/// The message that every diagnostic carries.
pub open spec fn unsupported_message() -> Seq<char> {
    "argument not supported"@
}

/// The diagnostic for the parameter at `param` of the method at `method`.
pub open spec fn failure_at(method: usize, param: int) -> DiagnosticView {
    DiagnosticView {
        position: Position { method, param: param as usize },
        message: unsupported_message(),
    }
}

/// The diagnostics for the parameters before index `n` of the method at
/// `method`: one for each unsupported parameter behind the environment
/// handle, in the order of the declaration.
pub open spec fn failures_upto(inputs: Seq<ParamView>, method: usize, n: int) -> Seq<
    DiagnosticView,
>
    decreases n,
{
    if n <= env_count(inputs) || n > inputs.len() {
        Seq::empty()
    } else if is_unsupported(inputs[n - 1]) {
        failures_upto(inputs, method, n - 1).push(failure_at(method, n - 1))
    } else {
        failures_upto(inputs, method, n - 1)
    }
}

/// The diagnostics of one method's whole parameter list.
pub open spec fn failures(inputs: Seq<ParamView>, method: usize) -> Seq<DiagnosticView> {
    failures_upto(inputs, method, inputs.len() as int)
}

/// Whether a string holds exactly the characters of `word`.
fn text_is(s: &String, word: &str) -> (same: bool)
    ensures
        same == (s@ == word@),
{
    let other = String::from_str(word);
    s.eq(&other)
}

/// Whether a type names the environment handle.
pub fn names_env(ty: &TypeExpr) -> (found: bool)
    ensures
        found == is_env_type(ty@),
{
    match ty {
        TypeExpr::Path { segments, .. } => {
            let n: usize = segments.len();
            if n == 0 {
                false
            } else {
                text_is(&segments[n - 1], "Env")
            }
        },
        _ => false,
    }
}

/// Whether a parameter list starts with an environment handle. Only the
/// first parameter is looked at.
pub fn has_env_param(inputs: &Vec<Param>) -> (found: bool)
    ensures
        found == (env_count(params(inputs@)) == 1),
{
    if inputs.len() == 0 {
        false
    } else {
        match &inputs[0] {
            Param::Receiver => false,
            Param::Named { ty, .. } => names_env(ty),
            Param::Pattern { ty } => names_env(ty),
        }
    }
}

/// The type as written in the declaration.
fn type_text(ty: &TypeExpr) -> (text: &String)
    ensures
        text@ == ty@.text(),
{
    match ty {
        TypeExpr::Path { text, .. } => text,
        TypeExpr::Reference { text } => text,
        TypeExpr::Other { text } => text,
    }
}

/// Rewrites a declared type into the form in which a generated method takes
/// the parameter: by reference, whatever the declaration said.
pub fn make_ref(ty: &TypeExpr) -> (text: String)
    ensures
        text@ == reference_text(ty@),
{
    match ty {
        TypeExpr::Reference { text } => text.clone(),
        _ => String::from_str("&").concat(type_text(ty).as_str()),
    }
}

/// Classifies the parameters of the method at index `method`. Returns the
/// call arguments in the order of the declaration, and appends to `diags`
/// one diagnostic for each parameter that has no plain name.
pub fn call_arguments(method: usize, inputs: &Vec<Param>, diags: &mut Vec<Diagnostic>) -> (args:
    Vec<CallArg>)
    ensures
        call_arg_views(args@) == call_args(params(inputs@)),
        diagnostic_views(final(diags)@) == diagnostic_views(old(diags)@) + failures(
            params(inputs@),
            method,
        ),
{
    let ghost ps = params(inputs@);
    let ghost before = diagnostic_views(diags@);
    let start: usize = if has_env_param(inputs) {
        1
    } else {
        0
    };
    let mut args: Vec<CallArg> = Vec::new();
    let mut i: usize = start;
    proof {
        assert(ps.subrange(start as int, start as int) =~= Seq::empty());
        assert(call_arg_views(args@) =~= call_args_upto(ps, i as int));
        assert(diagnostic_views(diags@) =~= before + failures_upto(ps, method, i as int));
    }
    while i < inputs.len()
        invariant
            ps == params(inputs@),
            start as int == env_count(ps),
            start <= i <= inputs.len(),
            call_arg_views(args@) == call_args_upto(ps, i as int),
            diagnostic_views(diags@) == before + failures_upto(ps, method, i as int),
        decreases inputs.len() - i,
    {
        let ghost old_args = args@;
        let ghost old_diags = diags@;
        let ghost pre = ps.subrange(start as int, i as int);
        let ghost keep = |p: ParamView| is_forwarded(p);
        let ghost conv = |p: ParamView| call_arg_of(p);
        proof {
            assert(ps[i as int] == inputs@[i as int]@);
            assert(ps.subrange(start as int, i + 1) =~= pre.push(ps[i as int]));
            pre.lemma_filter_push(ps[i as int], keep);
        }
        match &inputs[i] {
            Param::Receiver => {},
            Param::Named { name, ty } => {
                args.push(CallArg { name: name.clone(), ty: make_ref(ty) });
                proof {
                    assert(call_arg_views(args@) =~= call_arg_views(old_args).push(
                        call_arg_of(ps[i as int]),
                    ));
                    assert(pre.filter(keep).push(ps[i as int]).map_values(conv)
                        =~= pre.filter(keep).map_values(conv).push(call_arg_of(ps[i as int])));
                }
            },
            Param::Pattern { ty } => {
                diags.push(
                    Diagnostic {
                        position: Position { method, param: i },
                        message: String::from_str("argument not supported"),
                    },
                );
                args.push(CallArg { name: String::new(), ty: make_ref(ty) });
                proof {
                    assert(call_arg_views(args@) =~= call_arg_views(old_args).push(
                        call_arg_of(ps[i as int]),
                    ));
                    assert(pre.filter(keep).push(ps[i as int]).map_values(conv)
                        =~= pre.filter(keep).map_values(conv).push(call_arg_of(ps[i as int])));
                    assert(diagnostic_views(diags@) =~= diagnostic_views(old_diags).push(
                        failure_at(method, i as int),
                    ));
                }
            },
        }
        i = i + 1;
        proof {
            assert(call_arg_views(args@) == call_args_upto(ps, i as int));
            assert(diagnostic_views(diags@) =~= before + failures_upto(ps, method, i as int));
        }
    }
    proof {
        assert(ps.subrange(start as int, ps.len() as int) =~= ps.skip(start as int));
    }
    args
}

} // verus!
