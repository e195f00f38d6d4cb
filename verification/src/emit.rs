//! The method emitter: the pair of client methods derived from one interface
//! method.

use vstd::prelude::*;
use vstd::string::StringExecFns;
use crate::classify::{call_args, call_arguments, failures};
use crate::model::{
    call_arg_views, diagnostic_views, texts, CallArg, CallArgView, Diagnostic, Method, MethodStub,
    MethodStubView, MethodView, Variant,
};
use crate::output::{outcome_type, try_output, unwrapping_output, unwrapping_type};

verus! {

/// The name of a generated method: the interface method's name for the
/// unwrapping variant, and that name behind `try_` for the outcome variant.
pub open spec fn stub_name(variant: Variant, name: Seq<char>) -> Seq<char> {
    match variant {
        Variant::Unwrapping => name,
        Variant::Outcome => "try_"@ + name,
    }
}

/// The return type of a generated method.
pub open spec fn stub_output(crate_path: Seq<char>, variant: Variant, output: Option<Seq<char>>) -> Seq<
    char,
> {
    match variant {
        Variant::Unwrapping => unwrapping_type(output),
        Variant::Outcome => outcome_type(crate_path, output),
    }
}

/// The method that one variant of an interface method becomes over the call
/// arguments `args`: it is dispatched under the interface method's name and
/// carries its annotations.
pub open spec fn stub_with(
    crate_path: Seq<char>,
    m: MethodView,
    variant: Variant,
    args: Seq<CallArgView>,
) -> MethodStubView {
    MethodStubView {
        variant,
        name: stub_name(variant, m.name),
        target: m.name,
        args,
        output: stub_output(crate_path, variant, m.output),
        attrs: m.attrs,
    }
}

/// The method that one variant of an interface method becomes: it takes the
/// interface method's call arguments.
pub open spec fn stub_of(crate_path: Seq<char>, m: MethodView, variant: Variant) -> MethodStubView {
    stub_with(crate_path, m, variant, call_args(m.inputs))
}

/// A copy of a list of strings.
fn clone_texts(v: &Vec<String>) -> (copy: Vec<String>)
    ensures
        texts(copy@) == texts(v@),
{
    let mut copy: Vec<String> = Vec::new();
    let mut i: usize = 0;
    while i < v.len()
        invariant
            i <= v.len(),
            copy@.len() == i,
            forall|k: int| 0 <= k < i ==> copy@[k]@ == v@[k]@,
        decreases v.len() - i,
    {
        copy.push(v[i].clone());
        i = i + 1;
    }
    proof {
        assert(texts(copy@) =~= texts(v@));
    }
    copy
}

/// A copy of a list of call arguments.
fn clone_args(v: &Vec<CallArg>) -> (copy: Vec<CallArg>)
    ensures
        call_arg_views(copy@) == call_arg_views(v@),
{
    let mut copy: Vec<CallArg> = Vec::new();
    let mut i: usize = 0;
    while i < v.len()
        invariant
            i <= v.len(),
            copy@.len() == i,
            forall|k: int| 0 <= k < i ==> copy@[k]@ == v@[k]@,
        decreases v.len() - i,
    {
        copy.push(CallArg { name: v[i].name.clone(), ty: v[i].ty.clone() });
        i = i + 1;
    }
    proof {
        assert(call_arg_views(copy@) =~= call_arg_views(v@));
    }
    copy
}

/// Emits one variant of an interface method over the call arguments `args`.
pub fn emit_method(crate_path: &str, m: &Method, variant: Variant, args: Vec<CallArg>) -> (stub:
    MethodStub)
    ensures
        stub@ == stub_with(crate_path@, m@, variant, call_arg_views(args@)),
{
    let name = match variant {
        Variant::Unwrapping => m.name.clone(),
        Variant::Outcome => String::from_str("try_").concat(m.name.as_str()),
    };
    let output = match variant {
        Variant::Unwrapping => unwrapping_output(&m.output),
        Variant::Outcome => try_output(crate_path, &m.output),
    };
    MethodStub {
        variant,
        name,
        target: m.name.clone(),
        args,
        output,
        attrs: clone_texts(&m.attrs),
    }
}

/// Emits the two client methods for the interface method at index `method`:
/// the unwrapping variant first, then the outcome variant. Both take the same
/// call arguments. Appends to `diags` one diagnostic for each parameter that
/// cannot be compiled.
pub fn emit_pair(crate_path: &str, method: usize, m: &Method, diags: &mut Vec<Diagnostic>) -> (pair:
    (MethodStub, MethodStub))
    ensures
        pair.0@ == stub_of(crate_path@, m@, Variant::Unwrapping),
        pair.1@ == stub_of(crate_path@, m@, Variant::Outcome),
        pair.0@.args == pair.1@.args,
        diagnostic_views(final(diags)@) == diagnostic_views(old(diags)@) + failures(
            m@.inputs,
            method,
        ),
{
    let args = call_arguments(method, &m.inputs, diags);
    let again = clone_args(&args);
    let plain = emit_method(crate_path, m, Variant::Unwrapping, args);
    let outcome = emit_method(crate_path, m, Variant::Outcome, again);
    (plain, outcome)
}

} // verus!
