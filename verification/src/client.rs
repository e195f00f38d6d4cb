//! The client assembler and the diagnostic collector: the whole generation
//! pass over one interface declaration.

use vstd::prelude::*;
use vstd::string::StringExecFns;
use crate::classify::failures;
use crate::emit::{emit_pair, stub_of};
use crate::literal::{string_literal, string_literal_text};
use crate::model::{
    diagnostic_views, methods, stub_views, ClientDef, ClientDefView, Diagnostic, DiagnosticView,
    Generated, GeneratedView, Method, MethodStub, MethodStubView, MethodView, Variant,
};

verus! {

/// The variant at place `k` of the generated methods: the unwrapping variant
/// at the even places, the outcome variant at the odd ones.
pub open spec fn variant_at(k: int) -> Variant {
    if k % 2 == 0 {
        Variant::Unwrapping
    } else {
        Variant::Outcome
    }
}

/// The generated methods of the first `n` interface methods: two for each, in
/// the order of the declaration.
pub open spec fn stubs_upto(crate_path: Seq<char>, fns: Seq<MethodView>, n: int) -> Seq<
    MethodStubView,
> {
    Seq::new((2 * n) as nat, |k: int| stub_of(crate_path, fns[k / 2], variant_at(k)))
}

/// The generated methods of an interface.
pub open spec fn stubs(crate_path: Seq<char>, fns: Seq<MethodView>) -> Seq<MethodStubView> {
    stubs_upto(crate_path, fns, fns.len() as int)
}

/// The diagnostics of the first `n` interface methods, method by method.
pub open spec fn all_failures_upto(fns: Seq<MethodView>, n: int) -> Seq<DiagnosticView>
    decreases n,
{
    if n <= 0 || n > fns.len() {
        Seq::empty()
    } else {
        all_failures_upto(fns, n - 1) + failures(fns[n - 1].inputs, (n - 1) as usize)
    }
}

/// The diagnostics of an interface.
pub open spec fn all_failures(fns: Seq<MethodView>) -> Seq<DiagnosticView> {
    all_failures_upto(fns, fns.len() as int)
}

/// The client's documentation line, over the literal that names the
/// interface's source type.
pub open spec fn client_doc(name: Seq<char>, ty_literal: Seq<char>) -> Seq<char> {
    name + " is a client for calling the contract defined in "@ + ty_literal + "."@
}

/// What a generation pass yields: the client with every generated method if
/// no parameter fails, else every diagnostic and no client.
pub open spec fn generated(
    crate_path: Seq<char>,
    ty_literal: Seq<char>,
    name: Seq<char>,
    fns: Seq<MethodView>,
) -> GeneratedView {
    if all_failures(fns).len() > 0 {
        GeneratedView::Rejected(all_failures(fns))
    } else {
        GeneratedView::Client(
            ClientDefView {
                name,
                doc: client_doc(name, ty_literal),
                crate_path,
                methods: stubs(crate_path, fns),
            },
        )
    }
}

/// Runs the generation pass over an interface whose source type is already
/// written as a string literal.
pub fn assemble_client(crate_path: &str, ty_literal: &str, name: &str, fns: &Vec<Method>) -> (out:
    Generated)
    ensures
        out@ == generated(crate_path@, ty_literal@, name@, methods(fns@)),
{
    let ghost ms = methods(fns@);
    let mut diags: Vec<Diagnostic> = Vec::new();
    let mut emitted: Vec<MethodStub> = Vec::new();
    let mut i: usize = 0;
    proof {
        assert(stub_views(emitted@) =~= stubs_upto(crate_path@, ms, 0));
        assert(diagnostic_views(diags@) =~= all_failures_upto(ms, 0));
    }
    while i < fns.len()
        invariant
            ms == methods(fns@),
            i <= fns.len(),
            stub_views(emitted@) == stubs_upto(crate_path@, ms, i as int),
            diagnostic_views(diags@) == all_failures_upto(ms, i as int),
        decreases fns.len() - i,
    {
        let ghost before = emitted@;
        let pair = emit_pair(crate_path, i, &fns[i], &mut diags);
        emitted.push(pair.0);
        emitted.push(pair.1);
        i = i + 1;
        proof {
            assert(ms[i - 1] == fns@[i - 1]@);
            assert(stub_views(emitted@) =~= stub_views(before).push(pair.0@).push(pair.1@));
            assert(stub_views(emitted@) =~= stubs_upto(crate_path@, ms, i as int));
        }
    }
    if diags.len() > 0 {
        Generated::Rejected(diags)
    } else {
        let mut doc = String::from_str(name);
        doc.append(" is a client for calling the contract defined in ");
        doc.append(ty_literal);
        doc.append(".");
        Generated::Client(
            ClientDef {
                name: String::from_str(name),
                doc,
                crate_path: String::from_str(crate_path),
                methods: emitted,
            },
        )
    }
}

/// Generates the client for the interface `fns`, declared on the source type
/// `ty`: a client named `name` that names the host's items under
/// `crate_path`, or the diagnostics of every parameter that cannot be
/// compiled.
pub fn derive_client(crate_path: &str, ty: &str, name: &str, fns: &Vec<Method>) -> (out: Generated)
    ensures
        out@ == generated(crate_path@, string_literal_text(ty@), name@, methods(fns@)),
{
    let ty_literal = string_literal(ty);
    assemble_client(crate_path, ty_literal.as_str(), name, fns)
}

} // verus!
