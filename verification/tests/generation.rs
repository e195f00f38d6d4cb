use client_stubs::classify::{call_arguments, has_env_param, make_ref, names_env};
use client_stubs::client::{assemble_client, derive_client};
use client_stubs::emit::emit_pair;
use client_stubs::model::{
    CallArg, ClientDef, Diagnostic, Generated, Method, MethodStub, Param, Position, TypeExpr,
    Variant,
};
use client_stubs::output::{try_output, unwrapping_output};

fn path(text: &str) -> TypeExpr {
    TypeExpr::Path {
        segments: text.split("::").map(|s| s.to_string()).collect(),
        text: text.to_string(),
    }
}

fn named(name: &str, ty: TypeExpr) -> Param {
    Param::Named { name: name.to_string(), ty }
}

fn method(name: &str, inputs: Vec<Param>, output: Option<&str>) -> Method {
    Method { name: name.to_string(), inputs, output: output.map(|s| s.to_string()), attrs: vec![] }
}

fn client(out: Generated) -> ClientDef {
    match out {
        Generated::Client(c) => c,
        Generated::Rejected(d) => panic!("rejected with {} diagnostics", d.len()),
    }
}

fn rejected(out: Generated) -> Vec<Diagnostic> {
    match out {
        Generated::Rejected(d) => d,
        Generated::Client(c) => panic!("a client with {} methods", c.methods.len()),
    }
}

fn signature(stub: &MethodStub) -> String {
    let args: Vec<String> = stub.args.iter().map(|a| format!("{}: {}", a.name, a.ty)).collect();
    let mut all = vec!["&self".to_string()];
    all.extend(args);
    format!("{}({}) -> {}", stub.name, all.join(", "), stub.output)
}

fn pairs(args: &[CallArg]) -> Vec<(String, String)> {
    args.iter().map(|a| (a.name.clone(), a.ty.clone())).collect()
}

#[test]
fn transfer_with_env_yields_both_variants() {
    let fns = vec![method(
        "transfer",
        vec![named("env", path("Env")), named("to", path("Address")), named("amount", path("i128"))],
        Some("()"),
    )];
    let c = client(derive_client("soroban_sdk", "Token", "TokenClient", &fns));
    assert_eq!(c.methods.len(), 2);
    assert_eq!(signature(&c.methods[0]), "transfer(&self, to: &Address, amount: &i128) -> ()");
    assert_eq!(
        signature(&c.methods[1]),
        "try_transfer(&self, to: &Address, amount: &i128) -> \
         soroban_sdk::InvocationOutcome<(), soroban_sdk::HostError, soroban_sdk::ConversionError>"
    );
    assert_eq!(c.methods[0].variant, Variant::Unwrapping);
    assert_eq!(c.methods[1].variant, Variant::Outcome);
    assert_eq!(c.methods[0].target, "transfer");
    assert_eq!(c.methods[1].target, "transfer");
}

#[test]
fn balance_without_env_forwards_its_parameter() {
    let fns = vec![method("balance", vec![named("id", path("Address"))], Some("i128"))];
    let c = client(derive_client("soroban_sdk", "Token", "TokenClient", &fns));
    assert_eq!(c.methods.len(), 2);
    assert_eq!(signature(&c.methods[0]), "balance(&self, id: &Address) -> i128");
    assert_eq!(
        signature(&c.methods[1]),
        "try_balance(&self, id: &Address) -> \
         soroban_sdk::InvocationOutcome<i128, soroban_sdk::HostError, soroban_sdk::ConversionError>"
    );
}

#[test]
fn destructuring_parameter_yields_one_diagnostic_and_no_method() {
    let fns = vec![method(
        "pay",
        vec![named("env", path("Env")), Param::Pattern { ty: TypeExpr::Other { text: "(u32, u32)".to_string() } }],
        None,
    )];
    let d = rejected(derive_client("soroban_sdk", "Token", "TokenClient", &fns));
    assert_eq!(d.len(), 1);
    assert_eq!(d[0].position, Position { method: 0, param: 1 });
    assert_eq!(d[0].message, "argument not supported");
}

#[test]
fn every_failing_parameter_is_reported() {
    let pattern = || Param::Pattern { ty: path("Pair") };
    let fns = vec![
        method("a", vec![named("x", path("u32"))], None),
        method("b", vec![pattern(), named("y", path("u32")), pattern()], None),
        method("c", vec![named("e", path("Env")), pattern()], Some("u64")),
    ];
    let d = rejected(derive_client("sdk", "T", "TClient", &fns));
    let at: Vec<(usize, usize)> = d.iter().map(|x| (x.position.method, x.position.param)).collect();
    assert_eq!(at, vec![(1, 0), (1, 2), (2, 1)]);
    assert!(d.iter().all(|x| x.message == "argument not supported"));
}

#[test]
fn env_is_detected_by_final_segment_only() {
    assert!(names_env(&path("Env")));
    assert!(names_env(&path("foo::Env")));
    assert!(names_env(&path("a::b::Env")));
    assert!(!names_env(&path("Envelope")));
    assert!(!names_env(&path("Env::Inner")));
    assert!(!names_env(&path("env")));
    assert!(!names_env(&TypeExpr::Reference { text: "&Env".to_string() }));
    assert!(!names_env(&TypeExpr::Other { text: "(Env,)".to_string() }));
    assert!(!names_env(&TypeExpr::Path { segments: vec![], text: String::new() }));
}

#[test]
fn only_the_first_parameter_can_be_the_env() {
    assert!(has_env_param(&vec![named("e", path("foo::Env")), named("x", path("u32"))]));
    assert!(!has_env_param(&vec![named("x", path("u32")), named("e", path("Env"))]));
    assert!(!has_env_param(&vec![Param::Receiver, named("e", path("Env"))]));
    assert!(!has_env_param(&vec![]));
    assert!(has_env_param(&vec![Param::Pattern { ty: path("Env") }]));

    let mut diags = Vec::new();
    let inputs =
        vec![named("e", path("Env")), named("f", path("Env")), named("x", path("Envelope"))];
    let args = call_arguments(0, &inputs, &mut diags);
    assert_eq!(
        pairs(&args),
        vec![("f".to_string(), "&Env".to_string()), ("x".to_string(), "&Envelope".to_string())]
    );
    assert!(diags.is_empty());
}

#[test]
fn call_arguments_keep_source_order_and_drop_receivers() {
    let mut diags = Vec::new();
    let inputs = vec![
        Param::Receiver,
        named("c", path("u32")),
        named("a", TypeExpr::Reference { text: "&Bytes".to_string() }),
        named("b", TypeExpr::Other { text: "(u32, u64)".to_string() }),
    ];
    let args = call_arguments(3, &inputs, &mut diags);
    assert_eq!(
        pairs(&args),
        vec![
            ("c".to_string(), "&u32".to_string()),
            ("a".to_string(), "&Bytes".to_string()),
            ("b".to_string(), "&(u32, u64)".to_string()),
        ]
    );
    assert!(diags.is_empty());
}

#[test]
fn unnamed_parameter_gets_the_empty_name_and_generation_goes_on() {
    let mut diags = vec![Diagnostic {
        position: Position { method: 0, param: 0 },
        message: "argument not supported".to_string(),
    }];
    let inputs = vec![Param::Pattern { ty: path("Pair") }, named("x", path("u32"))];
    let args = call_arguments(4, &inputs, &mut diags);
    assert_eq!(
        pairs(&args),
        vec![(String::new(), "&Pair".to_string()), ("x".to_string(), "&u32".to_string())]
    );
    assert_eq!(diags.len(), 2);
    assert_eq!(diags[0].position, Position { method: 0, param: 0 });
    assert_eq!(diags[1].position, Position { method: 4, param: 0 });
}

#[test]
fn references_are_left_as_they_are() {
    assert_eq!(make_ref(&TypeExpr::Reference { text: "&'a mut T".to_string() }), "&'a mut T");
    assert_eq!(make_ref(&path("a::T")), "&a::T");
    assert_eq!(make_ref(&TypeExpr::Other { text: "[u8; 4]".to_string() }), "&[u8; 4]");
}

#[test]
fn output_types_of_both_variants() {
    assert_eq!(unwrapping_output(&None), "()");
    assert_eq!(unwrapping_output(&Some("Vec<u32>".to_string())), "Vec<u32>");
    assert_eq!(
        try_output("crate", &None),
        "crate::InvocationOutcome<(), crate::HostError, crate::ConversionError>"
    );
    assert_eq!(
        try_output("sdk", &Some("Vec<u32>".to_string())),
        "sdk::InvocationOutcome<Vec<u32>, sdk::HostError, sdk::ConversionError>"
    );
}

#[test]
fn two_methods_per_interface_method_in_order() {
    let fns = vec![
        method("first", vec![], None),
        method("second", vec![named("env", path("Env"))], Some("u32")),
        method("third", vec![Param::Receiver, named("x", path("u32"))], None),
    ];
    let c = client(derive_client("sdk", "T", "TClient", &fns));
    let names: Vec<&str> = c.methods.iter().map(|m| m.name.as_str()).collect();
    assert_eq!(names, vec!["first", "try_first", "second", "try_second", "third", "try_third"]);
    assert!(c.methods[2].args.is_empty());
    assert_eq!(pairs(&c.methods[4].args), vec![("x".to_string(), "&u32".to_string())]);
    assert_eq!(pairs(&c.methods[5].args), pairs(&c.methods[4].args));
}

#[test]
fn empty_interface_yields_a_client_without_methods() {
    let c = client(derive_client("sdk", "T", "TClient", &vec![]));
    assert!(c.methods.is_empty());
    assert_eq!(c.name, "TClient");
    assert_eq!(c.crate_path, "sdk");
}

#[test]
fn annotations_are_copied_onto_both_variants() {
    let mut m = method("f", vec![], None);
    m.attrs = vec!["#[doc = \"Does f.\"]".to_string(), "#[cfg(feature = \"x\")]".to_string()];
    let mut diags = Vec::new();
    let (plain, outcome) = emit_pair("sdk", 0, &m, &mut diags);
    assert_eq!(plain.attrs, m.attrs);
    assert_eq!(outcome.attrs, m.attrs);
    assert!(diags.is_empty());
}

#[test]
fn client_doc_names_the_source_type_as_a_literal() {
    let c = client(derive_client("sdk", "Token", "TokenClient", &vec![]));
    assert_eq!(c.doc, "TokenClient is a client for calling the contract defined in \"Token\".");
    let c = client(derive_client("sdk", "a\"b\\c", "C", &vec![]));
    assert_eq!(c.doc, "C is a client for calling the contract defined in \"a\\\"b\\\\c\".");
}

#[test]
fn assemble_takes_the_literal_as_given() {
    let c = client(assemble_client("sdk", "<Token>", "TokenClient", &vec![]));
    assert_eq!(c.doc, "TokenClient is a client for calling the contract defined in <Token>.");
}
