//! The generated client as source text.
//!
//! Each part of the text is stated once as a spec function and rendered by
//! the function beside it. Where the text holds a string literal (the
//! documentation line, the symbol of a method) the literal is written by the
//! token library.

use vstd::prelude::*;
use vstd::string::StringExecFns;
use crate::literal::{string_literal, string_literal_text};
use crate::model::{
    call_arg_views, diagnostic_views, stub_views, texts, CallArg, CallArgView, ClientDef,
    ClientDefView, Diagnostic, Generated, GeneratedView, MethodStub, MethodStubView, Variant,
};

verus! {

/// The client type: its documentation line, given as a string literal, the
/// environment handle and the contract's identity, and, in test
/// configurations only, the three override fields. The ordinary configuration
/// carries a marker without size in their place.
pub open spec fn struct_text(crate_path: Seq<char>, name: Seq<char>, doc_literal: Seq<char>) -> Seq<char> {
    "#[doc = "@
        + doc_literal
        + "]\n"@
        + "pub struct "@
        + name
        + "<'a> {\n"@
        + "    pub env: "@
        + crate_path
        + "::Env,\n"@
        + "    pub contract_id: "@
        + crate_path
        + "::BytesN<32>,\n"@
        + "    #[doc(hidden)]\n"@
        + "    #[cfg(not(any(test, feature = \"testutils\")))]\n"@
        + "    _phantom: core::marker::PhantomData<&'a ()>,\n"@
        + "    #[doc(hidden)]\n"@
        + "    #[cfg(any(test, feature = \"testutils\"))]\n"@
        + "    set_auths: Option<&'a ["@
        + crate_path
        + "::xdr::ContractAuth]>,\n"@
        + "    #[doc(hidden)]\n"@
        + "    #[cfg(any(test, feature = \"testutils\"))]\n"@
        + "    mock_auths: Option<&'a ["@
        + crate_path
        + "::testutils::MockAuth<'a>]>,\n"@
        + "    #[doc(hidden)]\n"@
        + "    #[cfg(any(test, feature = \"testutils\"))]\n"@
        + "    mock_all_auths: bool,\n"@
        + "}\n"@
}

/// Renders the client type.
pub fn render_struct(crate_path: &str, name: &str, doc_literal: &str) -> (text: String)
    ensures
        text@ == struct_text(crate_path@, name@, doc_literal@),
{
    let mut text = String::from_str("#[doc = ");
    text.append(doc_literal);
    text.append("]\n");
    text.append("pub struct ");
    text.append(name);
    text.append("<'a> {\n");
    text.append("    pub env: ");
    text.append(crate_path);
    text.append("::Env,\n");
    text.append("    pub contract_id: ");
    text.append(crate_path);
    text.append("::BytesN<32>,\n");
    text.append("    #[doc(hidden)]\n");
    text.append("    #[cfg(not(any(test, feature = \"testutils\")))]\n");
    text.append("    _phantom: core::marker::PhantomData<&'a ()>,\n");
    text.append("    #[doc(hidden)]\n");
    text.append("    #[cfg(any(test, feature = \"testutils\"))]\n");
    text.append("    set_auths: Option<&'a [");
    text.append(crate_path);
    text.append("::xdr::ContractAuth]>,\n");
    text.append("    #[doc(hidden)]\n");
    text.append("    #[cfg(any(test, feature = \"testutils\"))]\n");
    text.append("    mock_auths: Option<&'a [");
    text.append(crate_path);
    text.append("::testutils::MockAuth<'a>]>,\n");
    text.append("    #[doc(hidden)]\n");
    text.append("    #[cfg(any(test, feature = \"testutils\"))]\n");
    text.append("    mock_all_auths: bool,\n");
    text.append("}\n");
    text
}

/// The constructor: it binds the environment handle, converts what it is
/// given into the contract's identity and leaves every override unset.
pub open spec fn constructor_text(crate_path: Seq<char>) -> Seq<char> {
    "    pub fn new(env: &"@
        + crate_path
        + "::Env, contract_id: &impl "@
        + crate_path
        + "::IntoVal<"@
        + crate_path
        + "::Env, "@
        + crate_path
        + "::BytesN<32>>) -> Self {\n"@
        + "        Self {\n"@
        + "            env: env.clone(),\n"@
        + "            contract_id: contract_id.into_val(env),\n"@
        + "            #[cfg(not(any(test, feature = \"testutils\")))]\n"@
        + "            _phantom: core::marker::PhantomData,\n"@
        + "            #[cfg(any(test, feature = \"testutils\"))]\n"@
        + "            set_auths: None,\n"@
        + "            #[cfg(any(test, feature = \"testutils\"))]\n"@
        + "            mock_auths: None,\n"@
        + "            #[cfg(any(test, feature = \"testutils\"))]\n"@
        + "            mock_all_auths: false,\n"@
        + "        }\n"@
        + "    }\n"@
}

/// Renders the constructor.
pub fn render_constructor(crate_path: &str) -> (text: String)
    ensures
        text@ == constructor_text(crate_path@),
{
    let mut text = String::from_str("    pub fn new(env: &");
    text.append(crate_path);
    text.append("::Env, contract_id: &impl ");
    text.append(crate_path);
    text.append("::IntoVal<");
    text.append(crate_path);
    text.append("::Env, ");
    text.append(crate_path);
    text.append("::BytesN<32>>) -> Self {\n");
    text.append("        Self {\n");
    text.append("            env: env.clone(),\n");
    text.append("            contract_id: contract_id.into_val(env),\n");
    text.append("            #[cfg(not(any(test, feature = \"testutils\")))]\n");
    text.append("            _phantom: core::marker::PhantomData,\n");
    text.append("            #[cfg(any(test, feature = \"testutils\"))]\n");
    text.append("            set_auths: None,\n");
    text.append("            #[cfg(any(test, feature = \"testutils\"))]\n");
    text.append("            mock_auths: None,\n");
    text.append("            #[cfg(any(test, feature = \"testutils\"))]\n");
    text.append("            mock_all_auths: false,\n");
    text.append("        }\n");
    text.append("    }\n");
    text
}

/// The accessor that derives the contract's address from its identity.
pub open spec fn address_text(crate_path: Seq<char>) -> Seq<char> {
    "    pub fn address(&self) -> "@
        + crate_path
        + "::Address {\n"@
        + "        "@
        + crate_path
        + "::Address::from_contract_id(&self.contract_id)\n"@
        + "    }\n"@
}

/// Renders the address accessor.
pub fn render_address(crate_path: &str) -> (text: String)
    ensures
        text@ == address_text(crate_path@),
{
    let mut text = String::from_str("    pub fn address(&self) -> ");
    text.append(crate_path);
    text.append("::Address {\n");
    text.append("        ");
    text.append(crate_path);
    text.append("::Address::from_contract_id(&self.contract_id)\n");
    text.append("    }\n");
    text
}

/// The override builders of the test configurations. Each returns a new
/// client for the same environment and contract, with its own override set
/// and the other two cleared.
pub open spec fn builders_text(crate_path: Seq<char>) -> Seq<char> {
    "    #[cfg(any(test, feature = \"testutils\"))]\n"@
        + "    pub fn set_auths(&self, auths: &'a ["@
        + crate_path
        + "::xdr::ContractAuth]) -> Self {\n"@
        + "        Self {\n"@
        + "            env: self.env.clone(),\n"@
        + "            contract_id: self.contract_id.clone(),\n"@
        + "            set_auths: Some(auths),\n"@
        + "            mock_auths: None,\n"@
        + "            mock_all_auths: false,\n"@
        + "        }\n"@
        + "    }\n"@
        + "    #[cfg(any(test, feature = \"testutils\"))]\n"@
        + "    pub fn mock_auths(&self, mock_auths: &'a ["@
        + crate_path
        + "::testutils::MockAuth<'a>]) -> Self {\n"@
        + "        Self {\n"@
        + "            env: self.env.clone(),\n"@
        + "            contract_id: self.contract_id.clone(),\n"@
        + "            set_auths: None,\n"@
        + "            mock_auths: Some(mock_auths),\n"@
        + "            mock_all_auths: false,\n"@
        + "        }\n"@
        + "    }\n"@
        + "    #[cfg(any(test, feature = \"testutils\"))]\n"@
        + "    pub fn mock_all_auths(&self) -> Self {\n"@
        + "        Self {\n"@
        + "            env: self.env.clone(),\n"@
        + "            contract_id: self.contract_id.clone(),\n"@
        + "            set_auths: None,\n"@
        + "            mock_auths: None,\n"@
        + "            mock_all_auths: true,\n"@
        + "        }\n"@
        + "    }\n"@
}

/// Renders the override builders.
pub fn render_builders(crate_path: &str) -> (text: String)
    ensures
        text@ == builders_text(crate_path@),
{
    let mut text = String::from_str("    #[cfg(any(test, feature = \"testutils\"))]\n");
    text.append("    pub fn set_auths(&self, auths: &'a [");
    text.append(crate_path);
    text.append("::xdr::ContractAuth]) -> Self {\n");
    text.append("        Self {\n");
    text.append("            env: self.env.clone(),\n");
    text.append("            contract_id: self.contract_id.clone(),\n");
    text.append("            set_auths: Some(auths),\n");
    text.append("            mock_auths: None,\n");
    text.append("            mock_all_auths: false,\n");
    text.append("        }\n");
    text.append("    }\n");
    text.append("    #[cfg(any(test, feature = \"testutils\"))]\n");
    text.append("    pub fn mock_auths(&self, mock_auths: &'a [");
    text.append(crate_path);
    text.append("::testutils::MockAuth<'a>]) -> Self {\n");
    text.append("        Self {\n");
    text.append("            env: self.env.clone(),\n");
    text.append("            contract_id: self.contract_id.clone(),\n");
    text.append("            set_auths: None,\n");
    text.append("            mock_auths: Some(mock_auths),\n");
    text.append("            mock_all_auths: false,\n");
    text.append("        }\n");
    text.append("    }\n");
    text.append("    #[cfg(any(test, feature = \"testutils\"))]\n");
    text.append("    pub fn mock_all_auths(&self) -> Self {\n");
    text.append("        Self {\n");
    text.append("            env: self.env.clone(),\n");
    text.append("            contract_id: self.contract_id.clone(),\n");
    text.append("            set_auths: None,\n");
    text.append("            mock_auths: None,\n");
    text.append("            mock_all_auths: true,\n");
    text.append("        }\n");
    text.append("    }\n");
    text
}

/// The statements that put the client's override in force before a call is
/// dispatched. They exist in test configurations only.
pub open spec fn auth_block_text() -> Seq<char> {
    "        #[cfg(any(test, feature = \"testutils\"))]\n"@
        + "        {\n"@
        + "            if let Some(set_auths) = self.set_auths {\n"@
        + "                self.env.set_auths(set_auths);\n"@
        + "            }\n"@
        + "            if let Some(mock_auths) = self.mock_auths {\n"@
        + "                self.env.mock_auths(mock_auths);\n"@
        + "            }\n"@
        + "            if self.mock_all_auths {\n"@
        + "                self.env.mock_all_auths();\n"@
        + "            }\n"@
        + "        }\n"@
}

/// Renders the override statements.
pub fn render_auth_block() -> (text: String)
    ensures
        text@ == auth_block_text(),
{
    let mut text = String::from_str("        #[cfg(any(test, feature = \"testutils\"))]\n");
    text.append("        {\n");
    text.append("            if let Some(set_auths) = self.set_auths {\n");
    text.append("                self.env.set_auths(set_auths);\n");
    text.append("            }\n");
    text.append("            if let Some(mock_auths) = self.mock_auths {\n");
    text.append("                self.env.mock_auths(mock_auths);\n");
    text.append("            }\n");
    text.append("            if self.mock_all_auths {\n");
    text.append("                self.env.mock_all_auths();\n");
    text.append("            }\n");
    text.append("        }\n");
    text
}

/// The start of the dispatch: the host's entry point `entry` is called with
/// the contract's identity, the symbol made of the method's name, given as a
/// string literal, and a list of dynamic values that opens with the
/// environment handle.
pub open spec fn dispatch_text(crate_path: Seq<char>, entry: Seq<char>, symbol: Seq<char>) -> Seq<char> {
    "        use "@
        + crate_path
        + "::{IntoVal, FromVal};\n"@
        + "        self.env."@
        + entry
        + "(\n"@
        + "            &self.contract_id,\n"@
        + "            &"@
        + crate_path
        + "::Symbol::new(&self.env, &"@
        + symbol
        + "),\n"@
        + "            "@
        + crate_path
        + "::vec![&self.env"@
}

/// Renders the start of the dispatch.
pub fn render_dispatch(crate_path: &str, entry: &str, symbol: &str) -> (text: String)
    ensures
        text@ == dispatch_text(crate_path@, entry@, symbol@),
{
    let mut text = String::from_str("        use ");
    text.append(crate_path);
    text.append("::{IntoVal, FromVal};\n");
    text.append("        self.env.");
    text.append(entry);
    text.append("(\n");
    text.append("            &self.contract_id,\n");
    text.append("            &");
    text.append(crate_path);
    text.append("::Symbol::new(&self.env, &");
    text.append(symbol);
    text.append("),\n");
    text.append("            ");
    text.append(crate_path);
    text.append("::vec![&self.env");
    text
}

/// The first `n` annotations, one on each line.
pub open spec fn attrs_text_upto(attrs: Seq<Seq<char>>, n: int) -> Seq<char>
    decreases n,
{
    if n <= 0 || n > attrs.len() {
        Seq::empty()
    } else {
        attrs_text_upto(attrs, n - 1) + "    "@ + attrs[n - 1] + "\n"@
    }
}

/// A method's annotations, one on each line, in their order.
pub open spec fn attrs_text(attrs: Seq<Seq<char>>) -> Seq<char> {
    attrs_text_upto(attrs, attrs.len() as int)
}

/// The first `n` call arguments as they stand in a parameter list behind
/// `&self`.
pub open spec fn params_text_upto(args: Seq<CallArgView>, n: int) -> Seq<char>
    decreases n,
{
    if n <= 0 || n > args.len() {
        Seq::empty()
    } else {
        params_text_upto(args, n - 1) + ", "@ + args[n - 1].name + ": "@ + args[n - 1].ty
    }
}

/// The call arguments as they stand in a parameter list behind `&self`: each
/// with its name and its type, in their order.
pub open spec fn params_text(args: Seq<CallArgView>) -> Seq<char> {
    params_text_upto(args, args.len() as int)
}

/// The first `n` call arguments as they are handed to the host.
pub open spec fn marshal_text_upto(args: Seq<CallArgView>, n: int) -> Seq<char>
    decreases n,
{
    if n <= 0 || n > args.len() {
        Seq::empty()
    } else {
        marshal_text_upto(args, n - 1) + ", "@ + args[n - 1].name + ".into_val(&self.env)"@
    }
}

/// The call arguments as they are handed to the host behind the environment
/// handle: each converted into a dynamic value, in their order.
pub open spec fn marshal_text(args: Seq<CallArgView>) -> Seq<char> {
    marshal_text_upto(args, args.len() as int)
}

/// The host's entry point for a variant.
pub open spec fn entry_text(variant: Variant) -> Seq<char> {
    match variant {
        Variant::Unwrapping => "invoke_contract"@,
        Variant::Outcome => "try_invoke_contract"@,
    }
}

/// One generated method, over the string literal `symbol` that holds the
/// name under which the host dispatches: the annotations, the signature, the
/// override statements, and then the dispatch with the marshalled call
/// arguments.
pub open spec fn method_text(crate_path: Seq<char>, stub: MethodStubView, symbol: Seq<char>) -> Seq<
    char,
> {
    attrs_text(stub.attrs) + "    pub fn "@ + stub.name + "(&self"@ + params_text(stub.args)
        + ") -> "@ + stub.output + " {\n"@ + auth_block_text() + dispatch_text(
        crate_path,
        entry_text(stub.variant),
        symbol,
    ) + marshal_text(stub.args) + "],\n        )\n    }\n"@
}

/// The first `n` generated methods, each over the literal of its own target.
pub open spec fn methods_text_upto(crate_path: Seq<char>, stubs: Seq<MethodStubView>, n: int) -> Seq<
    char,
>
    decreases n,
{
    if n <= 0 || n > stubs.len() {
        Seq::empty()
    } else {
        methods_text_upto(crate_path, stubs, n - 1) + method_text(
            crate_path,
            stubs[n - 1],
            string_literal_text(stubs[n - 1].target),
        )
    }
}

/// The generated methods in their order.
pub open spec fn methods_text(crate_path: Seq<char>, stubs: Seq<MethodStubView>) -> Seq<char> {
    methods_text_upto(crate_path, stubs, stubs.len() as int)
}

/// The whole client: the type, then one block that holds the constructor, the
/// address accessor, the override builders and the generated methods.
pub open spec fn client_text(def: ClientDefView) -> Seq<char> {
    struct_text(def.crate_path, def.name, string_literal_text(def.doc)) + "impl<'a> "@ + def.name
        + "<'a> {\n"@ + constructor_text(def.crate_path) + address_text(def.crate_path)
        + builders_text(def.crate_path) + methods_text(def.crate_path, def.methods) + "}\n"@
}

/// Renders a method's annotations.
pub fn render_attrs(attrs: &Vec<String>) -> (text: String)
    ensures
        text@ == attrs_text(texts(attrs@)),
{
    let mut text = String::new();
    let mut i: usize = 0;
    while i < attrs.len()
        invariant
            i <= attrs.len(),
            text@ == attrs_text_upto(texts(attrs@), i as int),
        decreases attrs.len() - i,
    {
        text.append("    ");
        text.append(attrs[i].as_str());
        text.append("\n");
        i = i + 1;
    }
    text
}

/// Renders the call arguments of a parameter list.
pub fn render_params(args: &Vec<CallArg>) -> (text: String)
    ensures
        text@ == params_text(call_arg_views(args@)),
{
    let mut text = String::new();
    let mut i: usize = 0;
    while i < args.len()
        invariant
            i <= args.len(),
            text@ == params_text_upto(call_arg_views(args@), i as int),
        decreases args.len() - i,
    {
        text.append(", ");
        text.append(args[i].name.as_str());
        text.append(": ");
        text.append(args[i].ty.as_str());
        i = i + 1;
    }
    text
}

/// Renders the call arguments as they are handed to the host.
pub fn render_marshal(args: &Vec<CallArg>) -> (text: String)
    ensures
        text@ == marshal_text(call_arg_views(args@)),
{
    let mut text = String::new();
    let mut i: usize = 0;
    while i < args.len()
        invariant
            i <= args.len(),
            text@ == marshal_text_upto(call_arg_views(args@), i as int),
        decreases args.len() - i,
    {
        text.append(", ");
        text.append(args[i].name.as_str());
        text.append(".into_val(&self.env)");
        i = i + 1;
    }
    text
}

/// Renders one generated method over the string literal `symbol`.
pub fn render_method_with(crate_path: &str, stub: &MethodStub, symbol: &str) -> (text: String)
    ensures
        text@ == method_text(crate_path@, stub@, symbol@),
{
    let entry = match stub.variant {
        Variant::Unwrapping => "invoke_contract",
        Variant::Outcome => "try_invoke_contract",
    };
    let mut text = render_attrs(&stub.attrs);
    text.append("    pub fn ");
    text.append(stub.name.as_str());
    text.append("(&self");
    text.append(render_params(&stub.args).as_str());
    text.append(") -> ");
    text.append(stub.output.as_str());
    text.append(" {\n");
    text.append(render_auth_block().as_str());
    text.append(render_dispatch(crate_path, entry, symbol).as_str());
    text.append(render_marshal(&stub.args).as_str());
    text.append("],\n        )\n    }\n");
    text
}

/// Renders one generated method. The symbol is the string literal of the
/// name under which the host dispatches.
pub fn render_method(crate_path: &str, stub: &MethodStub) -> (text: String)
    ensures
        text@ == method_text(crate_path@, stub@, string_literal_text(stub@.target)),
{
    let symbol = string_literal(stub.target.as_str());
    render_method_with(crate_path, stub, symbol.as_str())
}

/// Renders the generated methods in their order.
pub fn render_methods(crate_path: &str, stubs: &Vec<MethodStub>) -> (text: String)
    ensures
        text@ == methods_text(crate_path@, stub_views(stubs@)),
{
    let mut text = String::new();
    let mut i: usize = 0;
    while i < stubs.len()
        invariant
            i <= stubs.len(),
            text@ == methods_text_upto(crate_path@, stub_views(stubs@), i as int),
        decreases stubs.len() - i,
    {
        text.append(render_method(crate_path, &stubs[i]).as_str());
        i = i + 1;
    }
    text
}

/// Renders the whole client as source text.
pub fn render_client(def: &ClientDef) -> (text: String)
    ensures
        text@ == client_text(def@),
{
    let crate_path = def.crate_path.as_str();
    let doc_literal = string_literal(def.doc.as_str());
    let mut text = render_struct(crate_path, def.name.as_str(), doc_literal.as_str());
    text.append("impl<'a> ");
    text.append(def.name.as_str());
    text.append("<'a> {\n");
    text.append(render_constructor(crate_path).as_str());
    text.append(render_address(crate_path).as_str());
    text.append(render_builders(crate_path).as_str());
    text.append(render_methods(crate_path, &def.methods).as_str());
    text.append("}\n");
    text
}

/// Renders what a generation pass yielded: the client's source text, or the
/// diagnostics as they are where there is no client.
pub fn render_generated(out: Generated) -> (source: Result<String, Vec<Diagnostic>>)
    ensures
        match source {
            Ok(text) => out@ matches GeneratedView::Client(def) && text@ == client_text(def),
            Err(diags) => out@ == GeneratedView::Rejected(diagnostic_views(diags@)),
        },
{
    match out {
        Generated::Client(def) => Ok(render_client(&def)),
        Generated::Rejected(diags) => Err(diags),
    }
}

} // verus!
