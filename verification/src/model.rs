//! The interface declaration that drives generation, and the artifacts that
//! generation yields, each with its mathematical view.

use vstd::prelude::*;

verus! {

/// The views of a list of strings.
pub open spec fn texts(v: Seq<String>) -> Seq<Seq<char>> {
    v.map_values(|s: String| s@)
}

/// A declared type, reduced to what generation reads of it.
#[derive(Debug)]
pub enum TypeExpr {
    /// A path type such as `a::b::C`: the identifiers of its segments in
    /// order, and the type as written.
    Path { segments: Vec<String>, text: String },
    /// A reference type, as written.
    Reference { text: String },
    /// Any other type, as written.
    Other { text: String },
}

pub enum TypeView {
    Path { segments: Seq<Seq<char>>, text: Seq<char> },
    Reference { text: Seq<char> },
    Other { text: Seq<char> },
}

impl View for TypeExpr {
    type V = TypeView;

    open spec fn view(&self) -> TypeView {
        match *self {
            TypeExpr::Path { segments, text } => TypeView::Path {
                segments: texts(segments@),
                text: text@,
            },
            TypeExpr::Reference { text } => TypeView::Reference { text: text@ },
            TypeExpr::Other { text } => TypeView::Other { text: text@ },
        }
    }
}

impl TypeView {
    /// The type as written in the declaration.
    pub open spec fn text(self) -> Seq<char> {
        match self {
            TypeView::Path { text, .. } => text,
            TypeView::Reference { text } => text,
            TypeView::Other { text } => text,
        }
    }
}

/// One entry of a method's parameter list.
#[derive(Debug)]
pub enum Param {
    /// The receiver (`self` in any form).
    Receiver,
    /// A parameter bound to a plain name.
    Named { name: String, ty: TypeExpr },
    /// A typed parameter bound by any other pattern, such as a destructuring.
    Pattern { ty: TypeExpr },
}

pub enum ParamView {
    Receiver,
    Named { name: Seq<char>, ty: TypeView },
    Pattern { ty: TypeView },
}

impl View for Param {
    type V = ParamView;

    open spec fn view(&self) -> ParamView {
        match *self {
            Param::Receiver => ParamView::Receiver,
            Param::Named { name, ty } => ParamView::Named { name: name@, ty: ty@ },
            Param::Pattern { ty } => ParamView::Pattern { ty: ty@ },
        }
    }
}

/// The views of a parameter list.
pub open spec fn params(v: Seq<Param>) -> Seq<ParamView> {
    v.map_values(|p: Param| p@)
}

/// One callable operation of the interface.
#[derive(Debug)]
pub struct Method {
    pub name: String,
    pub inputs: Vec<Param>,
    /// The declared return type as written, `None` where none is declared.
    pub output: Option<String>,
    /// Annotations copied onto everything generated from this method.
    pub attrs: Vec<String>,
}

pub struct MethodView {
    pub name: Seq<char>,
    pub inputs: Seq<ParamView>,
    pub output: Option<Seq<char>>,
    pub attrs: Seq<Seq<char>>,
}

impl View for Method {
    type V = MethodView;

    open spec fn view(&self) -> MethodView {
        MethodView {
            name: self.name@,
            inputs: params(self.inputs@),
            output: match self.output {
                Some(t) => Some(t@),
                None => None,
            },
            attrs: texts(self.attrs@),
        }
    }
}

/// The views of a method list.
pub open spec fn methods(v: Seq<Method>) -> Seq<MethodView> {
    v.map_values(|m: Method| m@)
}

/// A parameter that is forwarded to the host, as the generated methods take it.
#[derive(Debug)]
pub struct CallArg {
    /// The parameter's name; empty for a parameter that has none.
    pub name: String,
    /// The type under which the generated method takes it.
    pub ty: String,
}

pub struct CallArgView {
    pub name: Seq<char>,
    pub ty: Seq<char>,
}

impl View for CallArg {
    type V = CallArgView;

    open spec fn view(&self) -> CallArgView {
        CallArgView { name: self.name@, ty: self.ty@ }
    }
}

/// The views of a list of call arguments.
pub open spec fn call_arg_views(v: Seq<CallArg>) -> Seq<CallArgView> {
    v.map_values(|a: CallArg| a@)
}

/// Where a parameter stands in the declaration: the index of its method and
/// its own index in that method's parameter list.
#[derive(Clone, Copy, Debug, PartialEq, Eq, Structural)]
pub struct Position {
    pub method: usize,
    pub param: usize,
}

/// A parameter that could not be compiled.
#[derive(Debug)]
pub struct Diagnostic {
    pub position: Position,
    pub message: String,
}

pub struct DiagnosticView {
    pub position: Position,
    pub message: Seq<char>,
}

impl View for Diagnostic {
    type V = DiagnosticView;

    open spec fn view(&self) -> DiagnosticView {
        DiagnosticView { position: self.position, message: self.message@ }
    }
}

/// The views of a list of diagnostics.
pub open spec fn diagnostic_views(v: Seq<Diagnostic>) -> Seq<DiagnosticView> {
    v.map_values(|d: Diagnostic| d@)
}

/// How a generated method treats the host's answer.
#[derive(Clone, Copy, Debug, PartialEq, Eq, Structural)]
pub enum Variant {
    /// Returns the value, aborting on any failure.
    Unwrapping,
    /// Returns the three-way outcome.
    Outcome,
}

/// One generated client method.
#[derive(Debug)]
pub struct MethodStub {
    pub variant: Variant,
    /// The generated method's name.
    pub name: String,
    /// The interface method's name, under which the host dispatches.
    pub target: String,
    pub args: Vec<CallArg>,
    /// The generated method's return type.
    pub output: String,
    pub attrs: Vec<String>,
}

pub struct MethodStubView {
    pub variant: Variant,
    pub name: Seq<char>,
    pub target: Seq<char>,
    pub args: Seq<CallArgView>,
    pub output: Seq<char>,
    pub attrs: Seq<Seq<char>>,
}

impl View for MethodStub {
    type V = MethodStubView;

    open spec fn view(&self) -> MethodStubView {
        MethodStubView {
            variant: self.variant,
            name: self.name@,
            target: self.target@,
            args: call_arg_views(self.args@),
            output: self.output@,
            attrs: texts(self.attrs@),
        }
    }
}

/// The views of a list of generated methods.
pub open spec fn stub_views(v: Seq<MethodStub>) -> Seq<MethodStubView> {
    v.map_values(|s: MethodStub| s@)
}

/// The generated client: its name, its documentation line, the path under
/// which it names the host's items, and its methods.
#[derive(Debug)]
pub struct ClientDef {
    pub name: String,
    pub doc: String,
    pub crate_path: String,
    pub methods: Vec<MethodStub>,
}

pub struct ClientDefView {
    pub name: Seq<char>,
    pub doc: Seq<char>,
    pub crate_path: Seq<char>,
    pub methods: Seq<MethodStubView>,
}

impl View for ClientDef {
    type V = ClientDefView;

    open spec fn view(&self) -> ClientDefView {
        ClientDefView {
            name: self.name@,
            doc: self.doc@,
            crate_path: self.crate_path@,
            methods: stub_views(self.methods@),
        }
    }
}

/// What one generation pass yields: the client, or every diagnostic and
/// nothing else.
#[derive(Debug)]
pub enum Generated {
    Client(ClientDef),
    Rejected(Vec<Diagnostic>),
}

pub enum GeneratedView {
    Client(ClientDefView),
    Rejected(Seq<DiagnosticView>),
}

impl View for Generated {
    type V = GeneratedView;

    open spec fn view(&self) -> GeneratedView {
        match *self {
            Generated::Client(c) => GeneratedView::Client(c@),
            Generated::Rejected(d) => GeneratedView::Rejected(diagnostic_views(d@)),
        }
    }
}

} // verus!
