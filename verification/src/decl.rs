//! The structural model of a method declaration.
//!
//! A declaration is presented as an ordered input list (receiver and typed
//! parameters), a return type, and an opaque body, with every syntactic
//! element carrying a source location for diagnostics. Types, patterns and
//! bodies are carried as token text: this subsystem never interprets them.

use vstd::prelude::*;

verus! {

/// A source location: byte offsets into the original source text. Carried
/// through unchanged, only so that diagnostics can point at the offending
/// element. Synthesized elements carry the zero span.
#[derive(Clone, Copy, PartialEq, Eq, Structural, Debug)]
pub struct SrcSpan {
    pub lo: usize,
    pub hi: usize,
}

/// The zero span, used for synthesized elements with no source of their own.
pub open spec fn call_site_span() -> SrcSpan {
    SrcSpan { lo: 0, hi: 0 }
}

/// A parameter pattern: either a plain identifier binding or some other
/// pattern, kept as its token text.
#[derive(Debug)]
pub enum PatDecl {
    Ident { name: String, span: SrcSpan },
    Other { text: String, span: SrcSpan },
}

/// The mathematical view of a pattern.
#[verifier::ext_equal]
pub enum PatView {
    Ident { name: Seq<char>, span: SrcSpan },
    Other { text: Seq<char>, span: SrcSpan },
}

impl View for PatDecl {
    type V = PatView;

    open spec fn view(&self) -> PatView {
        match self {
            PatDecl::Ident { name, span } => PatView::Ident { name: name@, span: *span },
            PatDecl::Other { text, span } => PatView::Other { text: text@, span: *span },
        }
    }
}

/// A named, typed parameter: a pattern, the type's token text, and the
/// location of the whole parameter.
#[derive(Debug)]
pub struct TypedParam {
    pub pat: PatDecl,
    pub ty: String,
    pub span: SrcSpan,
}

/// The mathematical view of a typed parameter.
#[verifier::ext_equal]
pub struct TypedParamView {
    pub pat: PatView,
    pub ty: Seq<char>,
    pub span: SrcSpan,
}

impl View for TypedParam {
    type V = TypedParamView;

    open spec fn view(&self) -> TypedParamView {
        TypedParamView { pat: self.pat@, ty: self.ty@, span: self.span }
    }
}

/// A receiver: whether it is taken by reference, whether the reference is
/// exclusive, and its location.
#[derive(Clone, Copy, PartialEq, Eq, Structural, Debug)]
pub struct ReceiverDecl {
    pub reference: bool,
    pub mutable: bool,
    pub span: SrcSpan,
}

/// One entry of a method's input list: the receiver or a typed parameter.
#[derive(Debug)]
pub enum FnArgDecl {
    Receiver(ReceiverDecl),
    Typed(TypedParam),
}

/// The mathematical view of an input-list entry.
#[verifier::ext_equal]
pub enum FnArgView {
    Receiver(ReceiverDecl),
    Typed(TypedParamView),
}

impl View for FnArgDecl {
    type V = FnArgView;

    open spec fn view(&self) -> FnArgView {
        match self {
            FnArgDecl::Receiver(r) => FnArgView::Receiver(*r),
            FnArgDecl::Typed(p) => FnArgView::Typed(p@),
        }
    }
}

/// A method declaration: attributes, name, ordered inputs, return type and
/// body. The return type and the body are opaque token text, copied verbatim
/// by every transformation.
#[derive(Debug)]
pub struct MethodDecl {
    pub attrs: Vec<String>,
    pub name: String,
    pub name_span: SrcSpan,
    pub inputs: Vec<FnArgDecl>,
    pub output: String,
    pub body: String,
}

/// The mathematical view of a method declaration.
#[verifier::ext_equal]
pub struct MethodDeclView {
    pub attrs: Seq<Seq<char>>,
    pub name: Seq<char>,
    pub name_span: SrcSpan,
    pub inputs: Seq<FnArgView>,
    pub output: Seq<char>,
    pub body: Seq<char>,
}

impl View for MethodDecl {
    type V = MethodDeclView;

    open spec fn view(&self) -> MethodDeclView {
        MethodDeclView {
            attrs: self.attrs@.map_values(|s: String| s@),
            name: self.name@,
            name_span: self.name_span,
            inputs: self.inputs@.map_values(|a: FnArgDecl| a@),
            output: self.output@,
            body: self.body@,
        }
    }
}

/// A declaration is well formed when a receiver can stand only first in the
/// input list. This is inherent to the input boundary: a parsed method
/// signature cannot name its receiver anywhere else.
pub open spec fn wf_inputs(inputs: Seq<FnArgView>) -> bool {
    forall|i: int| 1 <= i < inputs.len() ==> #[trigger] inputs[i] is Typed
}

impl MethodDecl {
    pub open spec fn wf(&self) -> bool {
        wf_inputs(self@.inputs)
    }
}

/// A located, human-readable diagnostic: the output of the error reporter.
#[derive(Debug)]
pub struct Diagnostic {
    pub span: SrcSpan,
    pub message: String,
}

/// The mathematical view of a diagnostic.
#[verifier::ext_equal]
pub struct DiagnosticView {
    pub span: SrcSpan,
    pub message: Seq<char>,
}

impl View for Diagnostic {
    type V = DiagnosticView;

    open spec fn view(&self) -> DiagnosticView {
        DiagnosticView { span: self.span, message: self.message@ }
    }
}

/// A synthesized text that failed to parse back: an internal templating
/// defect, carried with the offending text for diagnosis.
#[derive(Debug)]
pub struct TemplateError {
    pub text: String,
}

impl PatDecl {
    /// An exact copy.
    pub fn dup(&self) -> (r: PatDecl)
        ensures
            r@ == self@,
    {
        match self {
            PatDecl::Ident { name, span } => PatDecl::Ident { name: name.clone(), span: *span },
            PatDecl::Other { text, span } => PatDecl::Other { text: text.clone(), span: *span },
        }
    }
}

impl TypedParam {
    /// An exact copy.
    pub fn dup(&self) -> (r: TypedParam)
        ensures
            r@ == self@,
    {
        TypedParam { pat: self.pat.dup(), ty: self.ty.clone(), span: self.span }
    }
}

impl FnArgDecl {
    /// An exact copy.
    pub fn dup(&self) -> (r: FnArgDecl)
        ensures
            r@ == self@,
    {
        match self {
            FnArgDecl::Receiver(rec) => FnArgDecl::Receiver(*rec),
            FnArgDecl::Typed(p) => FnArgDecl::Typed(p.dup()),
        }
    }
}

/// An exact copy of a list of strings.
pub fn dup_strings(src: &Vec<String>) -> (r: Vec<String>)
    ensures
        r@.map_values(|s: String| s@) == src@.map_values(|s: String| s@),
        r@.len() == src@.len(),
{
    let mut out: Vec<String> = Vec::new();
    let mut i: usize = 0;
    while i < src.len()
        invariant
            i <= src@.len(),
            out@.len() == i,
            forall|k: int| 0 <= k < i ==> (#[trigger] out@[k])@ == src@[k]@,
        decreases src@.len() - i,
    {
        out.push(src[i].clone());
        i = i + 1;
    }
    proof {
        assert(out@.map_values(|s: String| s@) =~= src@.map_values(|s: String| s@));
    }
    out
}

impl MethodDecl {
    /// An exact copy, used as the working copy of every transformation.
    pub fn dup(&self) -> (r: MethodDecl)
        ensures
            r@ == self@,
    {
        let attrs = dup_strings(&self.attrs);
        let mut inputs: Vec<FnArgDecl> = Vec::new();
        let mut i: usize = 0;
        while i < self.inputs.len()
            invariant
                i <= self.inputs@.len(),
                inputs@.len() == i,
                forall|k: int| 0 <= k < i ==> (#[trigger] inputs@[k])@ == self.inputs@[k]@,
            decreases self.inputs@.len() - i,
        {
            inputs.push(self.inputs[i].dup());
            i = i + 1;
        }
        proof {
            assert(inputs@.map_values(|a: FnArgDecl| a@) =~= self.inputs@.map_values(
                |a: FnArgDecl| a@,
            ));
        }
        let r = MethodDecl {
            attrs,
            name: self.name.clone(),
            name_span: self.name_span,
            inputs,
            output: self.output.clone(),
            body: self.body.clone(),
        };
        proof {
            assert(r@ =~= self@);
        }
        r
    }
}

} // verus!
