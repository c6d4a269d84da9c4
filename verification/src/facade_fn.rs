//! Synthesis of the facade method.
//!
//! The facade is the base declaration with the receiver removed, marked for
//! aggressive inlining, and its body replaced by exactly one call to the
//! shape-appropriate singleton accessor, forwarding the accessor's result.

use vstd::prelude::*;

use crate::decl::Diagnostic;
use crate::decl::FnArgDecl;
use crate::decl::MethodDecl;
use crate::decl::MethodDeclView;
use crate::decl::SrcSpan;
use crate::paths::blockz_path;
use crate::paths::blockz_path_text;
use crate::singleton_fns::arg_param;
use crate::singleton_fns::call_arg_text;
use crate::singleton_fns::ShapeView;
use crate::singleton_fns::SingletonFnArgs;
use crate::singleton_fns::SingletonFnType;
use crate::syn_checks::parse_block_text;
use crate::syn_checks::parse_outer_attr_count;
use crate::syn_checks::parsed_outer_attr_count;
use crate::syn_checks::parses_as_block;

verus! {

/// The text of the accessor call statement for a shape: the entry point is
/// chosen by receiver mutability and argument presence, the implementation
/// method is handed over, and the adapted call argument follows where the
/// shape carries one.
pub open spec fn use_stmt_text(shape: ShapeView, impl_ident: Seq<char>) -> Seq<char> {
    match shape {
        ShapeView::NonMut => "Self::use_singleton(Self::"@ + impl_ident + ").await"@,
        ShapeView::NonMutWithArg(a) => "Self::use_singleton_with_arg(Self::"@ + impl_ident + ", "@
            + call_arg_text(a) + ").await"@,
        ShapeView::Mut => "Self::use_mut_singleton(Self::"@ + impl_ident + ").await"@,
        ShapeView::MutWithArg(a) => "Self::use_mut_singleton_with_arg(Self::"@ + impl_ident + ", "@
            + call_arg_text(a) + ").await"@,
    }
}

/// The full replacement body of the facade: the accessor trait brought into
/// scope, then the one accessor call.
pub open spec fn facade_body_text(shape: ShapeView, impl_ident: Seq<char>) -> Seq<char> {
    "#[allow(unused_imports)] use "@ + blockz_path_text() + "::singleton::Singleton; "@
        + use_stmt_text(shape, impl_ident)
}

/// A body's text wrapped in braces, as the parser check receives it.
pub open spec fn braced(s: Seq<char>) -> Seq<char> {
    "{ "@ + s + " }"@
}

/// The text of the inlining hint put on the facade.
pub open spec fn inline_attr_text() -> Seq<char> {
    "#[inline(always)]"@
}

/// Errors produced while synthesizing the emitted pair. The first two
/// re-check what classification already excluded; the last three are
/// internal templating defects, carried with the offending generated text.
#[derive(Debug)]
pub enum SynthesisError {
    /// The target has no first input to remove.
    MissingReceiver { fn_ident: String, span: SrcSpan },
    /// The target's first input is a typed parameter, not a receiver.
    ReceiverWasByValue { fn_ident: String, ty: String, span: SrcSpan },
    /// The inlining hint did not parse as exactly one outer attribute.
    AttrTemplateInvalid { text: String, span: SrcSpan },
    /// The synthesized replacement body did not parse as a block.
    BodyTemplateUnparseable { text: String, span: SrcSpan },
    /// The synthesized tuple signature argument did not parse as a
    /// function input.
    SigTemplateUnparseable { text: String, span: SrcSpan },
}

/// The mathematical view of a synthesis error.
#[verifier::ext_equal]
pub enum SynthErrView {
    MissingReceiver { fn_ident: Seq<char>, span: SrcSpan },
    ReceiverWasByValue { fn_ident: Seq<char>, ty: Seq<char>, span: SrcSpan },
    AttrTemplateInvalid { text: Seq<char>, span: SrcSpan },
    BodyTemplateUnparseable { text: Seq<char>, span: SrcSpan },
    SigTemplateUnparseable { text: Seq<char>, span: SrcSpan },
}

impl View for SynthesisError {
    type V = SynthErrView;

    open spec fn view(&self) -> SynthErrView {
        match self {
            SynthesisError::MissingReceiver { fn_ident, span } => SynthErrView::MissingReceiver {
                fn_ident: fn_ident@,
                span: *span,
            },
            SynthesisError::ReceiverWasByValue { fn_ident, ty, span } => SynthErrView::ReceiverWasByValue {
                fn_ident: fn_ident@,
                ty: ty@,
                span: *span,
            },
            SynthesisError::AttrTemplateInvalid { text, span } => SynthErrView::AttrTemplateInvalid {
                text: text@,
                span: *span,
            },
            SynthesisError::BodyTemplateUnparseable { text, span } => SynthErrView::BodyTemplateUnparseable {
                text: text@,
                span: *span,
            },
            SynthesisError::SigTemplateUnparseable { text, span } => SynthErrView::SigTemplateUnparseable {
                text: text@,
                span: *span,
            },
        }
    }
}

/// Whether a synthesis error reports an internal templating defect rather
/// than a malformed input.
pub open spec fn is_internal_defect(e: SynthErrView) -> bool {
    e is AttrTemplateInvalid || e is BodyTemplateUnparseable || e is SigTemplateUnparseable
}

/// The single-line description of a synthesis error.
pub open spec fn synth_err_message(e: SynthErrView) -> Seq<char> {
    match e {
        SynthErrView::MissingReceiver { fn_ident, .. } => "facade fn factory: remove fn receiver: target function "@
            + fn_ident + " should have had a receiver"@,
        SynthErrView::ReceiverWasByValue { fn_ident, ty, .. } => "facade fn factory: remove fn receiver: target function "@
            + fn_ident
            + " must have either a &self or &mut self receiver as first input, found first input: "@
            + ty,
        SynthErrView::AttrTemplateInvalid { text, .. } => "facade fn factory: add inline always attr: expected to parse a single attribute: "@
            + text,
        SynthErrView::BodyTemplateUnparseable { text, .. } => "facade fn factory: replace fn block: failed to parse replacement block: "@
            + text,
        SynthErrView::SigTemplateUnparseable { text, .. } => "singleton fn args: build impl fn sig arg: failed to parse signature argument: "@
            + text,
    }
}

/// The source location a synthesis error points at.
pub open spec fn synth_err_span(e: SynthErrView) -> SrcSpan {
    match e {
        SynthErrView::MissingReceiver { span, .. } => span,
        SynthErrView::ReceiverWasByValue { span, .. } => span,
        SynthErrView::AttrTemplateInvalid { span, .. } => span,
        SynthErrView::BodyTemplateUnparseable { span, .. } => span,
        SynthErrView::SigTemplateUnparseable { span, .. } => span,
    }
}

impl SynthesisError {
    /// Whether this error reports an internal templating defect rather
    /// than a malformed input.
    pub fn reports_internal_defect(&self) -> (r: bool)
        ensures
            r == is_internal_defect(self@),
    {
        match self {
            SynthesisError::AttrTemplateInvalid { .. } => true,
            SynthesisError::BodyTemplateUnparseable { .. } => true,
            SynthesisError::SigTemplateUnparseable { .. } => true,
            SynthesisError::MissingReceiver { .. } => false,
            SynthesisError::ReceiverWasByValue { .. } => false,
        }
    }

    /// The human-readable description of this error.
    pub fn message(&self) -> (r: String)
        ensures
            r@ == synth_err_message(self@),
    {
        match self {
            SynthesisError::MissingReceiver { fn_ident, .. } => {
                let mut m = String::from_str(
                    "facade fn factory: remove fn receiver: target function ",
                );
                m.append(fn_ident.as_str());
                m.append(" should have had a receiver");
                m
            },
            SynthesisError::ReceiverWasByValue { fn_ident, ty, .. } => {
                let mut m = String::from_str(
                    "facade fn factory: remove fn receiver: target function ",
                );
                m.append(fn_ident.as_str());
                m.append(
                    " must have either a &self or &mut self receiver as first input, found first input: ",
                );
                m.append(ty.as_str());
                m
            },
            SynthesisError::AttrTemplateInvalid { text, .. } => {
                let mut m = String::from_str(
                    "facade fn factory: add inline always attr: expected to parse a single attribute: ",
                );
                m.append(text.as_str());
                m
            },
            SynthesisError::BodyTemplateUnparseable { text, .. } => {
                let mut m = String::from_str(
                    "facade fn factory: replace fn block: failed to parse replacement block: ",
                );
                m.append(text.as_str());
                m
            },
            SynthesisError::SigTemplateUnparseable { text, .. } => {
                let mut m = String::from_str(
                    "singleton fn args: build impl fn sig arg: failed to parse signature argument: ",
                );
                m.append(text.as_str());
                m
            },
        }
    }

    /// The source location this error points at.
    pub fn span(&self) -> (r: SrcSpan)
        ensures
            r == synth_err_span(self@),
    {
        match self {
            SynthesisError::MissingReceiver { span, .. } => *span,
            SynthesisError::ReceiverWasByValue { span, .. } => *span,
            SynthesisError::AttrTemplateInvalid { span, .. } => *span,
            SynthesisError::BodyTemplateUnparseable { span, .. } => *span,
            SynthesisError::SigTemplateUnparseable { span, .. } => *span,
        }
    }

    /// The located diagnostic of this error.
    pub fn to_diagnostic(&self) -> (r: Diagnostic)
        ensures
            r.span == synth_err_span(self@),
            r.message@ == synth_err_message(self@),
    {
        Diagnostic { span: self.span(), message: self.message() }
    }
}

/// What building the facade returns, for every base declaration whose
/// receiver can stand only first: the base with the receiver removed, the
/// inlining hint appended, and the body replaced by the accessor call; or
/// the first failure, in step order.
pub open spec fn spec_build_facade(
    base: MethodDeclView,
    shape: ShapeView,
    impl_ident: Seq<char>,
) -> Result<MethodDeclView, SynthErrView> {
    if base.inputs.len() == 0 {
        Err(SynthErrView::MissingReceiver { fn_ident: base.name, span: base.name_span })
    } else if base.inputs[0] is Typed {
        Err(
            SynthErrView::ReceiverWasByValue {
                fn_ident: base.name,
                ty: arg_param(base.inputs[0]).ty,
                span: base.name_span,
            },
        )
    } else if parsed_outer_attr_count(inline_attr_text()) != Some(1usize) {
        Err(SynthErrView::AttrTemplateInvalid { text: inline_attr_text(), span: base.name_span })
    } else if !parses_as_block(braced(facade_body_text(shape, impl_ident))) {
        Err(
            SynthErrView::BodyTemplateUnparseable {
                text: facade_body_text(shape, impl_ident),
                span: base.name_span,
            },
        )
    } else {
        Ok(
            MethodDeclView {
                attrs: base.attrs.push(inline_attr_text()),
                name: base.name,
                name_span: base.name_span,
                inputs: base.inputs.skip(1),
                output: base.output,
                body: facade_body_text(shape, impl_ident),
            },
        )
    }
}

/// Factory that builds the facade of one singleton method.
pub struct FacadeFnFactory<'f> {
    pub base: &'f MethodDecl,
    pub fn_type: &'f SingletonFnType,
    pub impl_fn: &'f MethodDecl,
}

impl<'f> FacadeFnFactory<'f> {
    /// Create a new factory over the base declaration, its shape, and the
    /// implementation method the facade will forward to.
    pub fn new(base: &'f MethodDecl, fn_type: &'f SingletonFnType, impl_fn: &'f MethodDecl) -> (r:
        Self)
        ensures
            r.base == base,
            r.fn_type == fn_type,
            r.impl_fn == impl_fn,
    {
        FacadeFnFactory { base, fn_type, impl_fn }
    }

    /// Remove the receiver of the target function: the defensive re-check
    /// of the classifier's precondition, then the drop of the first input.
    fn remove_fn_receiver(target: &mut MethodDecl) -> (r: Result<(), SynthesisError>)
        requires
            old(target).wf(),
        ensures
            match r {
                Ok(_) => {
                    &&& old(target)@.inputs.len() > 0
                    &&& old(target)@.inputs[0] is Receiver
                    &&& final(target)@.attrs == old(target)@.attrs
                    &&& final(target)@.name == old(target)@.name
                    &&& final(target)@.name_span == old(target)@.name_span
                    &&& final(target)@.inputs == old(target)@.inputs.skip(1)
                    &&& final(target)@.output == old(target)@.output
                    &&& final(target)@.body == old(target)@.body
                },
                Err(e) => {
                    &&& final(target)@ == old(target)@
                    &&& if old(target)@.inputs.len() == 0 {
                        e@ == (SynthErrView::MissingReceiver {
                            fn_ident: old(target)@.name,
                            span: old(target)@.name_span,
                        })
                    } else {
                        old(target)@.inputs[0] is Typed && e@ == (SynthErrView::ReceiverWasByValue {
                            fn_ident: old(target)@.name,
                            ty: arg_param(old(target)@.inputs[0]).ty,
                            span: old(target)@.name_span,
                        })
                    }
                },
            },
    {
        if target.inputs.len() == 0 {
            return Err(
                SynthesisError::MissingReceiver {
                    fn_ident: target.name.clone(),
                    span: target.name_span,
                },
            );
        }
        match &target.inputs[0] {
            FnArgDecl::Typed(p) => {
                return Err(
                    SynthesisError::ReceiverWasByValue {
                        fn_ident: target.name.clone(),
                        ty: p.ty.clone(),
                        span: target.name_span,
                    },
                );
            },
            FnArgDecl::Receiver(_) => {},
        }
        let mut kept: Vec<FnArgDecl> = Vec::new();
        let mut i: usize = 1;
        while i < target.inputs.len()
            invariant
                old(target).wf(),
                target == old(target),
                1 <= i <= target.inputs@.len(),
                kept@.len() == i - 1,
                forall|k: int| 0 <= k < i - 1 ==> (#[trigger] kept@[k])@ == target@.inputs[k + 1],
            decreases target.inputs@.len() - i,
        {
            proof {
                assert(target@.inputs[i as int] == target.inputs@[i as int]@);
            }
            kept.push(target.inputs[i].dup());
            i = i + 1;
        }
        target.inputs = kept;
        proof {
            assert(final(target)@.inputs =~= old(target)@.inputs.skip(1));
        }
        Ok(())
    }

    /// Mark the target for aggressive inlining. The hint's text must parse
    /// back as exactly one outer attribute; anything else is an internal
    /// templating defect.
    fn add_inline_always_attr(target: &mut MethodDecl) -> (r: Result<(), SynthesisError>)
        ensures
            match r {
                Ok(_) => {
                    &&& parsed_outer_attr_count(inline_attr_text()) == Some(1usize)
                    &&& final(target)@.attrs == old(target)@.attrs.push(inline_attr_text())
                    &&& final(target)@.name == old(target)@.name
                    &&& final(target)@.name_span == old(target)@.name_span
                    &&& final(target)@.inputs == old(target)@.inputs
                    &&& final(target)@.output == old(target)@.output
                    &&& final(target)@.body == old(target)@.body
                },
                Err(e) => {
                    &&& final(target)@ == old(target)@
                    &&& parsed_outer_attr_count(inline_attr_text()) != Some(1usize)
                    &&& e@ == (SynthErrView::AttrTemplateInvalid {
                        text: inline_attr_text(),
                        span: old(target)@.name_span,
                    })
                },
            },
    {
        let text = String::from_str("#[inline(always)]");
        let ok: bool = match parse_outer_attr_count(text.as_str()) {
            Some(n) => n == 1,
            None => false,
        };
        if ok {
            target.attrs.push(text);
            proof {
                assert(final(target)@.attrs =~= old(target)@.attrs.push(inline_attr_text()));
            }
            Ok(())
        } else {
            Err(SynthesisError::AttrTemplateInvalid { text, span: target.name_span })
        }
    }

    /// Replace the body of the target function with `block`, after the
    /// parser accepts the braced text; a refusal is an internal templating
    /// defect carried with the text.
    fn replace_fn_block(target: &mut MethodDecl, block: String) -> (r: Result<(), SynthesisError>)
        ensures
            match r {
                Ok(_) => {
                    &&& parses_as_block(braced(block@))
                    &&& final(target)@.attrs == old(target)@.attrs
                    &&& final(target)@.name == old(target)@.name
                    &&& final(target)@.name_span == old(target)@.name_span
                    &&& final(target)@.inputs == old(target)@.inputs
                    &&& final(target)@.output == old(target)@.output
                    &&& final(target)@.body == block@
                },
                Err(e) => {
                    &&& final(target)@ == old(target)@
                    &&& !parses_as_block(braced(block@))
                    &&& e@ == (SynthErrView::BodyTemplateUnparseable {
                        text: block@,
                        span: old(target)@.name_span,
                    })
                },
            },
    {
        let mut braced_text = String::from_str("{ ");
        braced_text.append(block.as_str());
        braced_text.append(" }");
        if parse_block_text(braced_text.as_str()) {
            target.body = block;
            Ok(())
        } else {
            Err(SynthesisError::BodyTemplateUnparseable { text: block, span: target.name_span })
        }
    }

    /// Builds the call of the shared accessor.
    fn build_use_singleton_stmt(fn_ident: &String) -> (r: String)
        ensures
            r@ == use_stmt_text(ShapeView::NonMut, fn_ident@),
    {
        let mut s = String::from_str("Self::use_singleton(Self::");
        s.append(fn_ident.as_str());
        s.append(").await");
        s
    }

    /// Builds the call of the shared accessor with an argument.
    fn build_use_singleton_with_arg_stmt(fn_ident: &String, arg: &SingletonFnArgs) -> (r: String)
        ensures
            r@ == use_stmt_text(ShapeView::NonMutWithArg(arg@), fn_ident@),
    {
        let call_arg = arg.build_impl_fn_call_arg();
        let mut s = String::from_str("Self::use_singleton_with_arg(Self::");
        s.append(fn_ident.as_str());
        s.append(", ");
        s.append(call_arg.as_str());
        s.append(").await");
        s
    }

    /// Builds the call of the exclusive accessor.
    fn build_use_mut_singleton_stmt(fn_ident: &String) -> (r: String)
        ensures
            r@ == use_stmt_text(ShapeView::Mut, fn_ident@),
    {
        let mut s = String::from_str("Self::use_mut_singleton(Self::");
        s.append(fn_ident.as_str());
        s.append(").await");
        s
    }

    /// Builds the call of the exclusive accessor with an argument.
    fn build_use_mut_singleton_with_arg_stmt(fn_ident: &String, arg: &SingletonFnArgs) -> (r:
        String)
        ensures
            r@ == use_stmt_text(ShapeView::MutWithArg(arg@), fn_ident@),
    {
        let call_arg = arg.build_impl_fn_call_arg();
        let mut s = String::from_str("Self::use_mut_singleton_with_arg(Self::");
        s.append(fn_ident.as_str());
        s.append(", ");
        s.append(call_arg.as_str());
        s.append(").await");
        s
    }

    /// Build the facade's replacement body and install it on the target.
    fn build_facade_impl(&self, target: &mut MethodDecl) -> (r: Result<(), SynthesisError>)
        ensures
            match r {
                Ok(_) => {
                    &&& parses_as_block(braced(facade_body_text(self.fn_type@, self.impl_fn@.name)))
                    &&& final(target)@.attrs == old(target)@.attrs
                    &&& final(target)@.name == old(target)@.name
                    &&& final(target)@.name_span == old(target)@.name_span
                    &&& final(target)@.inputs == old(target)@.inputs
                    &&& final(target)@.output == old(target)@.output
                    &&& final(target)@.body == facade_body_text(self.fn_type@, self.impl_fn@.name)
                },
                Err(e) => {
                    &&& final(target)@ == old(target)@
                    &&& !parses_as_block(
                        braced(facade_body_text(self.fn_type@, self.impl_fn@.name)),
                    )
                    &&& e@ == (SynthErrView::BodyTemplateUnparseable {
                        text: facade_body_text(self.fn_type@, self.impl_fn@.name),
                        span: old(target)@.name_span,
                    })
                },
            },
    {
        let blockz = blockz_path();
        let impl_fn_ident = &self.impl_fn.name;
        let stmt = match self.fn_type {
            SingletonFnType::NonMut => Self::build_use_singleton_stmt(impl_fn_ident),
            SingletonFnType::NonMutWithArg(arg) => Self::build_use_singleton_with_arg_stmt(
                impl_fn_ident,
                arg,
            ),
            SingletonFnType::Mut => Self::build_use_mut_singleton_stmt(impl_fn_ident),
            SingletonFnType::MutWithArg(arg) => Self::build_use_mut_singleton_with_arg_stmt(
                impl_fn_ident,
                arg,
            ),
        };
        let mut body = String::from_str("#[allow(unused_imports)] use ");
        body.append(blockz.as_str());
        body.append("::singleton::Singleton; ");
        body.append(stmt.as_str());
        Self::replace_fn_block(target, body)
    }

    /// Build the facade: clone the base, remove the receiver, add the
    /// inlining hint, and install the accessor-call body.
    pub fn build(self) -> (r: Result<MethodDecl, SynthesisError>)
        requires
            self.base.wf(),
        ensures
            match r {
                Ok(f) => spec_build_facade(self.base@, self.fn_type@, self.impl_fn@.name) == Ok::<
                    MethodDeclView,
                    SynthErrView,
                >(f@),
                Err(e) => spec_build_facade(self.base@, self.fn_type@, self.impl_fn@.name) == Err::<
                    MethodDeclView,
                    SynthErrView,
                >(e@),
            },
    {
        let mut facade_fn = self.base.dup();
        match Self::remove_fn_receiver(&mut facade_fn) {
            Ok(_) => {},
            Err(e) => {
                return Err(e);
            },
        }
        match Self::add_inline_always_attr(&mut facade_fn) {
            Ok(_) => {},
            Err(e) => {
                return Err(e);
            },
        }
        match self.build_facade_impl(&mut facade_fn) {
            Ok(_) => {},
            Err(e) => {
                return Err(e);
            },
        }
        proof {
            assert(facade_fn@ =~= spec_build_facade(
                self.base@,
                self.fn_type@,
                self.impl_fn@.name,
            )->Ok_0);
        }
        Ok(facade_fn)
    }
}

} // verus!
