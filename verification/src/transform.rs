//! The driver of one singleton-method transformation.
//!
//! A declaration either transforms completely — into the implementation
//! method, renamed and rewritten to the adapter's single-argument
//! convention where several extra parameters were packed, and the
//! synthesized facade — or not at all, with one located diagnostic. The
//! driver holds no state across methods: what one declaration yields can
//! never depend on another.

use vstd::prelude::*;

use crate::decl::call_site_span;
use crate::decl::Diagnostic;
use crate::decl::DiagnosticView;
use crate::decl::FnArgDecl;
use crate::decl::FnArgView;
use crate::decl::MethodDecl;
use crate::decl::MethodDeclView;
use crate::decl::PatView;
use crate::decl::TypedParamView;
use crate::facade_fn::spec_build_facade;
use crate::facade_fn::synth_err_message;
use crate::facade_fn::synth_err_span;
use crate::facade_fn::FacadeFnFactory;
use crate::facade_fn::SynthErrView;
use crate::facade_fn::SynthesisError;
use crate::singleton_fns::adapter_arg_idents;
use crate::singleton_fns::adapter_tuple_ident;
use crate::singleton_fns::adapter_tuple_type;
use crate::singleton_fns::classify_err_message;
use crate::singleton_fns::classify_err_span;
use crate::singleton_fns::has_tuple_adapter;
use crate::singleton_fns::legend_binding_text;
use crate::singleton_fns::legend_bindings_text;
use crate::singleton_fns::legend_entry_text;
use crate::singleton_fns::shape_adapter;
use crate::singleton_fns::sig_arg_text;
use crate::singleton_fns::spec_classify;
use crate::singleton_fns::tuple_type_text;
use crate::singleton_fns::ShapeView;
use crate::singleton_fns::SingletonFnArgs;
use crate::singleton_fns::SingletonFnType;
use crate::syn_checks::parses_as_fn_arg;

verus! {

/// The output of one transformation: the implementation method and the
/// facade emitted beside it.
#[derive(Debug)]
pub struct TransformedPair {
    pub impl_fn: MethodDecl,
    pub facade_fn: MethodDecl,
}

/// The mathematical view of a transformed pair.
#[verifier::ext_equal]
pub struct PairView {
    pub impl_fn: MethodDeclView,
    pub facade_fn: MethodDeclView,
}

impl View for TransformedPair {
    type V = PairView;

    open spec fn view(&self) -> PairView {
        PairView { impl_fn: self.impl_fn@, facade_fn: self.facade_fn@ }
    }
}

/// The implementation method's identifier: the base identifier with the
/// reserved suffix.
pub open spec fn impl_fn_name(name: Seq<char>) -> Seq<char> {
    name + "_impl"@
}

/// The implementation method. With no extra parameter, or a single one, it
/// is the base declaration renamed and otherwise untouched. With the tuple
/// adapter it is rewritten to the single-argument convention: its inputs
/// become the receiver and the reserved tuple parameter, and the unpacking
/// bindings are spliced in front of the original body, so that the emitted
/// pair type-checks against the one-argument accessor.
pub open spec fn spec_impl_fn(d: MethodDeclView, shape: ShapeView) -> MethodDeclView {
    if has_tuple_adapter(shape) {
        let a = shape_adapter(shape)->0;
        MethodDeclView {
            attrs: d.attrs,
            name: impl_fn_name(d.name),
            name_span: d.name_span,
            inputs: seq![
                d.inputs[0],
                FnArgView::Typed(
                    TypedParamView {
                        pat: PatView::Ident {
                            name: adapter_tuple_ident(a),
                            span: call_site_span(),
                        },
                        ty: tuple_type_text(adapter_tuple_type(a)),
                        span: call_site_span(),
                    },
                ),
            ],
            output: d.output,
            body: legend_bindings_text(adapter_arg_idents(a), adapter_tuple_ident(a)) + d.body,
        }
    } else {
        MethodDeclView {
            attrs: d.attrs,
            name: impl_fn_name(d.name),
            name_span: d.name_span,
            inputs: d.inputs,
            output: d.output,
            body: d.body,
        }
    }
}

/// What transforming one declaration returns: the pair, or the diagnostic
/// of the first failure — classification, then the implementation rewrite,
/// then facade synthesis.
pub open spec fn spec_transform(d: MethodDeclView) -> Result<PairView, DiagnosticView> {
    match spec_classify(d) {
        Err(e) => Err(
            DiagnosticView { span: classify_err_span(e), message: classify_err_message(e) },
        ),
        Ok(shape) => {
            if has_tuple_adapter(shape) && !parses_as_fn_arg(sig_arg_text(shape_adapter(shape)->0))
             {
                Err(
                    DiagnosticView {
                        span: d.name_span,
                        message: synth_err_message(
                            SynthErrView::SigTemplateUnparseable {
                                text: sig_arg_text(shape_adapter(shape)->0),
                                span: d.name_span,
                            },
                        ),
                    },
                )
            } else {
                match spec_build_facade(d, shape, impl_fn_name(d.name)) {
                    Err(e) => Err(
                        DiagnosticView { span: synth_err_span(e), message: synth_err_message(e) },
                    ),
                    Ok(f) => Ok(PairView { impl_fn: spec_impl_fn(d, shape), facade_fn: f }),
                }
            }
        },
    }
}

/// Build the implementation method for a classified shape: rename, and for
/// the tuple adapter rewrite the inputs to the signature argument and
/// splice the unpacking bindings in front of the body. A signature-argument
/// text the parser refuses is an internal templating defect.
pub fn build_impl_fn(base: &MethodDecl, fn_type: &SingletonFnType) -> (r: Result<
    MethodDecl,
    SynthesisError,
>)
    requires
        has_tuple_adapter(fn_type@) ==> base@.inputs.len() >= 1,
    ensures
        match r {
            Ok(f) => {
                &&& has_tuple_adapter(fn_type@) ==> parses_as_fn_arg(
                    sig_arg_text(shape_adapter(fn_type@)->0),
                )
                &&& f@ == spec_impl_fn(base@, fn_type@)
            },
            Err(e) => {
                &&& has_tuple_adapter(fn_type@)
                &&& !parses_as_fn_arg(sig_arg_text(shape_adapter(fn_type@)->0))
                &&& e@ == (SynthErrView::SigTemplateUnparseable {
                    text: sig_arg_text(shape_adapter(fn_type@)->0),
                    span: base@.name_span,
                })
            },
        },
{
    let mut impl_fn = base.dup();
    let mut new_name = base.name.clone();
    new_name.append("_impl");
    impl_fn.name = new_name;
    let args: &SingletonFnArgs = match fn_type {
        SingletonFnType::NonMutWithArg(a) => a,
        SingletonFnType::MutWithArg(a) => a,
        SingletonFnType::NonMut => {
            proof {
                assert(impl_fn@ =~= spec_impl_fn(base@, fn_type@));
            }
            return Ok(impl_fn);
        },
        SingletonFnType::Mut => {
            proof {
                assert(impl_fn@ =~= spec_impl_fn(base@, fn_type@));
            }
            return Ok(impl_fn);
        },
    };
    let legend = match args.build_impl_fn_replacement_legend() {
        Some(l) => l,
        None => {
            // a single argument is passed through unchanged
            proof {
                assert(impl_fn@ =~= spec_impl_fn(base@, fn_type@));
            }
            return Ok(impl_fn);
        },
    };
    let sig_arg = match args.build_impl_fn_sig_arg() {
        Ok(p) => p,
        Err(te) => {
            return Err(
                SynthesisError::SigTemplateUnparseable { text: te.text, span: base.name_span },
            );
        },
    };
    let ghost names = adapter_arg_idents(args@);
    let ghost tid = adapter_tuple_ident(args@);
    let mut inputs: Vec<FnArgDecl> = Vec::new();
    inputs.push(base.inputs[0].dup());
    inputs.push(FnArgDecl::Typed(sig_arg));
    impl_fn.inputs = inputs;
    let mut body = String::new();
    let mut k: usize = 0;
    while k < legend.len()
        invariant
            k <= legend@.len(),
            legend@.len() == names.len(),
            forall|i: int|
                0 <= i < names.len() ==> (#[trigger] legend@[i]).0@ == names[i]
                    && legend@[i].1@ == legend_entry_text(tid, i),
            body@ == legend_bindings_text(names.take(k as int), tid),
        decreases legend@.len() - k,
    {
        body.append("let ");
        body.append(legend[k].0.as_str());
        body.append(" = ");
        body.append(legend[k].1.as_str());
        body.append("; ");
        proof {
            assert(names.take(k + 1).drop_last() =~= names.take(k as int));
            assert(names.take(k + 1).last() == names[k as int]);
            assert(body@ =~= legend_bindings_text(names.take(k as int), tid)
                + legend_binding_text(names[k as int], tid, k as int));
        }
        k = k + 1;
    }
    proof {
        assert(names.take(names.len() as int) =~= names);
    }
    body.append(base.body.as_str());
    impl_fn.body = body;
    proof {
        assert(impl_fn@ =~= spec_impl_fn(base@, fn_type@));
    }
    Ok(impl_fn)
}

/// Transform one singleton method: classify it, build the implementation
/// method, and synthesize the facade. Either both declarations are
/// produced, or none is and the diagnostic locates the first offending
/// element.
pub fn transform_singleton_fn(base: &MethodDecl) -> (r: Result<TransformedPair, Diagnostic>)
    requires
        base.wf(),
    ensures
        match r {
            Ok(p) => spec_transform(base@) == Ok::<PairView, DiagnosticView>(p@),
            Err(d) => spec_transform(base@) == Err::<PairView, DiagnosticView>(d@),
        },
{
    let fn_type = match SingletonFnType::try_from(base) {
        Ok(t) => t,
        Err(e) => {
            return Err(e.to_diagnostic());
        },
    };
    let impl_fn = match build_impl_fn(base, &fn_type) {
        Ok(f) => f,
        Err(e) => {
            return Err(e.to_diagnostic());
        },
    };
    let factory = FacadeFnFactory::new(base, &fn_type, &impl_fn);
    match factory.build() {
        Ok(facade_fn) => Ok(TransformedPair { impl_fn, facade_fn }),
        Err(e) => Err(e.to_diagnostic()),
    }
}

} // verus!
