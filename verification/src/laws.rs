//! The classification and synthesis laws, stated and proved once for all
//! declarations.

use vstd::prelude::*;

use crate::decl::call_site_span;
use crate::decl::DiagnosticView;
use crate::decl::FnArgView;
use crate::decl::MethodDeclView;
use crate::decl::PatView;
use crate::decl::TypedParamView;
use crate::facade_fn::braced;
use crate::facade_fn::facade_body_text;
use crate::facade_fn::inline_attr_text;
use crate::singleton_fns::all_named;
use crate::singleton_fns::arg_param;
use crate::singleton_fns::call_arg_text;
use crate::singleton_fns::lemma_first_non_ident_none;
use crate::singleton_fns::param_names;
use crate::singleton_fns::param_types;
use crate::singleton_fns::pat_text;
use crate::singleton_fns::receiver_of;
use crate::singleton_fns::sig_arg_text;
use crate::singleton_fns::spec_classify;
use crate::singleton_fns::tuple_type_text;
use crate::singleton_fns::typed_extras;
use crate::singleton_fns::ArgsView;
use crate::singleton_fns::ClassifyErrView;
use crate::singleton_fns::ShapeView;
use crate::singleton_fns::has_tuple_adapter;
use crate::singleton_fns::legend_bindings_text;
use crate::singleton_fns::shape_adapter;
use crate::syn_checks::parsed_outer_attr_count;
use crate::syn_checks::parses_as_block;
use crate::syn_checks::parses_as_fn_arg;
use crate::text::join_comma;
use crate::transform::impl_fn_name;
use crate::transform::spec_transform;
use crate::transform::PairView;
use crate::tuple_arg_name;

verus! {

/// A method with a shared reference receiver and no extra parameters
/// classifies as the plain shared shape, and whenever its transformation
/// succeeds, the synthesized facade's parameter list is empty.
pub proof fn lemma_shared_receiver_no_args(d: MethodDeclView)
    requires
        d.inputs.len() == 1,
        d.inputs[0] is Receiver,
        receiver_of(d.inputs[0]).reference,
        !receiver_of(d.inputs[0]).mutable,
    ensures
        spec_classify(d) == Ok::<ShapeView, ClassifyErrView>(ShapeView::NonMut),
        spec_transform(d) is Ok ==> spec_transform(d)->Ok_0.facade_fn.inputs.len() == 0,
{
    assert(typed_extras(d.inputs).len() == 0);
}

/// A method with an exclusive reference receiver and exactly one named
/// extra parameter `x: t` classifies as the exclusive shape with that
/// single argument, and whenever its transformation succeeds, the facade's
/// one parameter is exactly the original parameter and `x` is forwarded
/// unchanged into the exclusive-access-with-argument call.
pub proof fn lemma_exclusive_receiver_single_arg(d: MethodDeclView, x: Seq<char>, t: Seq<char>)
    requires
        d.inputs.len() == 2,
        d.inputs[0] is Receiver,
        receiver_of(d.inputs[0]).reference,
        receiver_of(d.inputs[0]).mutable,
        d.inputs[1] is Typed,
        arg_param(d.inputs[1]).pat is Ident,
        pat_text(arg_param(d.inputs[1]).pat) == x,
        arg_param(d.inputs[1]).ty == t,
    ensures
        spec_classify(d) == Ok::<ShapeView, ClassifyErrView>(
            ShapeView::MutWithArg(ArgsView::Single { arg_ident: x, arg_type: t }),
        ),
        call_arg_text(ArgsView::Single { arg_ident: x, arg_type: t }) == x,
        spec_transform(d) is Ok ==> {
            let f = spec_transform(d)->Ok_0.facade_fn;
            &&& f.inputs.len() == 1
            &&& f.inputs[0] == d.inputs[1]
            &&& f.body == facade_body_text(
                ShapeView::MutWithArg(ArgsView::Single { arg_ident: x, arg_type: t }),
                impl_fn_name(d.name),
            )
            &&& f.body == "#[allow(unused_imports)] use ::blockz::singleton::Singleton; "@
                + "Self::use_mut_singleton_with_arg(Self::"@ + impl_fn_name(d.name) + ", "@ + x
                + ").await"@
        },
{
    let extras = typed_extras(d.inputs);
    assert(extras.len() == 1);
    assert(extras[0] == arg_param(d.inputs[1]));
    assert(forall|k: int| 0 <= k < extras.len() ==> (#[trigger] extras[k].pat) is Ident);
    lemma_first_non_ident_none(extras);
    if spec_transform(d) is Ok {
        let f = spec_transform(d)->Ok_0.facade_fn;
        assert(f.inputs == d.inputs.skip(1));
        assert(f.inputs[0] == d.inputs[1]);
        reveal_strlit("#[allow(unused_imports)] use ");
        reveal_strlit("::blockz");
        reveal_strlit("::singleton::Singleton; ");
        reveal_strlit("#[allow(unused_imports)] use ::blockz::singleton::Singleton; ");
        assert("#[allow(unused_imports)] use "@ + "::blockz"@ + "::singleton::Singleton; "@
            =~= "#[allow(unused_imports)] use ::blockz::singleton::Singleton; "@);
        assert(f.body =~= "#[allow(unused_imports)] use ::blockz::singleton::Singleton; "@
            + "Self::use_mut_singleton_with_arg(Self::"@ + impl_fn_name(d.name) + ", "@ + x
            + ").await"@);
    }
}

/// A method with a shared reference receiver and two or more named extra
/// parameters classifies as the shared shape with the tuple adapter: the
/// tuple type lists the parameter types in declaration order, the names
/// keep declaration order, the adapted call argument is the tuple literal
/// of the names in that same order, and the adapter's signature argument
/// binds the reserved tuple name to the tuple of the types in that same
/// order — the round trip through call argument and signature argument
/// pairs name `i` with type `i` at the same tuple position. Whenever the
/// transformation succeeds, the facade keeps the named parameters while
/// the implementation method is rewritten to the receiver plus the tuple
/// parameter, its body opening with the unpacking bindings.
pub proof fn lemma_shared_receiver_multi_arg(d: MethodDeclView)
    requires
        d.inputs.len() >= 3,
        d.inputs[0] is Receiver,
        receiver_of(d.inputs[0]).reference,
        !receiver_of(d.inputs[0]).mutable,
        forall|i: int| 1 <= i < d.inputs.len() ==> (#[trigger] d.inputs[i]) is Typed,
        forall|i: int|
            1 <= i < d.inputs.len() ==> (#[trigger] arg_param(d.inputs[i]).pat) is Ident,
    ensures
        spec_classify(d) == Ok::<ShapeView, ClassifyErrView>(
            ShapeView::NonMutWithArg(
                ArgsView::Multiple {
                    arg_idents: param_names(typed_extras(d.inputs)),
                    tuple_ident: tuple_arg_name(),
                    tuple_type: param_types(typed_extras(d.inputs)),
                },
            ),
        ),
        param_names(typed_extras(d.inputs)).len() == param_types(typed_extras(d.inputs)).len(),
        forall|i: int|
            0 <= i < typed_extras(d.inputs).len() ==> #[trigger] param_names(
                typed_extras(d.inputs),
            )[i] == pat_text(arg_param(d.inputs[i + 1]).pat) && param_types(
                typed_extras(d.inputs),
            )[i] == arg_param(d.inputs[i + 1]).ty,
        call_arg_text(
            ArgsView::Multiple {
                arg_idents: param_names(typed_extras(d.inputs)),
                tuple_ident: tuple_arg_name(),
                tuple_type: param_types(typed_extras(d.inputs)),
            },
        ) == "("@ + join_comma(param_names(typed_extras(d.inputs))) + ")"@,
        sig_arg_text(
            ArgsView::Multiple {
                arg_idents: param_names(typed_extras(d.inputs)),
                tuple_ident: tuple_arg_name(),
                tuple_type: param_types(typed_extras(d.inputs)),
            },
        ) == tuple_arg_name() + ": "@ + tuple_type_text(param_types(typed_extras(d.inputs))),
        spec_transform(d) is Ok ==> {
            let p = spec_transform(d)->Ok_0;
            &&& p.facade_fn.inputs == d.inputs.skip(1)
            &&& p.impl_fn.inputs.len() == 2
            &&& p.impl_fn.inputs[0] == d.inputs[0]
            &&& p.impl_fn.inputs[1] == FnArgView::Typed(
                TypedParamView {
                    pat: PatView::Ident { name: tuple_arg_name(), span: call_site_span() },
                    ty: tuple_type_text(param_types(typed_extras(d.inputs))),
                    span: call_site_span(),
                },
            )
            &&& p.impl_fn.body == legend_bindings_text(
                param_names(typed_extras(d.inputs)),
                tuple_arg_name(),
            ) + d.body
        },
{
    let extras = typed_extras(d.inputs);
    assert(extras.len() == d.inputs.len() - 1);
    assert(forall|k: int| 0 <= k < extras.len() ==> #[trigger] extras[k] == arg_param(
        d.inputs[k + 1],
    ));
    assert(forall|k: int| 0 <= k < extras.len() ==> (#[trigger] extras[k].pat) is Ident);
    lemma_first_non_ident_none(extras);
}

/// Classifying a method with no inputs at all fails with the missing
/// receiver error, located at the method's identifier; it never yields a
/// shape, and the whole transformation fails with it.
pub proof fn lemma_no_inputs_is_error(d: MethodDeclView)
    requires
        d.inputs.len() == 0,
    ensures
        spec_classify(d) == Err::<ShapeView, ClassifyErrView>(
            ClassifyErrView::FnHasNoInputs { span: d.name_span },
        ),
        spec_transform(d) is Err,
        spec_transform(d)->Err_0.span == d.name_span,
{
}

/// Classifying a method whose receiver is declared by value fails with the
/// receiver-not-reference error, located at the receiver, however
/// well-formed the rest of the method is.
pub proof fn lemma_value_receiver_is_error(d: MethodDeclView)
    requires
        d.inputs.len() > 0,
        d.inputs[0] is Receiver,
        !receiver_of(d.inputs[0]).reference,
    ensures
        spec_classify(d) == Err::<ShapeView, ClassifyErrView>(
            ClassifyErrView::FnReceiverNotRef { span: receiver_of(d.inputs[0]).span },
        ),
        spec_transform(d) is Err,
        spec_transform(d)->Err_0.span == receiver_of(d.inputs[0]).span,
{
}

/// Classification succeeds exactly on the well-formed signatures: a first
/// input that is a reference receiver, and every extra parameter bound by
/// an identifier. Everything else fails, and never with a degenerate shape.
pub proof fn lemma_classify_success_condition(d: MethodDeclView)
    ensures
        spec_classify(d) is Ok <==> {
            &&& d.inputs.len() > 0
            &&& d.inputs[0] is Receiver
            &&& receiver_of(d.inputs[0]).reference
            &&& (typed_extras(d.inputs).len() == 0 || all_named(typed_extras(d.inputs)))
        },
{
}

/// Two methods never interfere: what transforming one declaration yields
/// is a function of that declaration alone, so a malformed sibling in the
/// same scope leaves a well-formed method's transformation untouched — it
/// still succeeds whenever the fixed templates parse back.
pub proof fn lemma_no_cross_method_interference(good: MethodDeclView, bad: MethodDeclView)
    requires
        spec_classify(bad) is Err,
        spec_classify(good) is Ok,
    ensures
        spec_transform(bad) is Err,
        (parsed_outer_attr_count(inline_attr_text()) == Some(1usize) && parses_as_block(
            braced(facade_body_text(spec_classify(good)->Ok_0, impl_fn_name(good.name))),
        ) && (has_tuple_adapter(spec_classify(good)->Ok_0) ==> parses_as_fn_arg(
            sig_arg_text(shape_adapter(spec_classify(good)->Ok_0)->0),
        ))) ==> spec_transform(good) is Ok,
{
    if spec_classify(good) is Ok {
        assert(good.inputs.len() > 0 && good.inputs[0] is Receiver);
    }
}

} // verus!
