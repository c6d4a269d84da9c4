//! Classification of singleton method signatures and the argument adapter.
//!
//! A signature is classified by its receiver mutability (shared or
//! exclusive) and by the presence of extra parameters; the four resulting
//! shapes are the only representable combinations. Methods with extra
//! parameters carry an adapter that packs them, when there are two or more,
//! into one tuple argument under a reserved name.

use vstd::prelude::*;
use vstd::pervasive::arbitrary;
use vstd::pervasive::unreached;

use crate::decl::FnArgDecl;
use crate::decl::FnArgView;
use crate::decl::PatDecl;
use crate::decl::PatView;
use crate::decl::ReceiverDecl;
use crate::decl::SrcSpan;
use crate::decl::TypedParam;
use crate::decl::TypedParamView;
use crate::decl::MethodDecl;
use crate::decl::MethodDeclView;
use crate::decl::Diagnostic;
use crate::decl::TemplateError;
use crate::decl::call_site_span;
use crate::syn_checks::parses_as_fn_arg;
use crate::syn_checks::parse_fn_arg_text;
use crate::text::join_comma;
use crate::text::str_views;
use crate::text::dec_str;
use crate::text::join_comma_strings;
use crate::text::usize_dec_string;
use crate::tuple_arg_name;

verus! {

/// Arguments of a singleton method beyond its receiver.
#[derive(Debug)]
pub enum SingletonFnArgs {
    /// Exactly one extra parameter; passed through unchanged.
    Single { arg_ident: String, arg_type: String },
    /// Two or more extra parameters, packed into one tuple argument under
    /// the reserved name. The tuple type lists the original parameter types
    /// in declaration order.
    Multiple { arg_idents: Vec<String>, tuple_ident: String, tuple_type: Vec<String> },
}

/// The mathematical view of an argument set.
#[verifier::ext_equal]
pub enum ArgsView {
    Single { arg_ident: Seq<char>, arg_type: Seq<char> },
    Multiple { arg_idents: Seq<Seq<char>>, tuple_ident: Seq<char>, tuple_type: Seq<Seq<char>> },
}

impl View for SingletonFnArgs {
    type V = ArgsView;

    open spec fn view(&self) -> ArgsView {
        match self {
            SingletonFnArgs::Single { arg_ident, arg_type } => ArgsView::Single {
                arg_ident: arg_ident@,
                arg_type: arg_type@,
            },
            SingletonFnArgs::Multiple { arg_idents, tuple_ident, tuple_type } => ArgsView::Multiple {
                arg_idents: str_views(arg_idents@),
                tuple_ident: tuple_ident@,
                tuple_type: str_views(tuple_type@),
            },
        }
    }
}

/// The shape of a singleton method: receiver mutability crossed with the
/// presence of extra parameters. No other combination is representable.
#[derive(Debug)]
pub enum SingletonFnType {
    NonMut,
    NonMutWithArg(SingletonFnArgs),
    Mut,
    MutWithArg(SingletonFnArgs),
}

/// The mathematical view of a shape.
#[verifier::ext_equal]
pub enum ShapeView {
    NonMut,
    NonMutWithArg(ArgsView),
    Mut,
    MutWithArg(ArgsView),
}

impl View for SingletonFnType {
    type V = ShapeView;

    open spec fn view(&self) -> ShapeView {
        match self {
            SingletonFnType::NonMut => ShapeView::NonMut,
            SingletonFnType::NonMutWithArg(a) => ShapeView::NonMutWithArg(a@),
            SingletonFnType::Mut => ShapeView::Mut,
            SingletonFnType::MutWithArg(a) => ShapeView::MutWithArg(a@),
        }
    }
}

/// Errors produced when attempting to classify a singleton method.
#[derive(Debug)]
pub enum SingletonFnError {
    /// The method has no inputs at all, so no receiver.
    FnHasNoInputs { span: SrcSpan },
    /// The receiver is declared by value rather than by reference.
    FnReceiverNotRef { span: SrcSpan },
    /// The first input is a typed parameter, not a receiver.
    FnArgNotReceiver { pat: String, ty: String, span: SrcSpan },
    /// An input that had to be a typed parameter is a receiver.
    FnArgNotTyped { span: SrcSpan },
    /// An extra parameter is bound by a pattern, not by an identifier.
    PatTypeNoIdent { span: SrcSpan },
}

/// The mathematical view of a classification error.
#[verifier::ext_equal]
pub enum ClassifyErrView {
    FnHasNoInputs { span: SrcSpan },
    FnReceiverNotRef { span: SrcSpan },
    FnArgNotReceiver { pat: Seq<char>, ty: Seq<char>, span: SrcSpan },
    FnArgNotTyped { span: SrcSpan },
    PatTypeNoIdent { span: SrcSpan },
}

impl View for SingletonFnError {
    type V = ClassifyErrView;

    open spec fn view(&self) -> ClassifyErrView {
        match self {
            SingletonFnError::FnHasNoInputs { span } => ClassifyErrView::FnHasNoInputs {
                span: *span,
            },
            SingletonFnError::FnReceiverNotRef { span } => ClassifyErrView::FnReceiverNotRef {
                span: *span,
            },
            SingletonFnError::FnArgNotReceiver { pat, ty, span } => ClassifyErrView::FnArgNotReceiver {
                pat: pat@,
                ty: ty@,
                span: *span,
            },
            SingletonFnError::FnArgNotTyped { span } => ClassifyErrView::FnArgNotTyped {
                span: *span,
            },
            SingletonFnError::PatTypeNoIdent { span } => ClassifyErrView::PatTypeNoIdent {
                span: *span,
            },
        }
    }
}

/// The token text of a pattern.
pub open spec fn pat_text(p: PatView) -> Seq<char> {
    match p {
        PatView::Ident { name, .. } => name,
        PatView::Other { text, .. } => text,
    }
}

/// The typed parameter inside an input-list entry.
pub open spec fn arg_param(a: FnArgView) -> TypedParamView {
    match a {
        FnArgView::Typed(p) => p,
        FnArgView::Receiver(_) => arbitrary(),
    }
}

/// The receiver inside an input-list entry.
pub open spec fn receiver_of(a: FnArgView) -> ReceiverDecl {
    match a {
        FnArgView::Receiver(r) => r,
        FnArgView::Typed(_) => arbitrary(),
    }
}

/// The extra parameters of a well-formed input list: everything after the
/// receiver position.
pub open spec fn typed_extras(inputs: Seq<FnArgView>) -> Seq<TypedParamView> {
    inputs.skip(1).map_values(|a: FnArgView| arg_param(a))
}

/// The position of the first extra parameter that is not bound by an
/// identifier, if any.
pub open spec fn first_non_ident(ps: Seq<TypedParamView>) -> Option<int>
    decreases ps.len(),
{
    if ps.len() == 0 {
        None
    } else if !(ps[0].pat is Ident) {
        Some(0)
    } else {
        match first_non_ident(ps.drop_first()) {
            None => None,
            Some(j) => Some(j + 1),
        }
    }
}

/// Whether every extra parameter is bound by an identifier.
pub open spec fn all_named(ps: Seq<TypedParamView>) -> bool {
    first_non_ident(ps) is None
}

/// The parameter names, in declaration order.
pub open spec fn param_names(ps: Seq<TypedParamView>) -> Seq<Seq<char>> {
    ps.map_values(|p: TypedParamView| pat_text(p.pat))
}

/// The parameter types, in declaration order.
pub open spec fn param_types(ps: Seq<TypedParamView>) -> Seq<Seq<char>> {
    ps.map_values(|p: TypedParamView| p.ty)
}

/// The adapter of one or more named extra parameters: one parameter passes
/// through unchanged; several are packed into the reserved tuple argument,
/// names and types kept in declaration order.
pub open spec fn spec_adapt(ps: Seq<TypedParamView>) -> ArgsView
    recommends
        ps.len() >= 1,
        all_named(ps),
{
    if ps.len() == 1 {
        ArgsView::Single { arg_ident: pat_text(ps[0].pat), arg_type: ps[0].ty }
    } else {
        ArgsView::Multiple {
            arg_idents: param_names(ps),
            tuple_ident: tuple_arg_name(),
            tuple_type: param_types(ps),
        }
    }
}

/// What building an argument set from the extra parameters returns: the
/// adapter, or the error naming the first parameter without an identifier.
pub open spec fn spec_args_try_from(ps: Seq<TypedParamView>) -> Result<ArgsView, ClassifyErrView>
    recommends
        ps.len() >= 1,
{
    match first_non_ident(ps) {
        Some(j) => Err(ClassifyErrView::PatTypeNoIdent { span: ps[j].span }),
        None => Ok(spec_adapt(ps)),
    }
}

/// What classifying a method declaration returns, for every declaration.
pub open spec fn spec_classify(d: MethodDeclView) -> Result<ShapeView, ClassifyErrView> {
    if d.inputs.len() == 0 {
        Err(ClassifyErrView::FnHasNoInputs { span: d.name_span })
    } else {
        match d.inputs[0] {
            FnArgView::Typed(p) => Err(
                ClassifyErrView::FnArgNotReceiver { pat: pat_text(p.pat), ty: p.ty, span: p.span },
            ),
            FnArgView::Receiver(r) => {
                if !r.reference {
                    Err(ClassifyErrView::FnReceiverNotRef { span: r.span })
                } else {
                    let extras = typed_extras(d.inputs);
                    if extras.len() == 0 {
                        if r.mutable {
                            Ok(ShapeView::Mut)
                        } else {
                            Ok(ShapeView::NonMut)
                        }
                    } else {
                        match spec_args_try_from(extras) {
                            Ok(a) => if r.mutable {
                                Ok(ShapeView::MutWithArg(a))
                            } else {
                                Ok(ShapeView::NonMutWithArg(a))
                            },
                            Err(e) => Err(e),
                        }
                    }
                }
            },
        }
    }
}

/// The view of a classification result.
pub open spec fn classify_view(r: Result<SingletonFnType, SingletonFnError>) -> Result<
    ShapeView,
    ClassifyErrView,
> {
    match r {
        Ok(t) => Ok(t@),
        Err(e) => Err(e@),
    }
}

/// The views of a list of typed parameters.
pub open spec fn param_views(ps: Seq<TypedParam>) -> Seq<TypedParamView> {
    ps.map_values(|p: TypedParam| p@)
}

pub(crate) proof fn lemma_first_non_ident_at(ps: Seq<TypedParamView>, i: int)
    requires
        0 <= i < ps.len(),
        forall|k: int| 0 <= k < i ==> (#[trigger] ps[k].pat) is Ident,
        !(ps[i].pat is Ident),
    ensures
        first_non_ident(ps) == Some(i),
    decreases i,
{
    if i == 0 {
    } else {
        assert(forall|k: int|
            0 <= k < i - 1 ==> (#[trigger] ps.drop_first()[k].pat) is Ident) by {
            assert(forall|k: int| 0 <= k < i - 1 ==> ps.drop_first()[k] == ps[k + 1]);
        }
        lemma_first_non_ident_at(ps.drop_first(), i - 1);
    }
}

pub(crate) proof fn lemma_first_non_ident_none(ps: Seq<TypedParamView>)
    requires
        forall|k: int| 0 <= k < ps.len() ==> (#[trigger] ps[k].pat) is Ident,
    ensures
        first_non_ident(ps) is None,
    decreases ps.len(),
{
    if ps.len() == 0 {
    } else {
        assert(forall|k: int|
            0 <= k < ps.len() - 1 ==> (#[trigger] ps.drop_first()[k].pat) is Ident) by {
            assert(forall|k: int| 0 <= k < ps.len() - 1 ==> ps.drop_first()[k] == ps[k + 1]);
        }
        lemma_first_non_ident_none(ps.drop_first());
    }
}

/// Read an input-list entry as the receiver; the error names the typed
/// parameter found instead.
pub fn fn_arg_as_receiver(src: &FnArgDecl) -> (r: Result<ReceiverDecl, SingletonFnError>)
    ensures
        match r {
            Ok(rec) => src@ == FnArgView::Receiver(rec),
            Err(e) => src@ is Typed && e@ == (ClassifyErrView::FnArgNotReceiver {
                pat: pat_text(arg_param(src@).pat),
                ty: arg_param(src@).ty,
                span: arg_param(src@).span,
            }),
        },
{
    match src {
        FnArgDecl::Receiver(rec) => Ok(*rec),
        FnArgDecl::Typed(p) => {
            let pat = match &p.pat {
                PatDecl::Ident { name, .. } => name.clone(),
                PatDecl::Other { text, .. } => text.clone(),
            };
            Err(SingletonFnError::FnArgNotReceiver { pat, ty: p.ty.clone(), span: p.span })
        },
    }
}

/// Read an input-list entry as a typed parameter; a receiver is refused.
pub fn fn_arg_as_typed(src: &FnArgDecl) -> (r: Result<TypedParam, SingletonFnError>)
    ensures
        match r {
            Ok(p) => src@ == FnArgView::Typed(p@),
            Err(e) => src@ is Receiver && e@ == (ClassifyErrView::FnArgNotTyped {
                span: receiver_of(src@).span,
            }),
        },
{
    match src {
        FnArgDecl::Typed(p) => Ok(p.dup()),
        FnArgDecl::Receiver(rec) => Err(SingletonFnError::FnArgNotTyped { span: rec.span }),
    }
}

/// Read a typed parameter's binding identifier; any other pattern is
/// refused, since the name is needed for tuple extraction and forwarding.
pub fn pat_type_as_ident(src: &TypedParam) -> (r: Result<String, SingletonFnError>)
    ensures
        match r {
            Ok(id) => src@.pat is Ident && id@ == pat_text(src@.pat),
            Err(e) => !(src@.pat is Ident) && e@ == (ClassifyErrView::PatTypeNoIdent {
                span: src@.span,
            }),
        },
{
    match &src.pat {
        PatDecl::Ident { name, .. } => Ok(name.clone()),
        PatDecl::Other { .. } => Err(SingletonFnError::PatTypeNoIdent { span: src.span }),
    }
}

/// The text of the argument handed to a with-argument accessor call: the
/// single argument's identifier as it stands, or the tuple literal of the
/// original identifiers in declaration order.
pub open spec fn call_arg_text(a: ArgsView) -> Seq<char> {
    match a {
        ArgsView::Single { arg_ident, .. } => arg_ident,
        ArgsView::Multiple { arg_idents, .. } => "("@ + join_comma(arg_idents) + ")"@,
    }
}

/// The text of a tuple type: the element types in declaration order.
pub open spec fn tuple_type_text(tys: Seq<Seq<char>>) -> Seq<char> {
    "("@ + join_comma(tys) + ")"@
}

/// The binding identifier of the adapter's single-argument convention.
pub open spec fn sig_arg_ident(a: ArgsView) -> Seq<char> {
    match a {
        ArgsView::Single { arg_ident, .. } => arg_ident,
        ArgsView::Multiple { tuple_ident, .. } => tuple_ident,
    }
}

/// The type text of the adapter's single-argument convention.
pub open spec fn sig_arg_type(a: ArgsView) -> Seq<char> {
    match a {
        ArgsView::Single { arg_type, .. } => arg_type,
        ArgsView::Multiple { tuple_type, .. } => tuple_type_text(tuple_type),
    }
}

/// The text of the one parameter accepted under the adapter's
/// single-argument convention.
pub open spec fn sig_arg_text(a: ArgsView) -> Seq<char> {
    sig_arg_ident(a) + ": "@ + sig_arg_type(a)
}

/// The tuple-field extraction text for the parameter at `i`.
pub open spec fn legend_entry_text(tuple_ident: Seq<char>, i: int) -> Seq<char> {
    tuple_ident + "."@ + dec_str(i as nat)
}

/// The binding that unpacks the parameter at `i` out of the tuple argument
/// inside the implementation body.
pub open spec fn legend_binding_text(name: Seq<char>, tuple_ident: Seq<char>, i: int) -> Seq<char> {
    "let "@ + name + " = "@ + legend_entry_text(tuple_ident, i) + "; "@
}

/// The bindings that unpack every parameter out of the tuple argument, in
/// declaration order.
pub open spec fn legend_bindings_text(names: Seq<Seq<char>>, tuple_ident: Seq<char>) -> Seq<char>
    decreases names.len(),
{
    if names.len() == 0 {
        Seq::empty()
    } else {
        legend_bindings_text(names.drop_last(), tuple_ident) + legend_binding_text(
            names.last(),
            tuple_ident,
            names.len() - 1,
        )
    }
}

/// The names of a tuple adapter's original arguments.
pub open spec fn adapter_arg_idents(a: ArgsView) -> Seq<Seq<char>> {
    match a {
        ArgsView::Multiple { arg_idents, .. } => arg_idents,
        ArgsView::Single { .. } => arbitrary(),
    }
}

/// The reserved tuple identifier of a tuple adapter.
pub open spec fn adapter_tuple_ident(a: ArgsView) -> Seq<char> {
    match a {
        ArgsView::Multiple { tuple_ident, .. } => tuple_ident,
        ArgsView::Single { .. } => arbitrary(),
    }
}

/// The ordered element types of a tuple adapter.
pub open spec fn adapter_tuple_type(a: ArgsView) -> Seq<Seq<char>> {
    match a {
        ArgsView::Multiple { tuple_type, .. } => tuple_type,
        ArgsView::Single { .. } => arbitrary(),
    }
}

/// The argument set a shape carries, if any.
pub open spec fn shape_adapter(shape: ShapeView) -> Option<ArgsView> {
    match shape {
        ShapeView::NonMut => None,
        ShapeView::NonMutWithArg(a) => Some(a),
        ShapeView::Mut => None,
        ShapeView::MutWithArg(a) => Some(a),
    }
}

/// Whether a shape carries the tuple adapter of several extra parameters.
pub open spec fn has_tuple_adapter(shape: ShapeView) -> bool {
    match shape_adapter(shape) {
        Some(a) => a is Multiple,
        None => false,
    }
}

impl SingletonFnArgs {
    /// Build the argument used for a singleton accessor call: the single
    /// argument's identifier, or the code of the tuple built from the
    /// original identifiers, in declaration order.
    pub fn build_impl_fn_call_arg(&self) -> (r: String)
        ensures
            r@ == call_arg_text(self@),
    {
        match self {
            SingletonFnArgs::Single { arg_ident, .. } => arg_ident.clone(),
            SingletonFnArgs::Multiple { arg_idents, .. } => {
                let mut out = String::from_str("(");
                let joined = join_comma_strings(arg_idents);
                out.append(joined.as_str());
                out.append(")");
                out
            },
        }
    }

    /// Build the one input accepted under the single-argument convention:
    /// `name: Type` for a single argument, the reserved tuple binding with
    /// the ordered tuple type for several. The text is handed back as a
    /// typed parameter after the parser accepts it; a text the parser
    /// refuses is an internal templating defect.
    pub fn build_impl_fn_sig_arg(&self) -> (r: Result<TypedParam, TemplateError>)
        ensures
            match r {
                Ok(p) => parses_as_fn_arg(sig_arg_text(self@)) && p@ == (TypedParamView {
                    pat: PatView::Ident { name: sig_arg_ident(self@), span: call_site_span() },
                    ty: sig_arg_type(self@),
                    span: call_site_span(),
                }),
                Err(e) => !parses_as_fn_arg(sig_arg_text(self@)) && e.text@ == sig_arg_text(
                    self@,
                ),
            },
    {
        let name: String;
        let ty: String;
        match self {
            SingletonFnArgs::Single { arg_ident, arg_type } => {
                name = arg_ident.clone();
                ty = arg_type.clone();
            },
            SingletonFnArgs::Multiple { tuple_ident, tuple_type, .. } => {
                name = tuple_ident.clone();
                let mut t = String::from_str("(");
                let joined = join_comma_strings(tuple_type);
                t.append(joined.as_str());
                t.append(")");
                ty = t;
            },
        }
        let mut text = name.clone();
        text.append(": ");
        text.append(ty.as_str());
        if parse_fn_arg_text(text.as_str()) {
            Ok(
                TypedParam {
                    pat: PatDecl::Ident { name, span: SrcSpan { lo: 0, hi: 0 } },
                    ty,
                    span: SrcSpan { lo: 0, hi: 0 },
                },
            )
        } else {
            Err(TemplateError { text })
        }
    }

    /// Build the legend that maps each original argument name, for a tuple
    /// adapter, to the extraction text of its tuple field, in declaration
    /// order; a single argument needs none.
    pub fn build_impl_fn_replacement_legend(&self) -> (r: Option<Vec<(String, String)>>)
        ensures
            match self@ {
                ArgsView::Single { .. } => r is None,
                ArgsView::Multiple { arg_idents, tuple_ident, .. } => {
                    &&& r is Some
                    &&& r->0@.len() == arg_idents.len()
                    &&& forall|i: int|
                        0 <= i < arg_idents.len() ==> (#[trigger] r->0@[i]).0@ == arg_idents[i]
                            && r->0@[i].1@ == legend_entry_text(tuple_ident, i)
                },
            },
    {
        match self {
            SingletonFnArgs::Single { .. } => None,
            SingletonFnArgs::Multiple { arg_idents, tuple_ident, .. } => {
                let mut legend: Vec<(String, String)> = Vec::new();
                let mut i: usize = 0;
                while i < arg_idents.len()
                    invariant
                        i <= arg_idents@.len(),
                        legend@.len() == i,
                        forall|k: int|
                            0 <= k < i ==> (#[trigger] legend@[k]).0@ == arg_idents@[k]@
                                && legend@[k].1@ == legend_entry_text(tuple_ident@, k),
                    decreases arg_idents@.len() - i,
                {
                    let mut extraction = tuple_ident.clone();
                    extraction.append(".");
                    let index = usize_dec_string(i);
                    extraction.append(index.as_str());
                    legend.push((arg_idents[i].clone(), extraction));
                    i = i + 1;
                }
                Some(legend)
            },
        }
    }

    /// Build the argument set of one or more extra parameters: the single
    /// parameter as it stands, or the tuple adapter for several.
    pub fn try_from(src: &Vec<TypedParam>) -> (r: Result<SingletonFnArgs, SingletonFnError>)
        requires
            src@.len() >= 1,
        ensures
            match r {
                Ok(a) => spec_args_try_from(param_views(src@)) == Ok::<ArgsView, ClassifyErrView>(
                    a@,
                ),
                Err(e) => spec_args_try_from(param_views(src@)) == Err::<
                    ArgsView,
                    ClassifyErrView,
                >(e@),
            },
    {
        let ghost ps = param_views(src@);
        if src.len() == 1 {
            let arg = &src[0];
            match pat_type_as_ident(arg) {
                Ok(arg_ident) => {
                    proof {
                        lemma_first_non_ident_none(ps);
                    }
                    Ok(SingletonFnArgs::Single { arg_ident, arg_type: arg.ty.clone() })
                },
                Err(e) => {
                    proof {
                        lemma_first_non_ident_at(ps, 0);
                    }
                    Err(e)
                },
            }
        } else {
            let mut arg_idents: Vec<String> = Vec::new();
            let mut i: usize = 0;
            while i < src.len()
                invariant
                    i <= src@.len(),
                    ps == param_views(src@),
                    arg_idents@.len() == i,
                    forall|k: int| 0 <= k < i ==> (#[trigger] ps[k].pat) is Ident,
                    forall|k: int| 0 <= k < i ==> (#[trigger] arg_idents@[k])@ == pat_text(ps[k].pat),
                decreases src@.len() - i,
            {
                match pat_type_as_ident(&src[i]) {
                    Ok(id) => {
                        arg_idents.push(id);
                    },
                    Err(e) => {
                        proof {
                            lemma_first_non_ident_at(ps, i as int);
                        }
                        return Err(e);
                    },
                }
                i = i + 1;
            }
            proof {
                lemma_first_non_ident_none(ps);
                assert(str_views(arg_idents@) =~= param_names(ps));
            }
            let tuple_ident = String::from_str("args");
            let mut tuple_type: Vec<String> = Vec::new();
            let mut j: usize = 0;
            while j < src.len()
                invariant
                    j <= src@.len(),
                    ps == param_views(src@),
                    tuple_type@.len() == j,
                    forall|k: int| 0 <= k < j ==> (#[trigger] tuple_type@[k])@ == ps[k].ty,
                decreases src@.len() - j,
            {
                tuple_type.push(src[j].ty.clone());
                j = j + 1;
            }
            proof {
                assert(str_views(tuple_type@) =~= param_types(ps));
            }
            Ok(SingletonFnArgs::Multiple { arg_idents, tuple_ident, tuple_type })
        }
    }
}

/// The single-line description of a classification error.
pub open spec fn classify_err_message(e: ClassifyErrView) -> Seq<char> {
    match e {
        ClassifyErrView::FnHasNoInputs { .. } => "attempted to construct a singleton fn from function that has no inputs (must have at least a reference receiver - &self or &mut self)"@,
        ClassifyErrView::FnReceiverNotRef { .. } => "function receiver must be a reference receiver (&self or &mut self)"@,
        ClassifyErrView::FnArgNotReceiver { pat, ty, .. } => "first function argument "@ + pat
            + " (type: "@ + ty + ") must be a reference receiver (&self or &mut self)"@,
        ClassifyErrView::FnArgNotTyped { .. } => "function argument is not typed"@,
        ClassifyErrView::PatTypeNoIdent { .. } => "function argument must have an identifier"@,
    }
}

/// The source location a classification error points at.
pub open spec fn classify_err_span(e: ClassifyErrView) -> SrcSpan {
    match e {
        ClassifyErrView::FnHasNoInputs { span } => span,
        ClassifyErrView::FnReceiverNotRef { span } => span,
        ClassifyErrView::FnArgNotReceiver { span, .. } => span,
        ClassifyErrView::FnArgNotTyped { span } => span,
        ClassifyErrView::PatTypeNoIdent { span } => span,
    }
}

impl SingletonFnError {
    /// The human-readable description of this error.
    pub fn message(&self) -> (r: String)
        ensures
            r@ == classify_err_message(self@),
    {
        match self {
            SingletonFnError::FnHasNoInputs { .. } => String::from_str(
                "attempted to construct a singleton fn from function that has no inputs (must have at least a reference receiver - &self or &mut self)",
            ),
            SingletonFnError::FnReceiverNotRef { .. } => String::from_str(
                "function receiver must be a reference receiver (&self or &mut self)",
            ),
            SingletonFnError::FnArgNotReceiver { pat, ty, .. } => {
                let mut m = String::from_str("first function argument ");
                m.append(pat.as_str());
                m.append(" (type: ");
                m.append(ty.as_str());
                m.append(") must be a reference receiver (&self or &mut self)");
                m
            },
            SingletonFnError::FnArgNotTyped { .. } => String::from_str(
                "function argument is not typed",
            ),
            SingletonFnError::PatTypeNoIdent { .. } => String::from_str(
                "function argument must have an identifier",
            ),
        }
    }

    /// The source location of the offending element.
    pub fn span(&self) -> (r: SrcSpan)
        ensures
            r == classify_err_span(self@),
    {
        match self {
            SingletonFnError::FnHasNoInputs { span } => *span,
            SingletonFnError::FnReceiverNotRef { span } => *span,
            SingletonFnError::FnArgNotReceiver { span, .. } => *span,
            SingletonFnError::FnArgNotTyped { span } => *span,
            SingletonFnError::PatTypeNoIdent { span } => *span,
        }
    }

    /// The located diagnostic of this error.
    pub fn to_diagnostic(&self) -> (r: Diagnostic)
        ensures
            r.span == classify_err_span(self@),
            r.message@ == classify_err_message(self@),
    {
        Diagnostic { span: self.span(), message: self.message() }
    }
}

impl SingletonFnType {
    /// Classify a method declaration into one of the four shapes, or report
    /// the first malformation: no inputs, a first input that is no
    /// receiver, a by-value receiver, or an extra parameter without an
    /// identifier. Pure: two declarations never influence each other.
    pub fn try_from(base: &MethodDecl) -> (r: Result<SingletonFnType, SingletonFnError>)
        requires
            base.wf(),
        ensures
            classify_view(r) == spec_classify(base@),
    {
        if base.inputs.len() == 0 {
            return Err(SingletonFnError::FnHasNoInputs { span: base.name_span });
        }
        let receiver = match fn_arg_as_receiver(&base.inputs[0]) {
            Ok(rec) => rec,
            Err(e) => {
                return Err(e);
            },
        };
        if !receiver.reference {
            return Err(SingletonFnError::FnReceiverNotRef { span: receiver.span });
        }
        let ghost extras_v = typed_extras(base@.inputs);
        let mut extras: Vec<TypedParam> = Vec::new();
        let mut i: usize = 1;
        while i < base.inputs.len()
            invariant
                base.wf(),
                1 <= i <= base.inputs@.len(),
                extras_v == typed_extras(base@.inputs),
                base@.inputs.len() == base.inputs@.len(),
                extras@.len() == i - 1,
                forall|k: int| 0 <= k < i - 1 ==> (#[trigger] extras@[k])@ == extras_v[k],
            decreases base.inputs@.len() - i,
        {
            proof {
                assert(base@.inputs[i as int] == base.inputs@[i as int]@);
            }
            match fn_arg_as_typed(&base.inputs[i]) {
                Ok(p) => {
                    extras.push(p);
                },
                Err(_) => {
                    proof {
                        assert(base@.inputs[i as int] is Typed);
                    }
                    // unreachable: a well-formed input list has its receiver first
                    unreached::<()>();
                },
            }
            i = i + 1;
        }
        proof {
            assert(param_views(extras@) =~= extras_v);
        }
        if extras.len() == 0 {
            if receiver.mutable {
                Ok(SingletonFnType::Mut)
            } else {
                Ok(SingletonFnType::NonMut)
            }
        } else {
            match SingletonFnArgs::try_from(&extras) {
                Ok(a) => if receiver.mutable {
                    Ok(SingletonFnType::MutWithArg(a))
                } else {
                    Ok(SingletonFnType::NonMutWithArg(a))
                },
                Err(e) => Err(e),
            }
        }
    }
}

} // verus!
