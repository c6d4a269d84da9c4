//! End-to-end scenarios of classifying and transforming singleton methods.

use blockz_derive::decl::FnArgDecl;
use blockz_derive::decl::MethodDecl;
use blockz_derive::decl::PatDecl;
use blockz_derive::decl::ReceiverDecl;
use blockz_derive::decl::SrcSpan;
use blockz_derive::decl::TypedParam;
use blockz_derive::singleton_fns::SingletonFnArgs;
use blockz_derive::singleton_fns::SingletonFnError;
use blockz_derive::singleton_fns::SingletonFnType;
use blockz_derive::transform::transform_singleton_fn;

fn span(lo: usize, hi: usize) -> SrcSpan {
    SrcSpan { lo, hi }
}

fn receiver(reference: bool, mutable: bool) -> FnArgDecl {
    FnArgDecl::Receiver(ReceiverDecl {
        reference,
        mutable,
        span: span(1, 5),
    })
}

fn param(name: &str, ty: &str, lo: usize) -> FnArgDecl {
    FnArgDecl::Typed(TypedParam {
        pat: PatDecl::Ident {
            name: String::from(name),
            span: span(lo, lo + 1),
        },
        ty: String::from(ty),
        span: span(lo, lo + 2),
    })
}

fn method(name: &str, inputs: Vec<FnArgDecl>, output: &str, body: &str) -> MethodDecl {
    MethodDecl {
        attrs: Vec::new(),
        name: String::from(name),
        name_span: span(10, 20),
        inputs,
        output: String::from(output),
        body: String::from(body),
    }
}

#[test]
fn shared_receiver_no_args_yields_empty_facade() {
    let decl = method(
        "is_vec_empty",
        vec![receiver(true, false)],
        "bool",
        "self.0.is_empty()",
    );
    let shape = SingletonFnType::try_from(&decl).unwrap();
    assert!(matches!(shape, SingletonFnType::NonMut));
    let pair = transform_singleton_fn(&decl).unwrap();
    assert_eq!(pair.impl_fn.name, "is_vec_empty_impl");
    assert_eq!(pair.impl_fn.body, "self.0.is_empty()");
    assert_eq!(pair.impl_fn.inputs.len(), 1);
    assert_eq!(pair.facade_fn.name, "is_vec_empty");
    assert_eq!(pair.facade_fn.inputs.len(), 0);
    assert_eq!(pair.facade_fn.output, "bool");
    assert_eq!(
        pair.facade_fn.body,
        "#[allow(unused_imports)] use ::blockz::singleton::Singleton; \
         Self::use_singleton(Self::is_vec_empty_impl).await"
    );
    assert_eq!(pair.facade_fn.attrs, vec![String::from("#[inline(always)]")]);
}

#[test]
fn exclusive_receiver_single_arg_forwards_unchanged() {
    let decl = method(
        "set_val",
        vec![receiver(true, true), param("x", "i32", 30)],
        "",
        "self.0 = x;",
    );
    let shape = SingletonFnType::try_from(&decl).unwrap();
    match &shape {
        SingletonFnType::MutWithArg(SingletonFnArgs::Single { arg_ident, arg_type }) => {
            assert_eq!(arg_ident, "x");
            assert_eq!(arg_type, "i32");
        }
        other => panic!("wrong shape: {:?}", other),
    }
    let pair = transform_singleton_fn(&decl).unwrap();
    assert_eq!(pair.facade_fn.inputs.len(), 1);
    match &pair.facade_fn.inputs[0] {
        FnArgDecl::Typed(p) => {
            assert!(matches!(&p.pat, PatDecl::Ident { name, .. } if name == "x"));
            assert_eq!(p.ty, "i32");
        }
        other => panic!("facade kept a receiver: {:?}", other),
    }
    assert_eq!(
        pair.facade_fn.body,
        "#[allow(unused_imports)] use ::blockz::singleton::Singleton; \
         Self::use_mut_singleton_with_arg(Self::set_val_impl, x).await"
    );
    // a single argument leaves the implementation method untouched
    assert_eq!(pair.impl_fn.inputs.len(), 2);
    assert_eq!(pair.impl_fn.body, "self.0 = x;");
}

#[test]
fn shared_receiver_three_args_pack_in_order() {
    let decl = method(
        "combine",
        vec![
            receiver(true, false),
            param("a", "A", 30),
            param("b", "B", 40),
            param("c", "C", 50),
        ],
        "D",
        "todo",
    );
    let shape = SingletonFnType::try_from(&decl).unwrap();
    let args = match shape {
        SingletonFnType::NonMutWithArg(args) => args,
        other => panic!("wrong shape: {:?}", other),
    };
    match &args {
        SingletonFnArgs::Multiple {
            arg_idents,
            tuple_ident,
            tuple_type,
        } => {
            assert_eq!(arg_idents, &vec![String::from("a"), String::from("b"), String::from("c")]);
            assert_eq!(tuple_ident, "args");
            assert_eq!(tuple_type, &vec![String::from("A"), String::from("B"), String::from("C")]);
        }
        other => panic!("expected a tuple adapter: {:?}", other),
    }
    assert_eq!(args.build_impl_fn_call_arg(), "(a, b, c)");
    let sig = args.build_impl_fn_sig_arg().unwrap();
    assert!(matches!(&sig.pat, PatDecl::Ident { name, .. } if name == "args"));
    assert_eq!(sig.ty, "(A, B, C)");
    let pair = transform_singleton_fn(&decl).unwrap();
    assert_eq!(
        pair.facade_fn.body,
        "#[allow(unused_imports)] use ::blockz::singleton::Singleton; \
         Self::use_singleton_with_arg(Self::combine_impl, (a, b, c)).await"
    );
    // the implementation method accepts the tuple and unpacks it
    assert_eq!(pair.impl_fn.inputs.len(), 2);
    assert!(matches!(&pair.impl_fn.inputs[0], FnArgDecl::Receiver(r) if r.reference && !r.mutable));
    match &pair.impl_fn.inputs[1] {
        FnArgDecl::Typed(p) => {
            assert!(matches!(&p.pat, PatDecl::Ident { name, .. } if name == "args"));
            assert_eq!(p.ty, "(A, B, C)");
        }
        other => panic!("expected the tuple parameter: {:?}", other),
    }
    assert_eq!(
        pair.impl_fn.body,
        "let a = args.0; let b = args.1; let c = args.2; todo"
    );
}

#[test]
fn no_inputs_fails_with_missing_receiver() {
    let decl = method("is_vec_empty", Vec::new(), "bool", "panic!()");
    let err = match SingletonFnType::try_from(&decl) {
        Err(e) => e,
        Ok(t) => panic!("classified a method without receiver: {:?}", t),
    };
    assert!(matches!(err, SingletonFnError::FnHasNoInputs { .. }));
    assert_eq!(
        err.message(),
        "attempted to construct a singleton fn from function that has no inputs \
         (must have at least a reference receiver - &self or &mut self)"
    );
    let diag = transform_singleton_fn(&decl).unwrap_err();
    assert_eq!(diag.span, span(10, 20));
    assert_eq!(
        diag.message,
        "attempted to construct a singleton fn from function that has no inputs \
         (must have at least a reference receiver - &self or &mut self)"
    );
}

#[test]
fn value_receiver_fails_with_receiver_not_ref() {
    let decl = method(
        "consume",
        vec![receiver(false, false), param("x", "i32", 30)],
        "",
        "drop(self)",
    );
    let err = match SingletonFnType::try_from(&decl) {
        Err(e) => e,
        Ok(t) => panic!("classified a by-value receiver: {:?}", t),
    };
    assert!(matches!(err, SingletonFnError::FnReceiverNotRef { .. }));
    assert_eq!(
        err.message(),
        "function receiver must be a reference receiver (&self or &mut self)"
    );
    assert_eq!(err.span(), span(1, 5));
    assert!(transform_singleton_fn(&decl).is_err());
}

#[test]
fn typed_first_input_fails_with_arg_not_receiver() {
    let decl = method("free_fn", vec![param("x", "u32", 30)], "u32", "x");
    let err = SingletonFnType::try_from(&decl).unwrap_err();
    assert!(matches!(err, SingletonFnError::FnArgNotReceiver { .. }));
    assert_eq!(
        err.message(),
        "first function argument x (type: u32) must be a reference receiver (&self or &mut self)"
    );
    assert_eq!(err.span(), span(30, 32));
}

#[test]
fn pattern_bound_arg_fails_with_no_ident() {
    let other = FnArgDecl::Typed(TypedParam {
        pat: PatDecl::Other {
            text: String::from("(a, b)"),
            span: span(33, 39),
        },
        ty: String::from("(u8, u8)"),
        span: span(33, 45),
    });
    let decl = method("weird", vec![receiver(true, false), other], "", "0");
    let err = SingletonFnType::try_from(&decl).unwrap_err();
    assert!(matches!(err, SingletonFnError::PatTypeNoIdent { .. }));
    assert_eq!(err.message(), "function argument must have an identifier");
    assert_eq!(err.span(), span(33, 45));
}

#[test]
fn malformed_sibling_leaves_well_formed_method_untouched() {
    let bad = method("broken", vec![receiver(false, false)], "", "panic!()");
    let good = method(
        "fine",
        vec![receiver(true, false)],
        "u8",
        "self.byte()",
    );
    let alone = transform_singleton_fn(&good).unwrap();
    // the sibling's failure is observed first, then the good method again
    assert!(transform_singleton_fn(&bad).is_err());
    let beside = transform_singleton_fn(&good).unwrap();
    assert_eq!(alone.facade_fn.body, beside.facade_fn.body);
    assert_eq!(alone.facade_fn.name, beside.facade_fn.name);
    assert_eq!(alone.impl_fn.name, beside.impl_fn.name);
    assert_eq!(
        beside.facade_fn.body,
        "#[allow(unused_imports)] use ::blockz::singleton::Singleton; \
         Self::use_singleton(Self::fine_impl).await"
    );
}

#[test]
fn get_set_end_to_end() {
    let decl = method(
        "get_set",
        vec![
            receiver(true, true),
            param("get", "usize", 30),
            param("set", "i32", 40),
        ],
        "Option<i32>",
        "let old = self.0.get(get).copied(); self.0[get] = set; old",
    );
    let shape = SingletonFnType::try_from(&decl).unwrap();
    match &shape {
        SingletonFnType::MutWithArg(SingletonFnArgs::Multiple {
            arg_idents,
            tuple_ident,
            tuple_type,
        }) => {
            assert_eq!(arg_idents, &vec![String::from("get"), String::from("set")]);
            assert_eq!(tuple_ident, "args");
            assert_eq!(tuple_type, &vec![String::from("usize"), String::from("i32")]);
        }
        other => panic!("wrong shape: {:?}", other),
    }
    let pair = transform_singleton_fn(&decl).unwrap();
    assert_eq!(pair.impl_fn.name, "get_set_impl");
    assert_eq!(pair.impl_fn.output, "Option<i32>");
    assert_eq!(
        pair.impl_fn.body,
        "let get = args.0; let set = args.1; \
         let old = self.0.get(get).copied(); self.0[get] = set; old"
    );
    assert_eq!(pair.impl_fn.inputs.len(), 2);
    assert!(matches!(&pair.impl_fn.inputs[0], FnArgDecl::Receiver(r) if r.reference && r.mutable));
    match &pair.impl_fn.inputs[1] {
        FnArgDecl::Typed(p) => {
            assert!(matches!(&p.pat, PatDecl::Ident { name, .. } if name == "args"));
            assert_eq!(p.ty, "(usize, i32)");
        }
        other => panic!("expected the tuple parameter: {:?}", other),
    }
    assert_eq!(pair.facade_fn.name, "get_set");
    assert_eq!(pair.facade_fn.output, "Option<i32>");
    assert_eq!(
        pair.facade_fn.body,
        "#[allow(unused_imports)] use ::blockz::singleton::Singleton; \
         Self::use_mut_singleton_with_arg(Self::get_set_impl, (get, set)).await"
    );
}

#[test]
fn unparseable_tuple_type_surfaces_sig_template_defect() {
    let decl = method(
        "mix",
        vec![
            receiver(true, false),
            param("a", ")(", 30),
            param("b", "u8", 40),
        ],
        "",
        "0",
    );
    let diag = transform_singleton_fn(&decl).unwrap_err();
    assert_eq!(
        diag.message,
        "singleton fn args: build impl fn sig arg: failed to parse signature argument: \
         args: ()(, u8)"
    );
    assert_eq!(diag.span, span(10, 20));
}

#[test]
fn unparseable_identifier_surfaces_template_defect() {
    // an identifier with a space renders a body the parser refuses
    let decl = method("foo bar", vec![receiver(true, false)], "", "0");
    let diag = transform_singleton_fn(&decl).unwrap_err();
    assert!(diag
        .message
        .starts_with("facade fn factory: replace fn block: failed to parse replacement block: "));
    assert!(diag.message.contains("Self::use_singleton(Self::foo bar_impl).await"));
}
