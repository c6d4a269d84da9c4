//! The argument adapter and the smaller building blocks.

use blockz_derive::decl::FnArgDecl;
use blockz_derive::decl::MethodDecl;
use blockz_derive::decl::PatDecl;
use blockz_derive::decl::ReceiverDecl;
use blockz_derive::decl::SrcSpan;
use blockz_derive::decl::TypedParam;
use blockz_derive::facade_fn::SynthesisError;
use blockz_derive::paths;
use blockz_derive::singleton_fns::fn_arg_as_receiver;
use blockz_derive::singleton_fns::fn_arg_as_typed;
use blockz_derive::singleton_fns::SingletonFnArgs;
use blockz_derive::singleton_fns::SingletonFnError;
use blockz_derive::text::join_comma_strings;
use blockz_derive::text::usize_dec_string;

fn named_param(name: &str, ty: &str) -> TypedParam {
    TypedParam {
        pat: PatDecl::Ident {
            name: String::from(name),
            span: SrcSpan { lo: 0, hi: 0 },
        },
        ty: String::from(ty),
        span: SrcSpan { lo: 0, hi: 0 },
    }
}

#[test]
fn single_arg_passes_through() {
    let params = vec![named_param("x", "u64")];
    let args = SingletonFnArgs::try_from(&params).unwrap();
    match &args {
        SingletonFnArgs::Single { arg_ident, arg_type } => {
            assert_eq!(arg_ident, "x");
            assert_eq!(arg_type, "u64");
        }
        other => panic!("expected a single argument: {:?}", other),
    }
    assert_eq!(args.build_impl_fn_call_arg(), "x");
    let sig = args.build_impl_fn_sig_arg().unwrap();
    assert_eq!(sig.ty, "u64");
    assert!(matches!(&sig.pat, PatDecl::Ident { name, .. } if name == "x"));
    assert!(args.build_impl_fn_replacement_legend().is_none());
}

#[test]
fn replacement_legend_orders_tuple_fields() {
    let params = vec![
        named_param("first", "u8"),
        named_param("second", "u16"),
        named_param("third", "u32"),
    ];
    let args = SingletonFnArgs::try_from(&params).unwrap();
    let legend = args.build_impl_fn_replacement_legend().unwrap();
    assert_eq!(legend.len(), 3);
    assert_eq!(legend[0].0, "first");
    assert_eq!(legend[0].1, "args.0");
    assert_eq!(legend[1].0, "second");
    assert_eq!(legend[1].1, "args.1");
    assert_eq!(legend[2].0, "third");
    assert_eq!(legend[2].1, "args.2");
}

#[test]
fn replacement_legend_renders_two_digit_indexes() {
    let mut params = Vec::new();
    for i in 0..12 {
        params.push(named_param(&format!("p{}", i), "u8"));
    }
    let args = SingletonFnArgs::try_from(&params).unwrap();
    let legend = args.build_impl_fn_replacement_legend().unwrap();
    assert_eq!(legend.len(), 12);
    assert_eq!(legend[9].1, "args.9");
    assert_eq!(legend[10].1, "args.10");
    assert_eq!(legend[11].1, "args.11");
}

#[test]
fn sig_arg_with_broken_type_reports_the_text() {
    let params = vec![named_param("a", ")("), named_param("b", "u8")];
    let args = SingletonFnArgs::try_from(&params).unwrap();
    let err = args.build_impl_fn_sig_arg().unwrap_err();
    assert_eq!(err.text, "args: ()(, u8)");
}

#[test]
fn join_and_decimal_rendering() {
    let parts = vec![String::from("a"), String::from("bc"), String::from("d")];
    assert_eq!(join_comma_strings(&parts), "a, bc, d");
    assert_eq!(join_comma_strings(&Vec::new()), "");
    assert_eq!(join_comma_strings(&vec![String::from("only")]), "only");
    assert_eq!(usize_dec_string(0), "0");
    assert_eq!(usize_dec_string(7), "7");
    assert_eq!(usize_dec_string(10), "10");
    assert_eq!(usize_dec_string(907), "907");
}

#[test]
fn library_paths_are_absolute() {
    assert_eq!(paths::anyhow_path(), "::anyhow");
    assert_eq!(paths::blockz_path(), "::blockz");
    assert_eq!(paths::envy_path(), "::envy");
    assert_eq!(paths::once_cell_path(), "::once_cell");
    assert_eq!(paths::tokio_path(), "::tokio");
    assert_eq!(paths::std_path(), "::std");
}

#[test]
fn internal_defects_are_distinguished_from_user_errors() {
    let zero = SrcSpan { lo: 0, hi: 0 };
    let user = SynthesisError::MissingReceiver {
        fn_ident: String::from("f"),
        span: zero,
    };
    assert!(!user.reports_internal_defect());
    assert_eq!(
        user.message(),
        "facade fn factory: remove fn receiver: target function f should have had a receiver"
    );
    let by_value = SynthesisError::ReceiverWasByValue {
        fn_ident: String::from("f"),
        ty: String::from("Dummy"),
        span: zero,
    };
    assert!(!by_value.reports_internal_defect());
    assert_eq!(
        by_value.message(),
        "facade fn factory: remove fn receiver: target function f must have either a &self \
         or &mut self receiver as first input, found first input: Dummy"
    );
    let internal = SynthesisError::BodyTemplateUnparseable {
        text: String::from("nope("),
        span: zero,
    };
    assert!(internal.reports_internal_defect());
    assert_eq!(
        internal.message(),
        "facade fn factory: replace fn block: failed to parse replacement block: nope("
    );
    let attr = SynthesisError::AttrTemplateInvalid {
        text: String::from("#[inline(always)]"),
        span: zero,
    };
    assert!(attr.reports_internal_defect());
    assert_eq!(
        attr.message(),
        "facade fn factory: add inline always attr: expected to parse a single attribute: \
         #[inline(always)]"
    );
    let sig = SynthesisError::SigTemplateUnparseable {
        text: String::from("args: ()"),
        span: zero,
    };
    assert!(sig.reports_internal_defect());
    assert_eq!(
        sig.message(),
        "singleton fn args: build impl fn sig arg: failed to parse signature argument: args: ()"
    );
}

#[test]
fn input_entry_readers_refuse_the_other_kind() {
    let rec = FnArgDecl::Receiver(ReceiverDecl {
        reference: true,
        mutable: false,
        span: SrcSpan { lo: 2, hi: 6 },
    });
    let typed = FnArgDecl::Typed(named_param("x", "u8"));
    let got = fn_arg_as_receiver(&rec).unwrap();
    assert!(got.reference);
    assert!(!got.mutable);
    let err = fn_arg_as_typed(&rec).unwrap_err();
    assert!(matches!(err, SingletonFnError::FnArgNotTyped { .. }));
    assert_eq!(err.message(), "function argument is not typed");
    assert_eq!(err.span(), SrcSpan { lo: 2, hi: 6 });
    let p = fn_arg_as_typed(&typed).unwrap();
    assert_eq!(p.ty, "u8");
    let err = fn_arg_as_receiver(&typed).unwrap_err();
    assert!(matches!(err, SingletonFnError::FnArgNotReceiver { .. }));
}

#[test]
fn dup_copies_every_field() {
    let decl = MethodDecl {
        attrs: vec![String::from("#[cold]")],
        name: String::from("touch"),
        name_span: SrcSpan { lo: 3, hi: 8 },
        inputs: Vec::new(),
        output: String::from("u8"),
        body: String::from("0"),
    };
    let copy = decl.dup();
    assert_eq!(copy.attrs, decl.attrs);
    assert_eq!(copy.name, decl.name);
    assert_eq!(copy.name_span, decl.name_span);
    assert_eq!(copy.inputs.len(), 0);
    assert_eq!(copy.output, decl.output);
    assert_eq!(copy.body, decl.body);
}
