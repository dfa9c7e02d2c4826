use swirl::background_job::expand;
use swirl::background_job::path_ends_with;
use swirl::background_job::ArgType;
use swirl::background_job::BackgroundJob;
use swirl::background_job::ConnectionArg;
use swirl::background_job::Diagnostic;
use swirl::background_job::ElemType;
use swirl::background_job::FnArg;
use swirl::background_job::JobArgs;
use swirl::background_job::Pat;
use swirl::background_job::Path;
use swirl::background_job::PathSegment;
use swirl::background_job::PoolPat;
use swirl::background_job::PoolTy;
use swirl::background_job::Signature;
use swirl::background_job::Span;
use swirl::background_job::TypeParamBound;
use swirl::background_job::Violation;
use swirl::background_job::Wrap;
use swirl::background_job::HIDDEN_POOL_NAME;

fn path(segments: &[&str]) -> Path {
    Path {
        segments: segments
            .iter()
            .map(|s| PathSegment { ident: s.to_string(), has_arguments: false })
            .collect(),
    }
}

fn name(ident: &str) -> Pat {
    Pat::Ident { ident: ident.to_string(), by_ref: false, has_subpattern: false }
}

fn value(ident: &str) -> FnArg {
    FnArg::Typed { pat: name(ident), ty: ArgType::Value }
}

fn reference(ident: &str, elem: ElemType) -> FnArg {
    FnArg::Typed { pat: name(ident), ty: ArgType::Reference { mutable: false, elem } }
}

fn env(ident: &str) -> FnArg {
    reference(ident, ElemType::Path(path(&["String"])))
}

fn conn(ident: &str) -> FnArg {
    reference(ident, ElemType::Path(path(&["PgConnection"])))
}

fn pool(ident: &str) -> FnArg {
    reference(ident, ElemType::TraitObject(vec![TypeParamBound::Trait(path(&["DieselPoolObj"]))]))
}

fn signature(ident: &str, inputs: Vec<FnArg>) -> Signature {
    Signature {
        constness: false,
        asyncness: false,
        unsafety: false,
        abi: false,
        ident: ident.to_string(),
        generic_params: 0,
        where_clause: false,
        inputs,
    }
}

fn error_of(sig: Signature) -> Diagnostic {
    let job = BackgroundJob::try_from(&sig).unwrap_err();
    let expansion = expand(&sig).unwrap_err();
    assert_eq!(job, expansion);
    job
}

#[test]
fn path_ends_with_looks_at_the_last_segment() {
    assert!(path_ends_with(&path(&["PgConnection"]), "PgConnection"));
    assert!(path_ends_with(&path(&["diesel", "PgConnection"]), "PgConnection"));
    assert!(!path_ends_with(&path(&["PgConnection", "inner"]), "PgConnection"));
    assert!(!path_ends_with(&path(&[]), "PgConnection"));
    let generic = Path { segments: vec![PathSegment { ident: "PgConnection".to_string(), has_arguments: true }] };
    assert!(!path_ends_with(&generic, "PgConnection"));
}

#[test]
fn connection_kinds_are_told_apart() {
    let single = ElemType::Path(path(&["diesel", "PgConnection"]));
    assert!(ConnectionArg::is_single_connection(&single));
    assert!(!ConnectionArg::is_pool(&single));
    assert!(ConnectionArg::is_connection_arg(&single));
    assert_eq!(ConnectionArg::from_arg(2, &single), ConnectionArg::SingleConnection(2));
    let pool = ElemType::TraitObject(vec![
        TypeParamBound::Lifetime,
        TypeParamBound::Trait(path(&["Send"])),
        TypeParamBound::Trait(path(&["swirl", "db", "DieselPoolObj"])),
    ]);
    assert!(ConnectionArg::is_pool(&pool));
    assert!(!ConnectionArg::is_single_connection(&pool));
    assert_eq!(ConnectionArg::from_arg(1, &pool), ConnectionArg::Pool(1));
    let other = ElemType::TraitObject(vec![TypeParamBound::Trait(path(&["Send"]))]);
    assert!(!ConnectionArg::is_connection_arg(&other));
    assert_eq!(ConnectionArg::from_arg(0, &other), ConnectionArg::NoConnection);
    assert!(!ConnectionArg::is_connection_arg(&ElemType::Other));
    assert!(!ConnectionArg::is_connection_arg(&ElemType::Path(path(&["String"]))));
}

#[test]
fn pool_is_bound_as_the_connection_argument_says() {
    assert_eq!(ConnectionArg::NoConnection.pool_pat(), PoolPat::Wildcard);
    assert_eq!(ConnectionArg::SingleConnection(1).pool_pat(), PoolPat::Hidden);
    assert_eq!(ConnectionArg::Pool(1).pool_pat(), PoolPat::Arg(1));
    assert_eq!(ConnectionArg::NoConnection.pool_ty(), PoolTy::DieselPoolObj);
    assert_eq!(ConnectionArg::SingleConnection(1).pool_ty(), PoolTy::DieselPoolObj);
    assert_eq!(ConnectionArg::Pool(3).pool_ty(), PoolTy::Arg(3));
    assert_eq!(ConnectionArg::NoConnection.wrap(), None);
    assert_eq!(ConnectionArg::Pool(3).wrap(), None);
    assert_eq!(
        ConnectionArg::SingleConnection(1).wrap(),
        Some(Wrap { pool_pat: PoolPat::Hidden, connection: 1 })
    );
    assert_eq!(HIDDEN_POOL_NAME, "__swirl_connection_pool");
}

#[test]
fn job_with_environment_and_payload() {
    let sig = signature("check_arg_equal_to_env", vec![env("env"), value("arg")]);
    let expansion = expand(&sig).unwrap();
    assert_eq!(expansion.job_type, "check_arg_equal_to_env");
    assert_eq!(expansion.env_arg, Some(0));
    assert_eq!(expansion.args, vec![1]);
    assert_eq!(expansion.arg_names, vec!["arg".to_string()]);
    assert_eq!(expansion.pool_pat, PoolPat::Wildcard);
    assert_eq!(expansion.pool_ty, PoolTy::DieselPoolObj);
    assert_eq!(expansion.wrap, None);
}

#[test]
fn job_with_payload_but_no_environment() {
    let sig = signature("assert_foo", vec![value("arg")]);
    let expansion = expand(&sig).unwrap();
    assert_eq!(expansion.job_type, "assert_foo");
    assert_eq!(expansion.env_arg, None);
    assert_eq!(expansion.args, vec![0]);
    assert_eq!(expansion.arg_names, vec!["arg".to_string()]);
}

#[test]
fn job_without_arguments() {
    let expansion = expand(&signature("uses_trait_import", vec![])).unwrap();
    assert_eq!(expansion.env_arg, None);
    assert!(expansion.args.is_empty());
    assert!(expansion.arg_names.is_empty());
    assert_eq!(expansion.wrap, None);
}

#[test]
fn job_with_environment_and_connection() {
    let expansion = expand(&signature("takes_env_and_conn", vec![reference("_env", ElemType::Other), conn("conn")])).unwrap();
    assert_eq!(expansion.env_arg, Some(0));
    assert!(expansion.args.is_empty());
    assert_eq!(expansion.pool_pat, PoolPat::Hidden);
    assert_eq!(expansion.pool_ty, PoolTy::DieselPoolObj);
    assert_eq!(expansion.wrap, Some(Wrap { pool_pat: PoolPat::Hidden, connection: 1 }));
}

#[test]
fn job_with_only_a_connection() {
    let expansion = expand(&signature("takes_only_conn", vec![conn("conn")])).unwrap();
    assert_eq!(expansion.env_arg, None);
    assert_eq!(expansion.wrap, Some(Wrap { pool_pat: PoolPat::Hidden, connection: 0 }));
    let qualified = reference("conn", ElemType::Path(path(&["diesel", "PgConnection"])));
    let expansion = expand(&signature("takes_fully_qualified_conn", vec![qualified])).unwrap();
    assert_eq!(expansion.wrap, Some(Wrap { pool_pat: PoolPat::Hidden, connection: 0 }));
}

#[test]
fn job_with_the_pool() {
    let expansion = expand(&signature("takes_connection_pool", vec![pool("pool")])).unwrap();
    assert_eq!(expansion.env_arg, None);
    assert_eq!(expansion.pool_pat, PoolPat::Arg(0));
    assert_eq!(expansion.pool_ty, PoolTy::Arg(0));
    assert_eq!(expansion.wrap, None);
    let qualified = reference(
        "pool",
        ElemType::TraitObject(vec![TypeParamBound::Trait(path(&["swirl", "db", "DieselPoolObj"]))]),
    );
    let expansion = expand(&signature("takes_fully_qualified_pool", vec![value("n"), qualified])).unwrap();
    assert_eq!(expansion.pool_pat, PoolPat::Arg(1));
    assert_eq!(expansion.pool_ty, PoolTy::Arg(1));
    assert_eq!(expansion.args, vec![0]);
}

#[test]
fn payload_keeps_the_order_of_the_signature() {
    let sig = signature("send", vec![env("env"), value("to"), conn("conn"), value("subject"), value("body")]);
    let job = BackgroundJob::try_from(&sig).unwrap();
    assert_eq!(job.name, "send");
    assert_eq!(job.args.env_arg, Some(0));
    assert_eq!(job.args.connection_arg, ConnectionArg::SingleConnection(2));
    assert_eq!(job.args.args, vec![1, 3, 4]);
    let args = JobArgs::try_from(&sig).unwrap();
    assert_eq!(args.args, vec![1, 3, 4]);
    let expansion = expand(&sig).unwrap();
    assert_eq!(expansion.arg_names, vec!["to".to_string(), "subject".to_string(), "body".to_string()]);
}

#[test]
fn head_of_the_function_is_checked_in_order() {
    let mut sig = signature("job", vec![FnArg::Receiver]);
    sig.where_clause = true;
    assert_eq!(error_of(signature_like(&sig)), Diagnostic { span: Span::WhereToken, violation: Violation::WhereClause });
    sig.generic_params = 2;
    assert_eq!(error_of(signature_like(&sig)), Diagnostic { span: Span::Generics, violation: Violation::Generics });
    sig.abi = true;
    assert_eq!(error_of(signature_like(&sig)), Diagnostic { span: Span::Abi, violation: Violation::Abi });
    sig.asyncness = true;
    assert_eq!(error_of(signature_like(&sig)), Diagnostic { span: Span::Asyncness, violation: Violation::AsyncFn });
    sig.unsafety = true;
    assert_eq!(error_of(signature_like(&sig)), Diagnostic { span: Span::Unsafety, violation: Violation::UnsafeFn });
    sig.constness = true;
    assert_eq!(error_of(signature_like(&sig)), Diagnostic { span: Span::Constness, violation: Violation::ConstFn });
}

fn signature_like(sig: &Signature) -> Signature {
    Signature {
        constness: sig.constness,
        asyncness: sig.asyncness,
        unsafety: sig.unsafety,
        abi: sig.abi,
        ident: sig.ident.clone(),
        generic_params: sig.generic_params,
        where_clause: sig.where_clause,
        inputs: vec![FnArg::Receiver],
    }
}

#[test]
fn job_cannot_take_self() {
    let error = error_of(signature("job", vec![value("a"), FnArg::Receiver]));
    assert_eq!(error, Diagnostic { span: Span::Arg(1), violation: Violation::Receiver });
    assert_eq!(error.violation.message(), "Background jobs cannot take self");
    assert_eq!(error.violation.help(), None);
}

#[test]
fn job_cannot_take_patterns() {
    let tuple = FnArg::Typed { pat: Pat::Other, ty: ArgType::Value };
    assert_eq!(
        error_of(signature("job", vec![tuple])),
        Diagnostic { span: Span::ArgPat(0), violation: Violation::Pattern }
    );
    let by_ref = FnArg::Typed {
        pat: Pat::Ident { ident: "a".to_string(), by_ref: true, has_subpattern: false },
        ty: ArgType::Value,
    };
    assert_eq!(
        error_of(signature("job", vec![value("x"), by_ref])),
        Diagnostic { span: Span::ArgPat(1), violation: Violation::Pattern }
    );
    let bound = FnArg::Typed {
        pat: Pat::Ident { ident: "a".to_string(), by_ref: false, has_subpattern: true },
        ty: ArgType::Reference { mutable: true, elem: ElemType::Other },
    };
    let error = error_of(signature("job", vec![bound]));
    assert_eq!(error, Diagnostic { span: Span::ArgPat(0), violation: Violation::Pattern });
    assert_eq!(error.violation.message(), "#[swirl::background_job] cannot yet handle patterns");
}

#[test]
fn job_cannot_take_mutable_references() {
    let arg = FnArg::Typed {
        pat: name("conn"),
        ty: ArgType::Reference { mutable: true, elem: ElemType::Path(path(&["PgConnection"])) },
    };
    let error = error_of(signature("job", vec![arg]));
    assert_eq!(error, Diagnostic { span: Span::ArgMut(0), violation: Violation::MutableReference });
    assert_eq!(error.violation.message(), "Unexpected mut");
}

#[test]
fn only_the_first_argument_can_be_the_environment() {
    let error = error_of(signature("job", vec![env("env"), env("other")]));
    assert_eq!(error, Diagnostic { span: Span::Arg(1), violation: Violation::Reference });
    assert_eq!(error.violation.message(), "Background jobs cannot take references as arguments");
    assert_eq!(
        error.violation.help(),
        Some("If this argument is a database connection, the type must be `&PgConnection`")
    );
    let error = error_of(signature("job", vec![value("arg"), env("env")]));
    assert_eq!(error, Diagnostic { span: Span::Arg(1), violation: Violation::Reference });
    let error = error_of(signature("job", vec![conn("conn"), env("env")]));
    assert_eq!(error, Diagnostic { span: Span::Arg(1), violation: Violation::Reference });
}

#[test]
fn job_cannot_take_two_connections() {
    let error = error_of(signature("job", vec![conn("a"), value("n"), pool("b")]));
    assert_eq!(error, Diagnostic { span: Span::Arg(2), violation: Violation::MultipleConnections });
    assert_eq!(error.violation.message(), "Multiple database connection arguments");
    assert_eq!(
        error.violation.help(),
        Some("To take a connection pool as an argument instead of a single connection, use the type `&dyn swirl::db::DieselPoolObj`")
    );
    let error = error_of(signature("job", vec![env("env"), conn("a"), conn("b")]));
    assert_eq!(error, Diagnostic { span: Span::Arg(2), violation: Violation::MultipleConnections });
}

#[test]
fn first_error_wins() {
    let mutable = FnArg::Typed { pat: name("m"), ty: ArgType::Reference { mutable: true, elem: ElemType::Other } };
    let error = error_of(signature("job", vec![value("a"), mutable, FnArg::Receiver]));
    assert_eq!(error, Diagnostic { span: Span::ArgMut(1), violation: Violation::MutableReference });
}

#[test]
fn messages_of_the_head_name_the_attribute() {
    assert_eq!(Violation::ConstFn.message(), "#[swirl::background_job] cannot be used on const functions");
    assert_eq!(Violation::UnsafeFn.message(), "#[swirl::background_job] cannot be used on unsafe functions");
    assert_eq!(Violation::AsyncFn.message(), "#[swirl::background_job] cannot be used on async functions");
    assert_eq!(Violation::Abi.message(), "#[swirl::background_job] cannot be used on functions with an abi");
    assert_eq!(Violation::Generics.message(), "#[swirl::background_job] cannot be used on generic functions");
    assert_eq!(
        Violation::WhereClause.message(),
        "#[swirl::background_job] cannot be used on functions with a where clause"
    );
    assert_eq!(Violation::ConstFn.help(), None);
}
