//! What a function must look like to be declared a background job, and what
//! its declaration stands for.
//!
//! A declaration is read here as plain data: the parts of a function's
//! signature that the rules speak of. Whoever holds the syntax tree fills
//! that data in, and generates code from the [`Expansion`] that comes back.

use vstd::prelude::*;
use vstd::string::StringExecFns;

verus! {

/// One segment of a path, such as `diesel` in `diesel::PgConnection`.
#[derive(Debug)]
pub struct PathSegment {
    /// The name of the segment.
    pub ident: String,
    /// Whether generic arguments follow the name.
    pub has_arguments: bool,
}

/// A path, segment by segment.
#[derive(Debug)]
pub struct Path {
    pub segments: Vec<PathSegment>,
}

/// One bound of a trait object type.
#[derive(Debug)]
pub enum TypeParamBound {
    /// A trait, named by this path.
    Trait(Path),
    /// A lifetime.
    Lifetime,
}

/// A type that stands behind a reference.
#[derive(Debug)]
pub enum ElemType {
    /// A type named by a path.
    Path(Path),
    /// A trait object with these bounds.
    TraitObject(Vec<TypeParamBound>),
    /// Any other type.
    Other,
}

/// The type of an argument.
#[derive(Debug)]
pub enum ArgType {
    /// A reference to `elem`, `mutable` or shared.
    Reference { mutable: bool, elem: ElemType },
    /// Any other type.
    Value,
}

/// The pattern of an argument.
#[derive(Debug)]
pub enum Pat {
    /// A name, perhaps bound by reference (`ref`) or to a subpattern (`@`).
    Ident { ident: String, by_ref: bool, has_subpattern: bool },
    /// Any other pattern.
    Other,
}

/// An argument of a function.
#[derive(Debug)]
pub enum FnArg {
    /// `self` in any form.
    Receiver,
    /// A pattern with its type.
    Typed { pat: Pat, ty: ArgType },
}

/// The signature of a function.
#[derive(Debug)]
pub struct Signature {
    pub constness: bool,
    pub asyncness: bool,
    pub unsafety: bool,
    pub abi: bool,
    pub ident: String,
    /// The number of generic parameters.
    pub generic_params: usize,
    pub where_clause: bool,
    pub inputs: Vec<FnArg>,
}

/// The rule that a declaration breaks.
#[derive(Clone, Copy, Debug, PartialEq, Eq, Structural)]
pub enum Violation {
    ConstFn,
    UnsafeFn,
    AsyncFn,
    Abi,
    Generics,
    WhereClause,
    Receiver,
    Pattern,
    MutableReference,
    Reference,
    MultipleConnections,
}

/// The part of the declaration that an error points at.
#[derive(Clone, Copy, Debug, PartialEq, Eq, Structural)]
pub enum Span {
    Constness,
    Unsafety,
    Asyncness,
    Abi,
    Generics,
    WhereToken,
    /// The whole argument at this index.
    Arg(usize),
    /// The pattern of the argument at this index.
    ArgPat(usize),
    /// The `mut` in the type of the argument at this index.
    ArgMut(usize),
}

/// An error in a declaration.
#[derive(Clone, Copy, Debug, PartialEq, Eq, Structural)]
pub struct Diagnostic {
    pub span: Span,
    pub violation: Violation,
}

impl Violation {
    /// The message of the error.
    pub open spec fn message_text(self) -> Seq<char> {
        match self {
            Violation::ConstFn => "#[swirl::background_job] cannot be used on const functions"@,
            Violation::UnsafeFn => "#[swirl::background_job] cannot be used on unsafe functions"@,
            Violation::AsyncFn => "#[swirl::background_job] cannot be used on async functions"@,
            Violation::Abi => "#[swirl::background_job] cannot be used on functions with an abi"@,
            Violation::Generics => "#[swirl::background_job] cannot be used on generic functions"@,
            Violation::WhereClause =>
                "#[swirl::background_job] cannot be used on functions with a where clause"@,
            Violation::Receiver => "Background jobs cannot take self"@,
            Violation::Pattern => "#[swirl::background_job] cannot yet handle patterns"@,
            Violation::MutableReference => "Unexpected mut"@,
            Violation::Reference => "Background jobs cannot take references as arguments"@,
            Violation::MultipleConnections => "Multiple database connection arguments"@,
        }
    }

    /// The advice that goes with the error, if any does.
    pub open spec fn help_text(self) -> Option<Seq<char>> {
        match self {
            Violation::Reference => Some(
                "If this argument is a database connection, the type must be `&PgConnection`"@,
            ),
            Violation::MultipleConnections => Some(
                "To take a connection pool as an argument instead of a single connection, use the type `&dyn swirl::db::DieselPoolObj`"@,
            ),
            _ => None,
        }
    }

    /// The message of the error.
    pub fn message(self) -> (text: &'static str)
        ensures
            text@ == self.message_text(),
    {
        match self {
            Violation::ConstFn => "#[swirl::background_job] cannot be used on const functions",
            Violation::UnsafeFn => "#[swirl::background_job] cannot be used on unsafe functions",
            Violation::AsyncFn => "#[swirl::background_job] cannot be used on async functions",
            Violation::Abi => "#[swirl::background_job] cannot be used on functions with an abi",
            Violation::Generics => "#[swirl::background_job] cannot be used on generic functions",
            Violation::WhereClause =>
                "#[swirl::background_job] cannot be used on functions with a where clause",
            Violation::Receiver => "Background jobs cannot take self",
            Violation::Pattern => "#[swirl::background_job] cannot yet handle patterns",
            Violation::MutableReference => "Unexpected mut",
            Violation::Reference => "Background jobs cannot take references as arguments",
            Violation::MultipleConnections => "Multiple database connection arguments",
        }
    }

    /// The advice that goes with the error, if any does.
    pub fn help(self) -> (text: Option<&'static str>)
        ensures
            match self.help_text() {
                Some(advice) => text matches Some(t) && t@ == advice,
                None => text is None,
            },
    {
        match self {
            Violation::Reference => Some(
                "If this argument is a database connection, the type must be `&PgConnection`",
            ),
            Violation::MultipleConnections => Some(
                "To take a connection pool as an argument instead of a single connection, use the type `&dyn swirl::db::DieselPoolObj`",
            ),
            _ => None,
        }
    }
}

/// Whether `path` ends in the plain name `needle`: its last segment has
/// that name and no generic arguments.
pub open spec fn path_ends_with_spec(path: Path, needle: Seq<char>) -> bool {
    path.segments@.len() > 0 && !path.segments@.last().has_arguments
        && path.segments@.last().ident@ == needle
}

/// Whether `path` ends in the plain name `needle`.
pub fn path_ends_with(path: &Path, needle: &str) -> (ends: bool)
    ensures
        ends == path_ends_with_spec(*path, needle@),
{
    let count: usize = path.segments.len();
    if count == 0 {
        false
    } else {
        let last = &path.segments[count - 1];
        !last.has_arguments && last.ident == String::from_str(needle)
    }
}

/// Whether `ty` names a single database connection: `PgConnection`, by
/// any path.
pub open spec fn is_single_connection_spec(ty: ElemType) -> bool {
    ty matches ElemType::Path(path) && path_ends_with_spec(path, "PgConnection"@)
}

/// Whether `bound` names the connection pool trait: `DieselPoolObj`, by any
/// path.
pub open spec fn names_pool(bound: TypeParamBound) -> bool {
    bound matches TypeParamBound::Trait(path) && path_ends_with_spec(path, "DieselPoolObj"@)
}

/// Whether `ty` is a trait object of the connection pool trait.
pub open spec fn is_pool_spec(ty: ElemType) -> bool {
    ty matches ElemType::TraitObject(bounds) && exists|i: int|
        0 <= i < bounds@.len() && names_pool(#[trigger] bounds@[i])
}

/// Whether a reference to `ty` asks for the database.
pub open spec fn is_connection_arg_spec(ty: ElemType) -> bool {
    is_single_connection_spec(ty) || is_pool_spec(ty)
}

/// The argument, if any, by which a job asks for the database. It holds
/// the index of the argument.
#[derive(Clone, Copy, Debug, PartialEq, Eq, Structural)]
pub enum ConnectionArg {
    /// The job does not ask for the database.
    NoConnection,
    /// The job borrows one connection for as long as it runs.
    SingleConnection(usize),
    /// The job takes the pool itself.
    Pool(usize),
}

/// The pattern under which the generated `perform` takes the pool.
#[derive(Clone, Copy, Debug, PartialEq, Eq, Structural)]
pub enum PoolPat {
    /// `_`: the pool is not used.
    Wildcard,
    /// `__swirl_connection_pool`, a name that the job itself cannot see.
    Hidden,
    /// The pattern of the argument at this index.
    Arg(usize),
}

/// The type behind the reference by which the generated `perform` takes
/// the pool.
#[derive(Clone, Copy, Debug, PartialEq, Eq, Structural)]
pub enum PoolTy {
    /// The pool trait, `DieselPoolObj`.
    DieselPoolObj,
    /// The type behind the reference of the argument at this index.
    Arg(usize),
}

/// How the body of a job is wrapped to borrow a connection: it becomes the
/// body of a closure that binds the connection to the pattern of the
/// argument `connection`, and that closure is handed to `with_connection`
/// of the pool `pool_pat`.
#[derive(Clone, Copy, Debug, PartialEq, Eq, Structural)]
pub struct Wrap {
    pub pool_pat: PoolPat,
    pub connection: usize,
}

/// The name under which a job that borrows a connection takes the pool.
pub const HIDDEN_POOL_NAME: &'static str = "__swirl_connection_pool";

/// The kind of connection argument that a reference to `ty` is, as the
/// argument at `index`.
pub open spec fn from_arg_spec(index: usize, ty: ElemType) -> ConnectionArg {
    if is_single_connection_spec(ty) {
        ConnectionArg::SingleConnection(index)
    } else if is_pool_spec(ty) {
        ConnectionArg::Pool(index)
    } else {
        ConnectionArg::NoConnection
    }
}

impl ConnectionArg {
    /// Whether `ty` names a single database connection.
    pub fn is_single_connection(ty: &ElemType) -> (single: bool)
        ensures
            single == is_single_connection_spec(*ty),
    {
        match ty {
            ElemType::Path(path) => path_ends_with(path, "PgConnection"),
            _ => false,
        }
    }

    /// Whether `ty` is a trait object of the connection pool trait.
    pub fn is_pool(ty: &ElemType) -> (pool: bool)
        ensures
            pool == is_pool_spec(*ty),
    {
        match ty {
            ElemType::TraitObject(bounds) => {
                let mut i: usize = 0;
                while i < bounds.len()
                    invariant
                        *ty == ElemType::TraitObject(*bounds),
                        i <= bounds.len(),
                        forall|j: int| 0 <= j < i ==> !names_pool(#[trigger] bounds@[j]),
                    decreases bounds.len() - i,
                {
                    let named = match &bounds[i] {
                        TypeParamBound::Trait(path) => path_ends_with(path, "DieselPoolObj"),
                        TypeParamBound::Lifetime => false,
                    };
                    if named {
                        assert(ty->TraitObject_0 == *bounds && names_pool(bounds@[i as int]));
                        return true;
                    }
                    i = i + 1;
                }
                false
            },
            _ => false,
        }
    }

    /// Whether a reference to `ty` asks for the database.
    pub fn is_connection_arg(ty: &ElemType) -> (connection: bool)
        ensures
            connection == is_connection_arg_spec(*ty),
    {
        ConnectionArg::is_single_connection(ty) || ConnectionArg::is_pool(ty)
    }

    /// The kind of connection argument that a reference to `ty` is, as the
    /// argument at `index`.
    pub fn from_arg(index: usize, ty: &ElemType) -> (arg: ConnectionArg)
        ensures
            arg == from_arg_spec(index, *ty),
    {
        if ConnectionArg::is_single_connection(ty) {
            ConnectionArg::SingleConnection(index)
        } else if ConnectionArg::is_pool(ty) {
            ConnectionArg::Pool(index)
        } else {
            ConnectionArg::NoConnection
        }
    }

    /// The pattern under which the generated `perform` takes the pool.
    pub open spec fn pool_pat_spec(self) -> PoolPat {
        match self {
            ConnectionArg::NoConnection => PoolPat::Wildcard,
            ConnectionArg::SingleConnection(_) => PoolPat::Hidden,
            ConnectionArg::Pool(index) => PoolPat::Arg(index),
        }
    }

    /// The type behind the reference by which the generated `perform`
    /// takes the pool.
    pub open spec fn pool_ty_spec(self) -> PoolTy {
        match self {
            ConnectionArg::Pool(index) => PoolTy::Arg(index),
            _ => PoolTy::DieselPoolObj,
        }
    }

    /// How the body of the job is wrapped, if it is.
    pub open spec fn wrap_spec(self) -> Option<Wrap> {
        match self {
            ConnectionArg::SingleConnection(index) => Some(
                Wrap { pool_pat: PoolPat::Hidden, connection: index },
            ),
            _ => None,
        }
    }

    /// The pattern under which the generated `perform` takes the pool: the
    /// job's own pattern where it takes the pool, a hidden name where it
    /// borrows a connection from it, and `_` where it uses neither.
    pub fn pool_pat(&self) -> (pat: PoolPat)
        ensures
            pat == self.pool_pat_spec(),
    {
        match self {
            ConnectionArg::NoConnection => PoolPat::Wildcard,
            ConnectionArg::SingleConnection(_) => PoolPat::Hidden,
            ConnectionArg::Pool(index) => PoolPat::Arg(*index),
        }
    }

    /// The type behind the reference by which the generated `perform`
    /// takes the pool: the job's own where it takes the pool, else the
    /// pool trait.
    pub fn pool_ty(&self) -> (ty: PoolTy)
        ensures
            ty == self.pool_ty_spec(),
    {
        match self {
            ConnectionArg::Pool(index) => PoolTy::Arg(*index),
            _ => PoolTy::DieselPoolObj,
        }
    }

    /// How the body of the job is wrapped: a job that borrows a connection
    /// runs inside `with_connection` of the pool; any other body stays as
    /// it is.
    pub fn wrap(&self) -> (wrap: Option<Wrap>)
        ensures
            wrap == self.wrap_spec(),
    {
        match self {
            ConnectionArg::SingleConnection(index) => Some(
                Wrap { pool_pat: self.pool_pat(), connection: *index },
            ),
            _ => None,
        }
    }
}

/// What an argument is to the job.
#[derive(Clone, Copy, Debug, PartialEq, Eq, Structural)]
pub enum Arg {
    /// A reference to the environment.
    Env,
    /// A request for the database.
    Connection(ConnectionArg),
    /// A part of the payload.
    Normal,
}

/// What an argument of type `ty` at `index` is to the job. A mutable
/// reference is an error; a shared reference asks for the database or for
/// the environment; anything else is payload.
pub open spec fn classify(index: usize, ty: ArgType) -> Result<Arg, Diagnostic> {
    match ty {
        ArgType::Reference { mutable, elem } => if mutable {
            Err(Diagnostic { span: Span::ArgMut(index), violation: Violation::MutableReference })
        } else if is_connection_arg_spec(elem) {
            Ok(Arg::Connection(from_arg_spec(index, elem)))
        } else {
            Ok(Arg::Env)
        },
        ArgType::Value => Ok(Arg::Normal),
    }
}

impl Arg {
    /// What an argument of type `ty` at `index` is to the job.
    pub fn try_from(index: usize, ty: &ArgType) -> (arg: Result<Arg, Diagnostic>)
        ensures
            arg == classify(index, *ty),
    {
        match ty {
            ArgType::Reference { mutable, elem } => {
                if *mutable {
                    return Err(
                        Diagnostic {
                            span: Span::ArgMut(index),
                            violation: Violation::MutableReference,
                        },
                    );
                }
                if ConnectionArg::is_connection_arg(elem) {
                    Ok(Arg::Connection(ConnectionArg::from_arg(index, elem)))
                } else {
                    Ok(Arg::Env)
                }
            },
            ArgType::Value => Ok(Arg::Normal),
        }
    }
}

/// Whether `pat` is a plain name: no `ref`, no subpattern.
pub open spec fn is_plain_name(pat: Pat) -> bool {
    pat matches Pat::Ident { by_ref, has_subpattern, .. } && !by_ref && !has_subpattern
}

/// What the argument `arg` at `index` is to the job, or the error in it. A
/// job cannot take `self`, and its arguments are bound to plain names.
pub open spec fn check_arg(index: usize, arg: FnArg) -> Result<Arg, Diagnostic> {
    match arg {
        FnArg::Receiver => Err(
            Diagnostic { span: Span::Arg(index), violation: Violation::Receiver },
        ),
        FnArg::Typed { pat, ty } => if is_plain_name(pat) {
            classify(index, ty)
        } else {
            Err(Diagnostic { span: Span::ArgPat(index), violation: Violation::Pattern })
        },
    }
}

/// The arguments of a job by what they are to it, each by its index in the
/// signature.
#[derive(Debug)]
pub struct JobArgs {
    /// The reference to the environment. A job without one runs in the
    /// environment `()`.
    pub env_arg: Option<usize>,
    /// The request for the database.
    pub connection_arg: ConnectionArg,
    /// The arguments that make up the payload, in the order of the
    /// signature.
    pub args: Vec<usize>,
}

/// The arguments of a job as contracts speak of them.
pub struct JobArgsView {
    pub env_arg: Option<usize>,
    pub connection_arg: ConnectionArg,
    pub args: Seq<usize>,
}

impl View for JobArgs {
    type V = JobArgsView;

    open spec fn view(&self) -> JobArgsView {
        JobArgsView {
            env_arg: self.env_arg,
            connection_arg: self.connection_arg,
            args: self.args@,
        }
    }
}

/// The arguments of a job that has none.
pub open spec fn no_args() -> JobArgsView {
    JobArgsView {
        env_arg: None,
        connection_arg: ConnectionArg::NoConnection,
        args: Seq::empty(),
    }
}

/// The arguments `so_far` with the argument `arg` at `index` added, or the
/// error that `arg` is.
///
/// Only the first argument can be the environment: a reference anywhere
/// else, unless it asks for the database, is an error. At most one
/// argument can ask for the database.
pub open spec fn take_arg(so_far: JobArgsView, index: usize, arg: FnArg) -> Result<
    JobArgsView,
    Diagnostic,
> {
    match check_arg(index, arg) {
        Err(diagnostic) => Err(diagnostic),
        Ok(Arg::Env) => if index == 0 {
            Ok(JobArgsView { env_arg: Some(index), ..so_far })
        } else {
            Err(Diagnostic { span: Span::Arg(index), violation: Violation::Reference })
        },
        Ok(Arg::Connection(connection_arg)) => if so_far.connection_arg
            == ConnectionArg::NoConnection {
            Ok(JobArgsView { connection_arg, ..so_far })
        } else {
            Err(Diagnostic { span: Span::Arg(index), violation: Violation::MultipleConnections })
        },
        Ok(Arg::Normal) => Ok(JobArgsView { args: so_far.args.push(index), ..so_far }),
    }
}

/// The first `n` arguments of `inputs` by what they are to the job, or the
/// first error among them.
pub open spec fn scan(inputs: Seq<FnArg>, n: nat) -> Result<JobArgsView, Diagnostic>
    decreases n,
{
    if n == 0 {
        Ok(no_args())
    } else {
        match scan(inputs, (n - 1) as nat) {
            Err(diagnostic) => Err(diagnostic),
            Ok(so_far) => take_arg(so_far, (n - 1) as usize, inputs[n - 1]),
        }
    }
}

impl JobArgs {
    /// Sorts the arguments of `decl` by what they are to the job, and
    /// reports the first argument that a job cannot have.
    pub fn try_from(decl: &Signature) -> (args: Result<JobArgs, Diagnostic>)
        ensures
            match scan(decl.inputs@, decl.inputs@.len()) {
                Ok(sorted) => args matches Ok(job_args) && job_args@ == sorted,
                Err(diagnostic) => args == Err::<JobArgs, Diagnostic>(diagnostic),
            },
    {
        let mut env_arg: Option<usize> = None;
        let mut connection_arg = ConnectionArg::NoConnection;
        let mut args: Vec<usize> = Vec::new();
        let mut index: usize = 0;
        while index < decl.inputs.len()
            invariant
                index <= decl.inputs.len(),
                scan(decl.inputs@, index as nat) == Ok::<JobArgsView, Diagnostic>(
                    JobArgsView { env_arg, connection_arg, args: args@ },
                ),
            decreases decl.inputs.len() - index,
        {
            let checked = match &decl.inputs[index] {
                FnArg::Receiver => Err(
                    Diagnostic { span: Span::Arg(index), violation: Violation::Receiver },
                ),
                FnArg::Typed { pat, ty } => {
                    let plain = match pat {
                        Pat::Ident { by_ref, has_subpattern, .. } => !*by_ref && !*has_subpattern,
                        Pat::Other => false,
                    };
                    if plain {
                        Arg::try_from(index, ty)
                    } else {
                        Err(Diagnostic { span: Span::ArgPat(index), violation: Violation::Pattern })
                    }
                },
            };
            assert(checked == check_arg(index, decl.inputs@[index as int]));
            let ghost so_far = JobArgsView { env_arg, connection_arg, args: args@ };
            let ghost scanned: nat = decl.inputs@.len();
            match checked {
                Err(diagnostic) => {
                    proof {
                        lemma_scan_keeps_error(decl.inputs@, (index + 1) as nat, scanned);
                    }
                    return Err(diagnostic);
                },
                Ok(Arg::Env) => {
                    if index == 0 {
                        env_arg = Some(index);
                    } else {
                        proof {
                            lemma_scan_keeps_error(decl.inputs@, (index + 1) as nat, scanned);
                        }
                        return Err(
                            Diagnostic { span: Span::Arg(index), violation: Violation::Reference },
                        );
                    }
                },
                Ok(Arg::Connection(arg)) => {
                    if connection_arg == ConnectionArg::NoConnection {
                        connection_arg = arg;
                    } else {
                        proof {
                            lemma_scan_keeps_error(decl.inputs@, (index + 1) as nat, scanned);
                        }
                        return Err(
                            Diagnostic {
                                span: Span::Arg(index),
                                violation: Violation::MultipleConnections,
                            },
                        );
                    }
                },
                Ok(Arg::Normal) => {
                    args.push(index);
                },
            }
            index = index + 1;
        }
        Ok(JobArgs { env_arg, connection_arg, args })
    }
}

/// An error among the first `n` arguments is the error of any longer scan:
/// the first error ends the scan.
pub proof fn lemma_scan_keeps_error(inputs: Seq<FnArg>, n: nat, m: nat)
    requires
        n <= m,
        scan(inputs, n) is Err,
    ensures
        scan(inputs, m) == scan(inputs, n),
    decreases m,
{
    if n < m {
        lemma_scan_keeps_error(inputs, n, (m - 1) as nat);
    }
}

/// The first rule that the head of `sig` breaks, before its arguments are
/// looked at: a job is no `const`, `unsafe` or `async` function, has no
/// abi, no generic parameters and no `where` clause.
pub open spec fn header_violation(sig: Signature) -> Option<Diagnostic> {
    if sig.constness {
        Some(Diagnostic { span: Span::Constness, violation: Violation::ConstFn })
    } else if sig.unsafety {
        Some(Diagnostic { span: Span::Unsafety, violation: Violation::UnsafeFn })
    } else if sig.asyncness {
        Some(Diagnostic { span: Span::Asyncness, violation: Violation::AsyncFn })
    } else if sig.abi {
        Some(Diagnostic { span: Span::Abi, violation: Violation::Abi })
    } else if sig.generic_params != 0 {
        Some(Diagnostic { span: Span::Generics, violation: Violation::Generics })
    } else if sig.where_clause {
        Some(Diagnostic { span: Span::WhereToken, violation: Violation::WhereClause })
    } else {
        None
    }
}

/// What a declaration of `sig` as a job stands for, or the first error in
/// it. The head of the function is checked before its arguments.
pub open spec fn declared(sig: Signature) -> Result<JobArgsView, Diagnostic> {
    match header_violation(sig) {
        Some(diagnostic) => Err(diagnostic),
        None => scan(sig.inputs@, sig.inputs@.len()),
    }
}

/// A function that is declared a background job.
#[derive(Debug)]
pub struct BackgroundJob {
    /// The name of the function, which is the type tag of its jobs.
    pub name: String,
    /// Its arguments by what they are to the job.
    pub args: JobArgs,
}

impl BackgroundJob {
    /// Reads the function `sig` as a background job, or reports the first
    /// rule that it breaks.
    pub fn try_from(sig: &Signature) -> (job: Result<BackgroundJob, Diagnostic>)
        ensures
            match declared(*sig) {
                Ok(args) => job matches Ok(declaration) && declaration.name@ == sig.ident@
                    && declaration.args@ == args,
                Err(diagnostic) => job == Err::<BackgroundJob, Diagnostic>(diagnostic),
            },
    {
        if sig.constness {
            return Err(Diagnostic { span: Span::Constness, violation: Violation::ConstFn });
        }
        if sig.unsafety {
            return Err(Diagnostic { span: Span::Unsafety, violation: Violation::UnsafeFn });
        }
        if sig.asyncness {
            return Err(Diagnostic { span: Span::Asyncness, violation: Violation::AsyncFn });
        }
        if sig.abi {
            return Err(Diagnostic { span: Span::Abi, violation: Violation::Abi });
        }
        if sig.generic_params != 0 {
            return Err(Diagnostic { span: Span::Generics, violation: Violation::Generics });
        }
        if sig.where_clause {
            return Err(
                Diagnostic { span: Span::WhereToken, violation: Violation::WhereClause },
            );
        }
        match JobArgs::try_from(sig) {
            Ok(args) => Ok(BackgroundJob { name: sig.ident.clone(), args }),
            Err(diagnostic) => Err(diagnostic),
        }
    }
}

/// What is generated for a function that is declared a background job.
///
/// The function becomes a constructor that takes the payload arguments
/// `args` and makes a job of them. The job is a record with one field for
/// each of `args`, stored under the type tag `job_type`. To perform it, the
/// record is taken apart into `args` again and the body of the function
/// runs, wrapped as `wrap` says, with the environment bound as `env_arg`
/// says and the pool as `pool_pat` and `pool_ty` say.
#[derive(Debug)]
pub struct Expansion {
    /// The type tag of the jobs: the name of the function.
    pub job_type: String,
    /// The argument that binds the environment and gives its type. Without
    /// one the environment is bound to `_` and has the type `()`.
    pub env_arg: Option<usize>,
    /// The pattern under which `perform` takes the pool.
    pub pool_pat: PoolPat,
    /// The type behind the reference by which `perform` takes the pool.
    pub pool_ty: PoolTy,
    /// The payload arguments, in the order of the signature.
    pub args: Vec<usize>,
    /// The names to which the payload arguments are bound, in the same
    /// order. They name the fields of the record.
    pub arg_names: Vec<String>,
    /// How the body is wrapped to borrow a connection, if it is.
    pub wrap: Option<Wrap>,
}

/// The name to which `arg` is bound. It has one if it is bound to a name.
pub open spec fn arg_name(arg: FnArg) -> Seq<char> {
    arg->Typed_pat->Ident_ident@
}

/// Whether `names` holds the names of the arguments `args` of `inputs`, in
/// the same order.
pub open spec fn names_of(names: Seq<String>, inputs: Seq<FnArg>, args: Seq<usize>) -> bool {
    &&& names.len() == args.len()
    &&& forall|k: int|
        0 <= k < args.len() ==> (#[trigger] names[k])@ == arg_name(inputs[args[k] as int])
}

impl JobArgs {
    /// The names to which the payload arguments are bound, in the order of
    /// the signature.
    fn names(&self, decl: &Signature) -> (names: Vec<String>)
        requires
            scan(decl.inputs@, decl.inputs@.len()) == Ok::<JobArgsView, Diagnostic>(self@),
        ensures
            names_of(names@, decl.inputs@, self.args@),
    {
        let count: usize = decl.inputs.len();
        proof {
            lemma_scan_ok(decl.inputs@, count as nat);
        }
        let mut names: Vec<String> = Vec::new();
        let mut k: usize = 0;
        while k < self.args.len()
            invariant
                k <= self.args.len(),
                names@.len() == k,
                forall|l: int|
                    0 <= l < self.args@.len() ==> 0 <= #[trigger] self.args@[l]
                        < decl.inputs@.len() && check_arg(
                        self.args@[l],
                        decl.inputs@[self.args@[l] as int],
                    ) == Ok::<Arg, Diagnostic>(Arg::Normal),
                forall|l: int|
                    0 <= l < k ==> (#[trigger] names@[l])@ == arg_name(
                        decl.inputs@[self.args@[l] as int],
                    ),
            decreases self.args.len() - k,
        {
            let index: usize = self.args[k];
            assert(0 <= self.args@[k as int] < decl.inputs@.len());
            match &decl.inputs[index] {
                FnArg::Typed { pat: Pat::Ident { ident, .. }, .. } => {
                    names.push(ident.clone());
                },
                _ => {
                    assert(false);
                },
            }
            k = k + 1;
        }
        names
    }
}

/// Reads the function `sig` as a background job and says what is generated
/// for it, or reports the first rule that it breaks.
pub fn expand(sig: &Signature) -> (expansion: Result<Expansion, Diagnostic>)
    ensures
        match declared(*sig) {
            Ok(args) => expansion matches Ok(generated) && generated.job_type@ == sig.ident@
                && generated.env_arg == args.env_arg && generated.pool_pat
                == args.connection_arg.pool_pat_spec() && generated.pool_ty
                == args.connection_arg.pool_ty_spec() && generated.args@ == args.args
                && names_of(generated.arg_names@, sig.inputs@, args.args) && generated.wrap
                == args.connection_arg.wrap_spec(),
            Err(diagnostic) => expansion == Err::<Expansion, Diagnostic>(diagnostic),
        },
{
    let job = match BackgroundJob::try_from(sig) {
        Ok(job) => job,
        Err(diagnostic) => {
            return Err(diagnostic);
        },
    };
    let connection_arg = job.args.connection_arg;
    let arg_names = job.args.names(sig);
    Ok(
        Expansion {
            job_type: job.name,
            env_arg: job.args.env_arg,
            pool_pat: connection_arg.pool_pat(),
            pool_ty: connection_arg.pool_ty(),
            args: job.args.args,
            arg_names,
            wrap: connection_arg.wrap(),
        },
    )
}

/// Whether the argument at `i` may stand where it stands: it is an
/// argument that a job can have; if it is a reference to the environment,
/// it is the first argument; and if it asks for the database, no argument
/// before it does.
pub open spec fn arg_allowed(inputs: Seq<FnArg>, i: int) -> bool {
    match check_arg(i as usize, inputs[i]) {
        Err(_) => false,
        Ok(Arg::Env) => i == 0,
        Ok(Arg::Connection(_)) => forall|j: int|
            0 <= j < i ==> !(#[trigger] check_arg(j as usize, inputs[j]) is Ok && check_arg(
                j as usize,
                inputs[j],
            )->Ok_0 is Connection),
        Ok(Arg::Normal) => true,
    }
}

/// The error that the argument at `i` is, given that those before it are
/// allowed.
pub open spec fn arg_error(inputs: Seq<FnArg>, i: int) -> Diagnostic {
    match check_arg(i as usize, inputs[i]) {
        Err(diagnostic) => diagnostic,
        Ok(Arg::Env) => Diagnostic { span: Span::Arg(i as usize), violation: Violation::Reference },
        _ => Diagnostic { span: Span::Arg(i as usize), violation: Violation::MultipleConnections },
    }
}

/// A connection argument is never "no connection".
pub proof fn lemma_connection_is_some(index: usize, ty: ArgType)
    requires
        classify(index, ty) is Ok,
        classify(index, ty)->Ok_0 is Connection,
    ensures
        classify(index, ty)->Ok_0->Connection_0 != ConnectionArg::NoConnection,
{
}

/// What a scan without error has found among the first `n` arguments.
///
/// - The payload is made of exactly the arguments that are no references,
///   in the order of the signature.
/// - The environment is the first argument, if that is a reference which
///   does not ask for the database; else there is none.
/// - The connection argument is the one argument that asks for the
///   database, if there is one.
/// - Every argument is allowed where it stands.
pub proof fn lemma_scan_ok(inputs: Seq<FnArg>, n: nat)
    requires
        n <= inputs.len() <= usize::MAX,
        scan(inputs, n) is Ok,
    ensures
        ({
            let found = scan(inputs, n)->Ok_0;
            &&& forall|i: int| 0 <= i < n ==> arg_allowed(inputs, i)
            &&& forall|k: int|
                0 <= k < found.args.len() ==> 0 <= #[trigger] found.args[k] < n && check_arg(
                    found.args[k],
                    inputs[found.args[k] as int],
                ) == Ok::<Arg, Diagnostic>(Arg::Normal)
            &&& forall|k: int, l: int|
                0 <= k < l < found.args.len() ==> found.args[k] < found.args[l]
            &&& forall|i: int|
                0 <= i < n && #[trigger] check_arg(i as usize, inputs[i]) == Ok::<Arg, Diagnostic>(
                    Arg::Normal,
                ) ==> found.args.contains(i as usize)
            &&& found.env_arg == if n > 0 && check_arg(0, inputs[0]) == Ok::<Arg, Diagnostic>(
                Arg::Env,
            ) {
                Some(0usize)
            } else {
                None
            }
            &&& forall|i: int|
                0 <= i < n && #[trigger] check_arg(i as usize, inputs[i]) is Ok && check_arg(
                    i as usize,
                    inputs[i],
                )->Ok_0 is Connection ==> found.connection_arg == check_arg(
                    i as usize,
                    inputs[i],
                )->Ok_0->Connection_0
            &&& found.connection_arg != ConnectionArg::NoConnection ==> exists|i: int|
                0 <= i < n && #[trigger] check_arg(i as usize, inputs[i]) == Ok::<Arg, Diagnostic>(
                    Arg::Connection(found.connection_arg),
                )
        }),
    decreases n,
{
    if n > 0 {
        let before = scan(inputs, (n - 1) as nat)->Ok_0;
        let found = scan(inputs, n)->Ok_0;
        let last = (n - 1) as int;
        let checked = check_arg(last as usize, inputs[last]);
        lemma_scan_ok(inputs, (n - 1) as nat);
        assert(arg_allowed(inputs, last)) by {
            if checked is Ok && checked->Ok_0 is Connection {
                assert(before.connection_arg == ConnectionArg::NoConnection);
                assert forall|j: int| 0 <= j < last implies !(#[trigger] check_arg(
                    j as usize,
                    inputs[j],
                ) is Ok && check_arg(j as usize, inputs[j])->Ok_0 is Connection) by {
                    if check_arg(j as usize, inputs[j]) is Ok && check_arg(
                        j as usize,
                        inputs[j],
                    )->Ok_0 is Connection {
                        match inputs[j] {
                            FnArg::Typed { pat, ty } => {
                                lemma_connection_is_some(j as usize, ty);
                            },
                            _ => {},
                        }
                    }
                }
            }
        }
        if checked == Ok::<Arg, Diagnostic>(Arg::Normal) {
            assert(found.args == before.args.push(last as usize));
            assert(found.args[found.args.len() - 1] == last as usize);
            assert forall|i: int|
                0 <= i < n && #[trigger] check_arg(i as usize, inputs[i]) == Ok::<
                    Arg,
                    Diagnostic,
                >(Arg::Normal) implies found.args.contains(i as usize) by {
                if i < last {
                    let k = choose|k: int|
                        0 <= k < before.args.len() && before.args[k] == i as usize;
                    assert(found.args[k] == i as usize);
                }
            }
        } else {
            assert(found.args == before.args);
        }
        if checked is Ok && checked->Ok_0 is Connection {
            match inputs[last] {
                FnArg::Typed { pat, ty } => {
                    lemma_connection_is_some(last as usize, ty);
                },
                _ => {},
            }
            assert(check_arg(last as usize, inputs[last]) == Ok::<Arg, Diagnostic>(
                Arg::Connection(found.connection_arg),
            ));
        } else if found.connection_arg != ConnectionArg::NoConnection {
            let i = choose|i: int|
                0 <= i < n - 1 && #[trigger] check_arg(i as usize, inputs[i]) == Ok::<
                    Arg,
                    Diagnostic,
                >(Arg::Connection(before.connection_arg));
            assert(check_arg(i as usize, inputs[i]) == Ok::<Arg, Diagnostic>(
                Arg::Connection(found.connection_arg),
            ));
        }
    }
}

/// A scan fails exactly when some argument is not allowed where it stands,
/// and its error is that of the first such argument.
pub proof fn lemma_scan_err(inputs: Seq<FnArg>, n: nat)
    requires
        n <= inputs.len() <= usize::MAX,
        scan(inputs, n) is Err,
    ensures
        exists|i: int|
            0 <= i < n && !#[trigger] arg_allowed(inputs, i) && scan(inputs, n) == Err::<
                JobArgsView,
                Diagnostic,
            >(arg_error(inputs, i)) && forall|j: int| 0 <= j < i ==> arg_allowed(inputs, j),
    decreases n,
{
    if scan(inputs, (n - 1) as nat) is Err {
        lemma_scan_err(inputs, (n - 1) as nat);
        let i = choose|i: int|
            0 <= i < n - 1 && !#[trigger] arg_allowed(inputs, i) && scan(
                inputs,
                (n - 1) as nat,
            ) == Err::<JobArgsView, Diagnostic>(arg_error(inputs, i)) && forall|j: int|
                0 <= j < i ==> arg_allowed(inputs, j);
        assert(!arg_allowed(inputs, i) && scan(inputs, n) == Err::<JobArgsView, Diagnostic>(
            arg_error(inputs, i),
        ));
    } else {
        let last = (n - 1) as int;
        let before = scan(inputs, (n - 1) as nat)->Ok_0;
        let checked = check_arg(last as usize, inputs[last]);
        lemma_scan_ok(inputs, (n - 1) as nat);
        if checked is Ok && checked->Ok_0 is Connection {
            assert(before.connection_arg != ConnectionArg::NoConnection);
            let i = choose|i: int|
                0 <= i < n - 1 && #[trigger] check_arg(i as usize, inputs[i]) == Ok::<
                    Arg,
                    Diagnostic,
                >(Arg::Connection(before.connection_arg));
            assert(check_arg(i as usize, inputs[i]) is Ok && check_arg(
                i as usize,
                inputs[i],
            )->Ok_0 is Connection);
        }
        assert(!arg_allowed(inputs, last));
        assert(scan(inputs, n) == Err::<JobArgsView, Diagnostic>(arg_error(inputs, last)));
    }
}

} // verus!
