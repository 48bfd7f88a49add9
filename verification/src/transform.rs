//! The declaration transform.
//!
//! Given a handler's route specification — an HTTP method tag (or the
//! generic, method-less form) and an argument list whose leading argument,
//! if present, must be a literal path string — the transform produces the
//! two artifacts a declaration site needs: a framework-native single-route
//! declaration, and a registry contribution wrapping exactly that
//! declaration in a one-route group mounted at `"/"`.
//!
//! A non-literal leading argument is a definition-time error, reported with
//! the offending argument; it is never deferred to server startup.

use vstd::prelude::*;

verus! {

/// The HTTP method tag of a route specification. `Any` is the generic,
/// method-less form: the methods accepted are then decided by the native
/// declaration the handler already carries.
#[derive(Clone, Copy, PartialEq, Eq, Structural, Debug)]
pub enum Method {
    Get,
    Post,
    Put,
    Delete,
    Patch,
    Any,
}

/// One argument of a route specification, after the surface syntax has been
/// parsed into an expression list. The transform distinguishes string
/// literals from every other expression; other expressions — keyword
/// modifiers such as a rank, a format or a body binding — are carried
/// verbatim as source text and never interpreted.
#[derive(Debug)]
pub enum ArgExpr {
    /// A string literal; the payload is the literal's value.
    StrLit(String),
    /// Any other expression, as source text.
    Other(String),
}

/// The mathematical value of an [`ArgExpr`].
pub enum ArgVal {
    StrLit(Seq<char>),
    Other(Seq<char>),
}

impl View for ArgExpr {
    type V = ArgVal;

    open spec fn view(&self) -> ArgVal {
        match self {
            ArgExpr::StrLit(s) => ArgVal::StrLit(s@),
            ArgExpr::Other(s) => ArgVal::Other(s@),
        }
    }
}

impl DeepView for ArgExpr {
    type V = ArgVal;

    open spec fn deep_view(&self) -> ArgVal {
        self.view()
    }
}

/// The source text an argument is reported by in a definition-time error:
/// a literal's value, or any other expression's text.
pub open spec fn arg_text(a: ArgVal) -> Seq<char> {
    match a {
        ArgVal::StrLit(s) => s,
        ArgVal::Other(t) => t,
    }
}

/// A definition-time error of the declaration transform.
#[derive(Debug)]
pub enum TransformError {
    /// The leading argument of the route specification exists but is not a
    /// string literal; the payload is that argument's source text.
    NotAStringLiteral { offending: String },
    /// The generic form takes at most one argument, the literal path; the
    /// payload is the first extra argument's source text.
    UnexpectedArgument { offending: String },
}

impl TransformError {
    /// The source text of the argument the error is about.
    pub fn offending_text(&self) -> (r: &String)
        ensures
            (self matches TransformError::NotAStringLiteral { offending } ==> r == offending),
            (self matches TransformError::UnexpectedArgument { offending } ==> r == offending),
    {
        match self {
            TransformError::NotAStringLiteral { offending } => offending,
            TransformError::UnexpectedArgument { offending } => offending,
        }
    }

    /// The form every route specification's leading argument must take.
    pub fn expected_form(&self) -> (r: &'static str)
        ensures
            r@ == "a string literal route, e.g. \"/path\""@,
    {
        "a string literal route, e.g. \"/path\""
    }
}

/// A framework-native single-route declaration: the handler bound to a
/// method and a path, with the specification's remaining arguments forwarded
/// unchanged.
#[derive(Debug)]
pub struct RouteDecl {
    pub method: Method,
    /// The literal path of the specification; `"/"` when none was given.
    pub path: String,
    /// Every argument after the leading path, verbatim and uninterpreted.
    pub modifiers: Vec<ArgExpr>,
    /// The handler's name, preserved from the declaration site.
    pub handler: String,
}

/// The mathematical value of a [`RouteDecl`].
pub struct RouteDeclVal {
    pub method: Method,
    pub path: Seq<char>,
    pub modifiers: Seq<ArgVal>,
    pub handler: Seq<char>,
}

impl View for RouteDecl {
    type V = RouteDeclVal;

    open spec fn view(&self) -> RouteDeclVal {
        RouteDeclVal {
            method: self.method,
            path: self.path@,
            modifiers: self.modifiers.deep_view(),
            handler: self.handler@,
        }
    }
}

/// A contribution as the declaration transform describes it: a group of
/// native route declarations exposed under one mount prefix.
#[derive(Debug)]
pub struct DeclGroup {
    pub mount: String,
    pub routes: Vec<RouteDecl>,
}

/// The mathematical value of a [`DeclGroup`].
pub struct DeclGroupVal {
    pub mount: Seq<char>,
    pub routes: Seq<RouteDeclVal>,
}

impl View for DeclGroup {
    type V = DeclGroupVal;

    open spec fn view(&self) -> DeclGroupVal {
        DeclGroupVal { mount: self.mount@, routes: self.routes.deep_view() }
    }
}

impl DeepView for RouteDecl {
    type V = RouteDeclVal;

    open spec fn deep_view(&self) -> RouteDeclVal {
        self.view()
    }
}

/// The output of the declaration transform: the native declaration, and the
/// mount prefix of the registry contribution. The contribution itself is a
/// one-route group wrapping exactly the declaration; [`Transformed::into_group`]
/// realizes it.
#[derive(Debug)]
pub struct Transformed {
    pub decl: RouteDecl,
    pub mount: String,
}

impl Transformed {
    /// The registry contribution this output makes: a group at `mount`
    /// whose single route is the native declaration.
    pub open spec fn contribution(&self) -> DeclGroupVal {
        DeclGroupVal { mount: self.mount@, routes: seq![self.decl@] }
    }

    /// Realizes the contribution as a group value.
    pub fn into_group(self) -> (g: DeclGroup)
        ensures
            g@ == self.contribution(),
    {
        let group = DeclGroup { mount: self.mount, routes: vec![self.decl] };
        proof {
            assert(group@.routes =~= seq![group.routes@[0]@]);
        }
        group
    }
}

/// The path a route specification declares: its leading literal, or `"/"`
/// when the argument list is empty.
pub open spec fn spec_path(args: Seq<ArgVal>) -> Seq<char> {
    if args.len() == 0 {
        "/"@
    } else {
        args[0]->StrLit_0
    }
}

/// The modifiers a route specification forwards: every argument after the
/// leading path.
pub open spec fn spec_modifiers(args: Seq<ArgVal>) -> Seq<ArgVal> {
    if args.len() == 0 {
        args
    } else {
        args.skip(1)
    }
}

/// What parsing the leading path of a route specification returns: `"/"`
/// for an empty argument list, the leading literal's value otherwise, and a
/// definition-time error — naming the offending argument — when the lead is
/// any other expression.
pub open spec fn parse_mount_result(
    args: Seq<ArgVal>,
    r: Result<String, TransformError>,
) -> bool {
    match r {
        Ok(m) => (args.len() == 0 || args[0] is StrLit) && m@ == spec_path(args),
        Err(e) => args.len() > 0 && !(args[0] is StrLit)
            && (e matches TransformError::NotAStringLiteral { offending } && offending@
            == arg_text(args[0])),
    }
}

/// Parses the literal path leading a route specification's argument list,
/// defaulting to `"/"` when the list is empty.
pub fn parse_mount_from_args(args: &Vec<ArgExpr>) -> (r: Result<String, TransformError>)
    ensures
        parse_mount_result(args.deep_view(), r),
{
    if args.len() == 0 {
        Ok("/".to_owned())
    } else {
        match &args[0] {
            ArgExpr::StrLit(path) => Ok(path.clone()),
            ArgExpr::Other(text) => Err(
                TransformError::NotAStringLiteral { offending: text.clone() },
            ),
        }
    }
}

/// What the declaration transform returns for a given method tag, argument
/// list and handler: the full contract of [`route_with_method`] and of the
/// per-method forms. Success exactly when the argument list is empty or led
/// by a string literal; the output then binds the handler to the method and
/// the declared path, forwards the modifiers verbatim, and contributes a
/// one-route group mounted at `"/"`. Failure exactly otherwise, reporting
/// the offending leading argument.
pub open spec fn transform_result(
    method: Method,
    args: Seq<ArgVal>,
    handler: Seq<char>,
    r: Result<Transformed, TransformError>,
) -> bool {
    match r {
        Ok(t) => (args.len() == 0 || args[0] is StrLit) && t.decl@ == (RouteDeclVal {
            method,
            path: spec_path(args),
            modifiers: spec_modifiers(args),
            handler,
        }) && t.mount@ == "/"@,
        Err(e) => args.len() > 0 && !(args[0] is StrLit)
            && (e matches TransformError::NotAStringLiteral { offending } && offending@
            == arg_text(args[0])),
    }
}

/// The declaration transform shared by the five per-method forms.
///
/// Validates that the specification's leading argument, if any, is a string
/// literal — a definition-time check — and produces the native declaration
/// together with its contribution's mount prefix.
pub fn route_with_method(method: Method, args: Vec<ArgExpr>, handler: String) -> (r: Result<
    Transformed,
    TransformError,
>)
    ensures
        transform_result(method, args.deep_view(), handler@, r),
{
    let ghost orig = args.deep_view();
    let path = match parse_mount_from_args(&args) {
        Ok(path) => path,
        Err(e) => {
            return Err(e);
        },
    };
    let mut modifiers = args;
    if modifiers.len() > 0 {
        modifiers.remove(0);
        proof {
            assert(modifiers.deep_view() =~= orig.skip(1));
        }
    }
    Ok(
        Transformed {
            decl: RouteDecl { method, path, modifiers, handler },
            mount: "/".to_owned(),
        },
    )
}

/// Law: for every valid route specification — an argument list that is
/// empty or led by a string literal — the transform succeeds and produces
/// exactly one native declaration and exactly one registry contribution,
/// whose single route is that declaration, bound to the given method and
/// handler and mounted at `"/"`.
pub proof fn lemma_transform_one_to_one(
    method: Method,
    args: Seq<ArgVal>,
    handler: Seq<char>,
    r: Result<Transformed, TransformError>,
)
    requires
        transform_result(method, args, handler, r),
        args.len() == 0 || args[0] is StrLit,
    ensures
        r is Ok,
        r->Ok_0.contribution().routes.len() == 1,
        r->Ok_0.contribution().routes[0] == r->Ok_0.decl@,
        r->Ok_0.contribution().mount == "/"@,
        r->Ok_0.decl@.method == method,
        r->Ok_0.decl@.path == spec_path(args),
        r->Ok_0.decl@.handler == handler,
{
}

/// The GET form of the declaration transform.
pub fn get(args: Vec<ArgExpr>, handler: String) -> (r: Result<Transformed, TransformError>)
    ensures
        transform_result(Method::Get, args.deep_view(), handler@, r),
{
    route_with_method(Method::Get, args, handler)
}

/// The POST form of the declaration transform.
pub fn post(args: Vec<ArgExpr>, handler: String) -> (r: Result<Transformed, TransformError>)
    ensures
        transform_result(Method::Post, args.deep_view(), handler@, r),
{
    route_with_method(Method::Post, args, handler)
}

/// The PUT form of the declaration transform.
pub fn put(args: Vec<ArgExpr>, handler: String) -> (r: Result<Transformed, TransformError>)
    ensures
        transform_result(Method::Put, args.deep_view(), handler@, r),
{
    route_with_method(Method::Put, args, handler)
}

/// The DELETE form of the declaration transform.
pub fn delete(args: Vec<ArgExpr>, handler: String) -> (r: Result<Transformed, TransformError>)
    ensures
        transform_result(Method::Delete, args.deep_view(), handler@, r),
{
    route_with_method(Method::Delete, args, handler)
}

/// The PATCH form of the declaration transform.
pub fn patch(args: Vec<ArgExpr>, handler: String) -> (r: Result<Transformed, TransformError>)
    ensures
        transform_result(Method::Patch, args.deep_view(), handler@, r),
{
    route_with_method(Method::Patch, args, handler)
}

/// What the generic, method-less form returns: as [`transform_result`] with
/// the `Any` method tag, except that any argument beyond the single literal
/// path is itself a definition-time error.
pub open spec fn auto_route_result(
    args: Seq<ArgVal>,
    handler: Seq<char>,
    r: Result<Transformed, TransformError>,
) -> bool {
    if args.len() > 1 {
        r matches Err(TransformError::UnexpectedArgument { offending }) && offending@ == arg_text(
            args[1],
        )
    } else {
        transform_result(Method::Any, args, handler, r)
    }
}

/// The generic, method-less form of the declaration transform.
///
/// Takes no arguments — mounting at `"/"` — or exactly one literal path.
pub fn auto_route(args: Vec<ArgExpr>, handler: String) -> (r: Result<Transformed, TransformError>)
    ensures
        auto_route_result(args.deep_view(), handler@, r),
{
    if args.len() > 1 {
        let mut rest = args;
        let extra = rest.remove(1);
        match extra {
            ArgExpr::StrLit(text) => Err(TransformError::UnexpectedArgument { offending: text }),
            ArgExpr::Other(text) => Err(TransformError::UnexpectedArgument { offending: text }),
        }
    } else {
        route_with_method(Method::Any, args, handler)
    }
}

} // verus!
