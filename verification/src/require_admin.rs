//! The tool that wires the guard into a handler function.
//!
//! It works on a description of the handler: the shape of each parameter and
//! the text of each statement of the body. It looks for the parameter that
//! holds the host's state context and the one that holds the invocation
//! environment, and puts a call of the guard on those two in front of the
//! body. Applied twice, it puts two calls there: it does not look for one of
//! its own.
use vstd::prelude::*;
use vstd::string::*;

verus! {

/// One segment of a type's path: its name, and whether generic arguments in
/// angle brackets follow it.
#[derive(Debug, Clone, PartialEq, Eq)]
pub struct PathSegment {
    pub ident: String,
    pub angle_bracketed: bool,
}

/// The declared type of a parameter, as far as the tool looks into it.
#[derive(Debug, PartialEq, Eq)]
pub enum ParamType {
    /// `&T` or `&mut T`
    Reference(Box<ParamType>),
    /// A type named by a path, such as `a::B<C>`.
    Path(Vec<PathSegment>),
    /// Any other type.
    Other,
}

/// What a parameter binds its value to.
#[derive(Debug, Clone, PartialEq, Eq)]
pub enum Pattern {
    /// A plain name.
    Ident(String),
    /// Anything else, such as `_` or a tuple pattern.
    Other,
}

/// One parameter of a handler.
#[derive(Debug, PartialEq, Eq)]
pub enum Param {
    /// `self` in one of its forms.
    Receiver,
    /// A pattern with its type.
    Typed { pat: Pattern, ty: ParamType },
}

/// A handler function: its parameters in the order declared, and the
/// statements of its body as source text.
#[derive(Debug, PartialEq, Eq)]
pub struct Handler {
    pub params: Vec<Param>,
    pub body: Vec<String>,
}

/// The two arguments that the guard is called on.
#[derive(Debug, Clone, Copy, PartialEq, Eq, Structural)]
pub enum Role {
    /// The host's state context: a reference to a type named `Extern` with
    /// generic arguments.
    Context,
    /// The invocation environment: a type named `Env`, by value or by
    /// reference.
    Environment,
}

/// Why a handler cannot be given the guard. The build stops on either.
#[derive(Debug, Clone, Copy, PartialEq, Eq, Structural)]
pub enum BuildError {
    /// No parameter is a reference to the state context.
    MissingContext,
    /// No parameter is the invocation environment.
    MissingEnvironment,
}

/// The name of the state context's type.
pub open spec fn context_name() -> Seq<char> {
    "Extern"@
}

/// The name of the invocation environment's type.
pub open spec fn environment_name() -> Seq<char> {
    "Env"@
}

/// Some segment of `path` is `Extern` followed by generic arguments.
pub open spec fn names_context(path: Seq<PathSegment>) -> bool {
    exists|k: int|
        0 <= k < path.len() && (#[trigger] path[k]).angle_bracketed && path[k].ident@
            == context_name()
}

/// Some segment of `path` is `Env`.
pub open spec fn names_environment(path: Seq<PathSegment>) -> bool {
    exists|k: int| 0 <= k < path.len() && (#[trigger] path[k]).ident@ == environment_name()
}

/// A type of the shape that `role` asks for.
pub open spec fn fits(ty: ParamType, role: Role) -> bool {
    match role {
        Role::Context => ty matches ParamType::Reference(inner) && *inner matches ParamType::Path(
            path,
        ) && names_context(path@),
        Role::Environment => match ty {
            ParamType::Path(path) => names_environment(path@),
            ParamType::Reference(inner) => *inner matches ParamType::Path(path)
                && names_environment(path@),
            ParamType::Other => false,
        },
    }
}

/// The name under which `param` offers itself for `role`: a typed parameter
/// of the fitting shape that is bound to a plain name. Every other parameter
/// is passed over.
pub open spec fn binding(param: Param, role: Role) -> Option<Seq<char>> {
    match param {
        Param::Typed { pat: Pattern::Ident(name), ty } => if fits(ty, role) {
            Some(name@)
        } else {
            None
        },
        _ => None,
    }
}

/// The name that one scan of `params` in the order declared ends up with for
/// `role`: that of the last parameter that offers itself.
pub open spec fn last_binding(params: Seq<Param>, role: Role) -> Option<Seq<char>>
    decreases params.len(),
{
    if params.len() == 0 {
        None
    } else {
        match binding(params.last(), role) {
            Some(name) => Some(name),
            None => last_binding(params.drop_last(), role),
        }
    }
}

/// The guard call on the two bindings, as source text.
pub open spec fn guard_statement(deps: Seq<char>, env: Seq<char>) -> Seq<char> {
    "assert_admin("@ + deps + ", &"@ + env + ")?;"@
}

/// Where a name is found for `role`, it is that of a parameter that offers
/// itself with no such parameter after it; where none is found, no parameter
/// offers itself.
pub proof fn lemma_last_binding(params: Seq<Param>, role: Role)
    ensures
        match last_binding(params, role) {
            Some(name) => exists|i: int|
                {
                    &&& 0 <= i < params.len()
                    &&& binding(#[trigger] params[i], role) == Some(name)
                    &&& forall|j: int|
                        i < j < params.len() ==> binding(#[trigger] params[j], role) is None
                },
            None => forall|i: int|
                0 <= i < params.len() ==> binding(#[trigger] params[i], role) is None,
        },
    decreases params.len(),
{
    if params.len() > 0 {
        let rest = params.drop_last();
        lemma_last_binding(rest, role);
        match binding(params.last(), role) {
            Some(name) => {
                assert(binding(params[params.len() - 1], role) == Some(name));
            },
            None => {
                match last_binding(rest, role) {
                    Some(name) => {
                        let i = choose|i: int|
                            {
                                &&& 0 <= i < rest.len()
                                &&& binding(#[trigger] rest[i], role) == Some(name)
                                &&& forall|j: int|
                                    i < j < rest.len() ==> binding(#[trigger] rest[j], role)
                                        is None
                            };
                        assert(binding(params[i], role) == Some(name));
                        assert forall|j: int| i < j < params.len() implies binding(
                            #[trigger] params[j],
                            role,
                        ) is None by {
                            if j < rest.len() {
                                assert(binding(rest[j], role) is None);
                            }
                        }
                    },
                    None => {
                        assert forall|i: int| 0 <= i < params.len() implies binding(
                            #[trigger] params[i],
                            role,
                        ) is None by {
                            if i < rest.len() {
                                assert(binding(rest[i], role) is None);
                            }
                        }
                    },
                }
            },
        }
    }
}

/// Whether some segment of `path` is `Extern` with generic arguments.
pub fn has_context_segment(path: &Vec<PathSegment>) -> (r: bool)
    ensures
        r == names_context(path@),
{
    let wanted = String::from_str("Extern");
    let mut k: usize = 0;
    while k < path.len()
        invariant
            k <= path.len(),
            wanted@ == context_name(),
            forall|j: int|
                0 <= j < k ==> !((#[trigger] path[j]).angle_bracketed && path[j].ident@
                    == context_name()),
        decreases path.len() - k,
    {
        if path[k].angle_bracketed && path[k].ident == wanted {
            return true;
        }
        k += 1;
    }
    false
}

/// Whether some segment of `path` is `Env`.
pub fn has_environment_segment(path: &Vec<PathSegment>) -> (r: bool)
    ensures
        r == names_environment(path@),
{
    let wanted = String::from_str("Env");
    let mut k: usize = 0;
    while k < path.len()
        invariant
            k <= path.len(),
            wanted@ == environment_name(),
            forall|j: int| 0 <= j < k ==> (#[trigger] path[j]).ident@ != environment_name(),
        decreases path.len() - k,
    {
        if path[k].ident == wanted {
            return true;
        }
        k += 1;
    }
    false
}

/// Finds the bindings to call the guard on: the state context first, the
/// invocation environment second.
///
/// The parameters are scanned once in the order declared. Where several fit
/// one role, the last one is taken. A missing context is reported before a
/// missing environment.
pub fn find_extern_arg(params: &Vec<Param>) -> (r: Result<(String, String), BuildError>)
    ensures
        match r {
            Ok((deps, env)) => last_binding(params@, Role::Context) == Some(deps@)
                && last_binding(params@, Role::Environment) == Some(env@),
            Err(BuildError::MissingContext) => last_binding(params@, Role::Context) is None,
            Err(BuildError::MissingEnvironment) => last_binding(params@, Role::Context) is Some
                && last_binding(params@, Role::Environment) is None,
        },
{
    let mut deps: Option<String> = None;
    let mut env: Option<String> = None;
    let mut i: usize = 0;
    while i < params.len()
        invariant
            i <= params.len(),
            match deps {
                Some(name) => last_binding(params@.take(i as int), Role::Context) == Some(name@),
                None => last_binding(params@.take(i as int), Role::Context) is None,
            },
            match env {
                Some(name) => last_binding(params@.take(i as int), Role::Environment) == Some(
                    name@,
                ),
                None => last_binding(params@.take(i as int), Role::Environment) is None,
            },
        decreases params.len() - i,
    {
        proof {
            let next = params@.take(i + 1);
            assert(next.drop_last() =~= params@.take(i as int));
            assert(next.last() == params@[i as int]);
        }
        match &params[i] {
            Param::Typed { pat, ty } => {
                match ty {
                    ParamType::Reference(inner) => {
                        match &**inner {
                            ParamType::Path(path) => {
                                if has_context_segment(path) {
                                    if let Pattern::Ident(name) = pat {
                                        deps = Some(name.clone());
                                    }
                                }
                                if has_environment_segment(path) {
                                    if let Pattern::Ident(name) = pat {
                                        env = Some(name.clone());
                                    }
                                }
                            },
                            _ => {},
                        }
                    },
                    ParamType::Path(path) => {
                        if has_environment_segment(path) {
                            if let Pattern::Ident(name) = pat {
                                env = Some(name.clone());
                            }
                        }
                    },
                    ParamType::Other => {},
                }
            },
            Param::Receiver => {},
        }
        i += 1;
    }
    assert(params@.take(i as int) =~= params@);
    match deps {
        None => Err(BuildError::MissingContext),
        Some(deps) => match env {
            None => Err(BuildError::MissingEnvironment),
            Some(env) => Ok((deps, env)),
        },
    }
}

/// Writes the statement that calls the guard on `deps` and `env` and hands
/// its error on.
pub fn create_require_admin_stmt(deps: &String, env: &String) -> (r: String)
    ensures
        r@ == guard_statement(deps@, env@),
{
    let mut stmt = String::from_str("assert_admin(");
    stmt.append(deps.as_str());
    stmt.append(", &");
    stmt.append(env.as_str());
    stmt.append(")?;");
    stmt
}

/// Puts the guard call in front of the handler's body.
///
/// The parameters stay as they are, and so does every statement that was
/// there, in its order. Without a state context or without an invocation
/// environment among the parameters there is no result.
pub fn require_multi_admin(handler: Handler) -> (r: Result<Handler, BuildError>)
    ensures
        match r {
            Ok(guarded) => {
                &&& last_binding(handler.params@, Role::Context) matches Some(deps)
                &&& last_binding(handler.params@, Role::Environment) matches Some(env)
                &&& guarded.params == handler.params
                &&& guarded.body@.len() == handler.body@.len() + 1
                &&& guarded.body@[0]@ == guard_statement(deps, env)
                &&& guarded.body@.skip(1) == handler.body@
            },
            Err(BuildError::MissingContext) => last_binding(handler.params@, Role::Context)
                is None,
            Err(BuildError::MissingEnvironment) => last_binding(handler.params@, Role::Context)
                is Some && last_binding(handler.params@, Role::Environment) is None,
        },
{
    let mut guarded = handler;
    let (deps, env) = find_extern_arg(&guarded.params)?;
    let stmt = create_require_admin_stmt(&deps, &env);
    guarded.body.insert(0, stmt);
    Ok(guarded)
}

impl BuildError {
    /// The message that the build stops with.
    pub fn message(&self) -> (r: String)
        ensures
            r@ == match self {
                BuildError::MissingContext =>
                    "Couldn't find argument of type \"Extern<Storage, Api, Querier>\""@,
                BuildError::MissingEnvironment => "Couldn't find arguments of type \"Env\""@,
            },
    {
        match self {
            BuildError::MissingContext => String::from_str(
                "Couldn't find argument of type \"Extern<Storage, Api, Querier>\"",
            ),
            BuildError::MissingEnvironment => String::from_str(
                "Couldn't find arguments of type \"Env\"",
            ),
        }
    }
}

} // verus!
