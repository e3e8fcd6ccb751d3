//! The access-control layer: a yes/no decision over a context value that
//! never loses the context, whatever the verdict.
//!
//! Engines are composable strategies: allow-all, deny-all, and adapters
//! around caller-supplied predicates. A repository wires one engine per
//! operation kind plus one post-operation engine.

use crate::error::RepoError;
use vstd::prelude::*;

verus! {

/// What one access check produced: a verdict together with the
/// (possibly-mutated) context, or a failure of the check itself, still
/// paired with the context.
pub enum AclVerdict<Context> {
    Decided { allowed: bool, ctx: Context },
    Failed { err: RepoError, ctx: Context },
}

/// How a verdict maps to an access decision: the context alone when the
/// check allowed, the error paired with the context otherwise.
pub open spec fn verdict_to_access<Context>(out: AclVerdict<Context>) -> Result<
    Context,
    (RepoError, Context),
> {
    match out {
        AclVerdict::Decided { allowed, ctx } => if allowed {
            Ok(ctx)
        } else {
            Err((RepoError::Unauthorized, ctx))
        },
        AclVerdict::Failed { err, ctx } => Err((err, ctx)),
    }
}

/// Access control layer for repos. It tells if a user can do a certain
/// action with a certain resource; the rules are hardcoded into each
/// implementation.
pub trait AclEngine<Context>: Sized {
    /// On which contexts the engine may be consulted.
    spec fn pre(&self, ctx: Context) -> bool;

    /// Which outcomes `allows` may produce for `ctx`.
    spec fn post(&self, ctx: Context, out: AclVerdict<Context>) -> bool;

    /// Decide whether the action behind `ctx` is allowed. Ownership of the
    /// context is returned in every outcome.
    fn allows(&self, ctx: Context) -> (out: AclVerdict<Context>)
        requires
            self.pre(ctx),
        ensures
            self.post(ctx, out),
    ;

    /// Like `allows`, but a denial becomes an `Unauthorized` error, still
    /// paired with the context.
    fn ensure_access(&self, ctx: Context) -> (r: Result<Context, (RepoError, Context)>)
        requires
            self.pre(ctx),
        ensures
            exists|out: AclVerdict<Context>|
                #[trigger] self.post(ctx, out) && r == verdict_to_access(out),
    {
        let out = self.allows(ctx);
        let ghost o = out;
        let r = match out {
            AclVerdict::Decided { allowed, ctx } => {
                if allowed {
                    Ok(ctx)
                } else {
                    Err((RepoError::Unauthorized, ctx))
                }
            },
            AclVerdict::Failed { err, ctx } => Err((err, ctx)),
        };
        proof {
            assert(self.post(ctx, o) && r == verdict_to_access(o));
        }
        r
    }
}

/// `SystemACL` allows all manipulation with resources in all cases.
#[derive(Clone, Copy, Debug, Default)]
pub struct SystemACL;

impl<Context> AclEngine<Context> for SystemACL {
    open spec fn pre(&self, ctx: Context) -> bool {
        true
    }

    open spec fn post(&self, ctx: Context, out: AclVerdict<Context>) -> bool {
        out == (AclVerdict::Decided { allowed: true, ctx })
    }

    fn allows(&self, ctx: Context) -> (out: AclVerdict<Context>) {
        AclVerdict::Decided { allowed: true, ctx }
    }
}

/// `ForbiddenACL` denies all manipulation with resources in all cases.
#[derive(Clone, Copy, Debug, Default)]
pub struct ForbiddenACL;

impl<Context> AclEngine<Context> for ForbiddenACL {
    open spec fn pre(&self, ctx: Context) -> bool {
        true
    }

    open spec fn post(&self, ctx: Context, out: AclVerdict<Context>) -> bool {
        out == (AclVerdict::Decided { allowed: false, ctx })
    }

    fn allows(&self, ctx: Context) -> (out: AclVerdict<Context>) {
        AclVerdict::Decided { allowed: false, ctx }
    }
}

/// An engine around a verdict-producing function.
pub struct AsyncACLFn<F>(pub F);

impl<Context, F: Fn(Context) -> AclVerdict<Context>> AclEngine<Context> for AsyncACLFn<F> {
    open spec fn pre(&self, ctx: Context) -> bool {
        call_requires(self.0, (ctx,))
    }

    open spec fn post(&self, ctx: Context, out: AclVerdict<Context>) -> bool {
        call_ensures(self.0, (ctx,), out)
    }

    fn allows(&self, ctx: Context) -> (out: AclVerdict<Context>) {
        (self.0)(ctx)
    }
}

/// An engine around a fallible predicate.
pub struct SyncACLFn<F>(pub F);

impl<Context, F: Fn(Context) -> Result<(bool, Context), (RepoError, Context)>> AclEngine<
    Context,
> for SyncACLFn<F> {
    open spec fn pre(&self, ctx: Context) -> bool {
        call_requires(self.0, (ctx,))
    }

    open spec fn post(&self, ctx: Context, out: AclVerdict<Context>) -> bool {
        match out {
            AclVerdict::Decided { allowed, ctx: c } => call_ensures(
                self.0,
                (ctx,),
                Ok((allowed, c)),
            ),
            AclVerdict::Failed { err, ctx: c } => call_ensures(self.0, (ctx,), Err((err, c))),
        }
    }

    fn allows(&self, ctx: Context) -> (out: AclVerdict<Context>) {
        match (self.0)(ctx) {
            Ok((allowed, c)) => AclVerdict::Decided { allowed, ctx: c },
            Err((err, c)) => AclVerdict::Failed { err, ctx: c },
        }
    }
}

/// An engine around an infallible predicate.
pub struct InfallibleSyncACLFn<F>(pub F);

impl<Context, F: Fn(Context) -> (bool, Context)> AclEngine<Context> for InfallibleSyncACLFn<F> {
    open spec fn pre(&self, ctx: Context) -> bool {
        call_requires(self.0, (ctx,))
    }

    open spec fn post(&self, ctx: Context, out: AclVerdict<Context>) -> bool {
        match out {
            AclVerdict::Decided { allowed, ctx: c } => call_ensures(self.0, (ctx,), (allowed, c)),
            AclVerdict::Failed { .. } => false,
        }
    }

    fn allows(&self, ctx: Context) -> (out: AclVerdict<Context>) {
        let (allowed, c) = (self.0)(ctx);
        AclVerdict::Decided { allowed, ctx: c }
    }
}

} // verus!
