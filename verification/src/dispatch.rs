//! The invocation dispatcher.
//!
//! `Callable<Args>` is the adapter a callable implements for the tuple shape
//! of its parameters; `TypeMap::call` resolves that tuple from the store,
//! invokes the callable with it, and releases what was resolved, so guards
//! acquired for the call are given back when it ends. Whatever result the
//! callable produces for itself is not propagated: the callable is an action,
//! and its only effects are on its arguments and its own environment.

use vstd::prelude::*;

use crate::resolve::FromTypeMap;
use crate::store::Error;
use crate::store::TypeMap;

verus! {

/// A callable over the parameter tuple `Args`, each element of which the
/// store can resolve.
pub trait Callable<Args: FromTypeMap> {
    /// The relation this callable guarantees between its arguments as
    /// resolved and its arguments as it leaves them. A callable that states
    /// nothing of itself leaves it at the trivial relation.
    open spec fn effect(&self, pre: Args, post: Args) -> bool {
        true
    }

    /// Invokes the callable on the resolved arguments, in place.
    fn call(&self, args: &mut Args)
        requires
            old(args).valid(),
        ensures
            final(args).valid(),
            self.effect(*old(args), *final(args)),
    ;
}

impl TypeMap {
    /// Resolves the callable's parameter tuple from the store, element by
    /// element in declared order, invokes the callable with it, and releases
    /// everything that was resolved, writing mutated guard values back.
    /// Succeeds exactly when every parameter resolves; a failed resolution is
    /// fatal to the invocation, names the first parameter that failed, and
    /// leaves the store as it was.
    pub fn call<Args: FromTypeMap, F: Callable<Args>>(&mut self, f: &F) -> (r: Result<(), Error>)
        requires
            old(self).wf(),
        ensures
            final(self).wf(),
            r is Ok <==> Args::resolvable(old(self)@),
            r is Ok ==> exists|a0: Args, a1: Args|
                {
                    &&& a0.resolves(old(self)@)
                    &&& #[trigger] f.effect(a0, a1)
                    &&& final(self)@ == a1.released(Args::taken(old(self)@))
                },
            r matches Err(e) ==> final(self)@ == old(self)@ && e == Args::resolution_error(
                old(self)@,
            ),
    {
        match Args::from_type_map(self) {
            Ok(args) => {
                let mut args = args;
                let ghost a0 = args;
                f.call(&mut args);
                let ghost a1 = args;
                args.release(self);
                proof {
                    assert(a0.resolves(old(self)@) && f.effect(a0, a1) && self@ == a1.released(
                        Args::taken(old(self)@),
                    ));
                }
                Ok(())
            },
            Err(e) => Err(e),
        }
    }
}

} // verus!
