//! Type-erased closures: an entry function paired with an environment word.
use vstd::prelude::*;

verus! {

/// The environment of a [`Closure`]: one machine word that the entry function
/// receives.
#[derive(Debug, Clone, Copy, PartialEq, Eq, Structural)]
pub struct ClosureEnv(pub usize);

impl Default for ClosureEnv {
    fn default() -> (r: Self)
        ensures
            r.0 == 0,
    {
        ClosureEnv(0)
    }
}

/// A light-weight closure: the identifier of an entry function and the
/// environment that it is called with.
#[derive(Debug, Clone, Copy, PartialEq, Eq, Structural)]
pub struct Closure {
    func: usize,
    env: ClosureEnv,
}

impl Closure {
    pub closed spec fn func_spec(self) -> usize {
        self.func
    }

    pub closed spec fn env_spec(self) -> ClosureEnv {
        self.env
    }

    /// The closure made of the entry function `func` and the environment
    /// `env`.
    pub closed spec fn raw_spec(func: usize, env: ClosureEnv) -> Closure {
        Closure { func, env }
    }

    /// The closure made of an entry function and an environment has that
    /// entry function and that environment.
    pub broadcast proof fn lemma_raw_spec(func: usize, env: ClosureEnv)
        ensures
            #[trigger] Closure::raw_spec(func, env).func_spec() == func,
            Closure::raw_spec(func, env).env_spec() == env,
    {
    }

    /// Two closures are equal exactly when their entry functions and their
    /// environments are.
    pub proof fn lemma_parts_injective(a: Closure, b: Closure)
        requires
            a.func_spec() == b.func_spec(),
            a.env_spec() == b.env_spec(),
        ensures
            a == b,
    {
    }

    /// Construct a `Closure` from an entry function and an environment.
    pub fn from_raw_parts(func: usize, env: ClosureEnv) -> (r: Closure)
        ensures
            r == Closure::raw_spec(func, env),
            r.func_spec() == func,
            r.env_spec() == env,
    {
        Closure { func, env }
    }

    /// The entry function.
    pub fn func(self) -> (r: usize)
        ensures
            r == self.func_spec(),
    {
        self.func
    }

    /// The environment.
    pub fn env(self) -> (r: ClosureEnv)
        ensures
            r == self.env_spec(),
    {
        self.env
    }

    /// The entry function and the environment.
    pub fn as_raw_parts(self) -> (r: (usize, ClosureEnv))
        ensures
            r == (self.func_spec(), self.env_spec()),
    {
        (self.func, self.env)
    }
}

/// Conversion into a [`Closure`].
pub trait IntoClosureConst {
    /// The closure that the value converts into.
    spec fn closure_spec(&self) -> Closure;

    /// Convert the value into a closure.
    fn into_closure_const(self) -> (r: Closure)
        ensures
            r == self.closure_spec(),
    ;
}

impl IntoClosureConst for Closure {
    open spec fn closure_spec(&self) -> Closure {
        *self
    }

    fn into_closure_const(self) -> (r: Closure) {
        self
    }
}

impl IntoClosureConst for (usize, usize) {
    /// An entry function that takes one word, paired with that word.
    open spec fn closure_spec(&self) -> Closure {
        Closure::raw_spec(self.0, ClosureEnv(self.1))
    }

    fn into_closure_const(self) -> (r: Closure) {
        Closure { func: self.0, env: ClosureEnv(self.1) }
    }
}

} // verus!
