//! Determines the initialization order of bindings and checks the borrowing
//! rules.
//!
//! The initialization order is determined by topological sorting. The vertices
//! are:
//!
//! - `v(Bind(bind_i))` for each binding: the initialization of the binding
//!   (vertex index `bind_i`);
//! - `vd(bind_i)` for each binding that is borrowed indefinitely: the starting
//!   point of indefinite borrows (vertex index `n + bind_i`);
//! - `v(Executable)`, encompassing all executable objects (vertex index `2n`),
//!
//! where `n` is the number of bindings. The edges are described by
//! [`has_edge`].
use vstd::prelude::*;

use super::{BindBorrowType, BindUsage};

verus! {

/// The list of consumers of one binding.
pub type BindUsers = Seq<(BindUsage, BindBorrowType)>;

/// An error found while determining the initialization order.
#[derive(Debug, Clone, Copy, PartialEq, Eq, Structural)]
pub enum SorterError {
    /// There exists no valid initialization order because of a dependency
    /// cycle.
    BindCycle,
    /// The binding is borrowed indefinitely or taken in a way that violates
    /// the borrow rules.
    ConflictingIndefiniteBorrow { bind_i: usize },
}

/// A vertex of the binding initialization graph.
#[derive(Debug, Clone, Copy, PartialEq, Eq, Structural)]
pub enum Vertex {
    /// The initialization of a binding.
    BindInit(usize),
    /// The starting point of the indefinite borrows of a binding.
    BindDisown(usize),
    /// All executable objects.
    Executable,
}

impl Vertex {
    /// The index of the vertex, given the number of bindings `n`.
    pub open spec fn index_spec(self, n: int) -> int {
        match self {
            Vertex::BindInit(i) => i as int,
            Vertex::BindDisown(i) => n + i,
            Vertex::Executable => 2 * n,
        }
    }

    /// The kind of the vertex: `0` for `BindInit`, `1` for `BindDisown`,
    /// `2` for `Executable`.
    pub fn discriminant(&self) -> (r: usize)
        ensures
            r == match *self {
                Vertex::BindInit(_) => 0usize,
                Vertex::BindDisown(_) => 1usize,
                Vertex::Executable => 2usize,
            },
    {
        match self {
            Vertex::BindInit(_) => 0,
            Vertex::BindDisown(_) => 1,
            Vertex::Executable => 2,
        }
    }

    /// The preference order between vertices: all `BindInit` vertices come
    /// first, then all `BindDisown` vertices, then `Executable`; vertices of
    /// the same kind are ordered by their binding index. For vertices of
    /// bindings that exist, this agrees with the order of vertex indices.
    pub fn lt(&self, rhs: &Vertex) -> (r: bool)
        ensures
            forall|n: int|
                (match (*self, *rhs) {
                    (Vertex::BindInit(a), _) => a < n,
                    (Vertex::BindDisown(a), _) => a < n,
                    _ => true,
                }) && (match (*self, *rhs) {
                    (_, Vertex::BindInit(b)) => b < n,
                    (_, Vertex::BindDisown(b)) => b < n,
                    _ => true,
                }) ==> (r <==> self.index_spec(n) < rhs.index_spec(n)),
    {
        match (*self, *rhs) {
            (Vertex::BindInit(a), Vertex::BindInit(b)) => a < b,
            (Vertex::BindDisown(a), Vertex::BindDisown(b)) => a < b,
            (Vertex::Executable, Vertex::Executable) => false,
            _ => self.discriminant() < rhs.discriminant(),
        }
    }
}

/// A call-duration borrow (`Borrow` or `BorrowMut`).
pub open spec fn is_borrow(t: BindBorrowType) -> bool {
    t is Borrow || t is BorrowMut
}

/// An indefinite borrow or a move (`Take`, `TakeRef` or `TakeMut`).
pub open spec fn is_take(t: BindBorrowType) -> bool {
    t is Take || t is TakeRef || t is TakeMut
}

/// The number of shared indefinite borrows (`TakeRef`).
pub open spec fn num_shared(s: BindUsers) -> nat
    decreases s.len(),
{
    if s.len() == 0 {
        0
    } else {
        num_shared(s.drop_last()) + if s.last().1 is TakeRef {
            1nat
        } else {
            0nat
        }
    }
}

/// The number of exclusive indefinite borrows (`Take` or `TakeMut`).
pub open spec fn num_exclusive(s: BindUsers) -> nat
    decreases s.len(),
{
    if s.len() == 0 {
        0
    } else {
        num_exclusive(s.drop_last()) + if s.last().1 is Take || s.last().1 is TakeMut {
            1nat
        } else {
            0nat
        }
    }
}

/// Whether the users of a binding violate the borrow rules: a binding may have
/// one `Take`/`TakeMut` or any number of `TakeRef`, but not both.
pub open spec fn is_conflicting(s: BindUsers) -> bool {
    num_exclusive(s) >= 2 || (num_exclusive(s) >= 1 && num_shared(s) >= 1)
}

/// `None`: not borrowed indefinitely; `Some(false)`: has shared indefinite
/// borrows; `Some(true)`: has one exclusive indefinite borrow.
pub open spec fn indefinite(s: BindUsers) -> Option<bool> {
    if num_shared(s) == 0 && num_exclusive(s) == 0 {
        None
    } else if num_exclusive(s) == 0 {
        Some(false)
    } else if num_shared(s) == 0 && num_exclusive(s) == 1 {
        Some(true)
    } else {
        Some(false)
    }
}

/// The vertex index of a binding's consumer.
pub open spec fn usage_vertex(n: int, u: BindUsage) -> int {
    match u {
        BindUsage::Bind(j) => j as int,
        BindUsage::Executable => 2 * n,
    }
}

/// Whether a consumer borrowing with `t` from a binding whose indefinite
/// borrow state is `bi` must be initialized before that binding is disowned.
pub open spec fn disown_after(t: BindBorrowType, bi: Option<bool>) -> bool {
    (is_borrow(t) && bi == Some(true)) || (t is BorrowMut && bi == Some(false))
}

/// Whether vertex `v` exists in the graph.
pub open spec fn present(users: Seq<BindUsers>, v: int) -> bool {
    let n = users.len() as int;
    (0 <= v < n) || (n <= v < 2 * n && indefinite(users[v - n]) is Some) || v == 2 * n
}

/// The edges of the binding initialization graph: `u` must come before `v`.
#[verifier::opaque]
pub open spec fn has_edge(users: Seq<BindUsers>, u: int, v: int) -> bool {
    let n = users.len() as int;
    if 0 <= u < n {
        // `v(Bind(u))` precedes its borrowing users
        (exists|j: int|
            0 <= j < users[u].len() && #[trigger] is_borrow(users[u][j].1) && usage_vertex(
                n,
                users[u][j].0,
            ) == v)
        // `v(Bind(u))` precedes `vd(u)`
         || (v == n + u && indefinite(users[u]) is Some)
        // A user of a binding precedes the binding's disowning
         || (n <= v < 2 * n && exists|j: int|
            0 <= j < users[v - n].len() && #[trigger] users[v - n][j].0 == BindUsage::Bind(
                u as usize,
            ) && disown_after(users[v - n][j].1, indefinite(users[v - n])))
    } else if n <= u < 2 * n {
        // `vd(u - n)` precedes its taking users
        indefinite(users[u - n]) is Some && exists|j: int|
            0 <= j < users[u - n].len() && #[trigger] is_take(users[u - n][j].1) && usage_vertex(
                n,
                users[u - n][j].0,
            ) == v
    } else {
        false
    }
}

/// `vs` lists every vertex of the graph exactly once, and no edge goes from a
/// vertex to itself or to an earlier vertex.
pub open spec fn is_topological_order(users: Seq<BindUsers>, vs: Seq<usize>) -> bool {
    &&& vs.no_duplicates()
    &&& forall|i: int| 0 <= i < vs.len() ==> present(users, #[trigger] vs[i] as int)
    &&& forall|v: usize| present(users, v as int) ==> #[trigger] vs.contains(v)
    &&& forall|i: int, j: int|
        0 <= i <= j < vs.len() ==> !has_edge(users, #[trigger] vs[j] as int, #[trigger] vs[i] as int)
}

/// The consumers of the bindings are well formed: every consumer that is a
/// binding refers to an existing binding, and executable objects never hold
/// call-duration borrows.
pub open spec fn users_wf(users: Seq<BindUsers>) -> bool {
    &&& 2 * users.len() + 1 <= usize::MAX
    &&& forall|i: int, j: int|
        0 <= i < users.len() && 0 <= j < users[i].len() ==> match #[trigger] users[i][j] {
            (BindUsage::Bind(k), _) => k < users.len(),
            (BindUsage::Executable, t) => !is_borrow(t),
        }
}

/// The consumers of each binding, as sequences.
pub open spec fn users_view(users: &Vec<Vec<(BindUsage, BindBorrowType)>>) -> Seq<BindUsers> {
    users@.map_values(|v: Vec<(BindUsage, BindBorrowType)>| v@)
}

/// Compute the indefinite-borrow state of one binding, and whether its users
/// conflict.
pub fn borrowed_indefinitely(s: &Vec<(BindUsage, BindBorrowType)>) -> (r: (Option<bool>, bool))
    ensures
        r.0 == indefinite(s@),
        r.1 == is_conflicting(s@),
{
    let mut num_indefinite_shared: usize = 0;
    let mut num_indefinite_exclusive: usize = 0;
    let mut i: usize = 0;
    while i < s.len()
        invariant
            i <= s.len(),
            num_indefinite_shared == num_shared(s@.take(i as int)),
            num_indefinite_exclusive == num_exclusive(s@.take(i as int)),
            num_indefinite_shared <= i,
            num_indefinite_exclusive <= i,
        decreases s.len() - i,
    {
        assert(s@.take(i as int + 1).drop_last() =~= s@.take(i as int));
        match s[i].1 {
            BindBorrowType::Borrow | BindBorrowType::BorrowMut => {},
            BindBorrowType::TakeRef => {
                num_indefinite_shared += 1;
            },
            BindBorrowType::Take | BindBorrowType::TakeMut => {
                num_indefinite_exclusive += 1;
            },
        }
        i += 1;
    }
    assert(s@.take(s.len() as int) =~= s@);
    let bi = if num_indefinite_shared == 0 && num_indefinite_exclusive == 0 {
        None
    } else if num_indefinite_exclusive == 0 {
        Some(false)
    } else if num_indefinite_shared == 0 && num_indefinite_exclusive == 1 {
        Some(true)
    } else {
        Some(false)
    };
    let conflicting = num_indefinite_exclusive >= 2 || (num_indefinite_exclusive >= 1
        && num_indefinite_shared >= 1);
    (bi, conflicting)
}

fn vertex_of_usage(n: usize, u: BindUsage) -> (r: usize)
    requires
        2 * n + 1 <= usize::MAX,
        u matches BindUsage::Bind(k) ==> k < n,
    ensures
        r == usage_vertex(n as int, u),
{
    match u {
        BindUsage::Bind(k) => k,
        BindUsage::Executable => 2 * n,
    }
}

fn is_borrow_exec(t: BindBorrowType) -> (r: bool)
    ensures
        r == is_borrow(t),
{
    match t {
        BindBorrowType::Borrow | BindBorrowType::BorrowMut => true,
        _ => false,
    }
}

fn is_take_exec(t: BindBorrowType) -> (r: bool)
    ensures
        r == is_take(t),
{
    !is_borrow_exec(t)
}

fn disown_after_exec(t: BindBorrowType, bi: Option<bool>) -> (r: bool)
    ensures
        r == disown_after(t, bi),
{
    match (t, bi) {
        (BindBorrowType::Borrow, Some(true)) | (BindBorrowType::BorrowMut, Some(true)) | (
            BindBorrowType::BorrowMut,
            Some(false),
        ) => true,
        _ => false,
    }
}

/// The precomputed indefinite-borrow states agree with the users.
pub open spec fn bi_matches(users: Seq<BindUsers>, bi: Seq<Option<bool>>) -> bool {
    &&& bi.len() == users.len()
    &&& forall|i: int| 0 <= i < users.len() ==> #[trigger] bi[i] == indefinite(users[i])
}

fn is_present(users: &Vec<Vec<(BindUsage, BindBorrowType)>>, bi: &Vec<Option<bool>>, v: usize) -> (r: bool)
    requires
        users_wf(users_view(users)),
        bi_matches(users_view(users), bi@),
    ensures
        r == present(users_view(users), v as int),
{
    let n = users.len();
    if v < n {
        true
    } else if v < 2 * n {
        bi[v - n].is_some()
    } else {
        v == 2 * n
    }
}

/// Decide whether there is an edge from vertex `u` to vertex `v`.
fn edge_exists(users: &Vec<Vec<(BindUsage, BindBorrowType)>>, bi: &Vec<Option<bool>>, u: usize, v: usize) -> (r: bool)
    requires
        users_wf(users_view(users)),
        bi_matches(users_view(users), bi@),
    ensures
        r == has_edge(users_view(users), u as int, v as int),
{
    reveal(has_edge);
    let ghost us = users_view(users);
    let n = users.len();
    if u < n {
        assert(us[u as int] == users@[u as int]@);
        let uu = &users[u];
        let mut j: usize = 0;
        while j < uu.len()
            invariant
                us == users_view(users),
                n == users.len(),
                u < n,
                uu@ == us[u as int],
                users_wf(us),
                j <= uu.len(),
                forall|k: int|
                    0 <= k < j ==> !(#[trigger] is_borrow(us[u as int][k].1) && usage_vertex(
                        n as int,
                        us[u as int][k].0,
                    ) == v),
            decreases uu.len() - j,
        {
            assert(us[u as int][j as int] == uu@[j as int]);
            let (usage, t) = uu[j];
            if is_borrow_exec(t) {
                let w = vertex_of_usage(n, usage);
                if w == v {
                    assert(us[u as int][j as int] == (usage, t));
                    assert(us.len() == n);
                    reveal(has_edge);
                    assert(0 <= j < us[u as int].len() && is_borrow(us[u as int][j as int].1) && usage_vertex(
                        us.len() as int, us[u as int][j as int].0) == v);
                    return true;
                }
            }
            j += 1;
        }
        if v == n + u && bi[u].is_some() {
            return true;
        }
        if n <= v && v < 2 * n {
            let k = v - n;
            assert(us[k as int] == users@[k as int]@);
            let uk = &users[k];
            let bk = bi[k];
            let mut j: usize = 0;
            while j < uk.len()
                invariant
                    us == users_view(users),
                    n == users.len(),
                    k < n,
                    k == v - n,
                    n <= v < 2 * n,
                    u < n,
                    uk@ == us[k as int],
                    bk == indefinite(us[k as int]),
                    j <= uk.len(),
                    forall|m: int|
                        0 <= m < j ==> !(#[trigger] us[k as int][m].0 == BindUsage::Bind(u)
                            && disown_after(us[k as int][m].1, indefinite(us[k as int]))),
                decreases uk.len() - j,
            {
                assert(us[k as int][j as int] == uk@[j as int]);
                let (usage, t) = uk[j];
                let is_u = match usage {
                    BindUsage::Bind(x) => x == u,
                    BindUsage::Executable => false,
                };
                if is_u && disown_after_exec(t, bk) {
                    assert(us[k as int][j as int] == (usage, t));
                    assert(us.len() == n);
                    reveal(has_edge);
                    assert(0 <= j < us[k as int].len() && us[k as int][j as int].0 == BindUsage::Bind(u)
                        && disown_after(us[k as int][j as int].1, indefinite(us[k as int])));
                    return true;
                }
                j += 1;
            }
        }
        false
    } else if u < 2 * n {
        let k = u - n;
        assert(us[k as int] == users@[k as int]@);
        if bi[k].is_none() {
            return false;
        }
        let uk = &users[k];
        let mut j: usize = 0;
        while j < uk.len()
            invariant
                us == users_view(users),
                n == users.len(),
                k < n,
                k == u - n,
                n <= u < 2 * n,
                indefinite(us[k as int]) is Some,
                uk@ == us[k as int],
                users_wf(us),
                j <= uk.len(),
                forall|m: int|
                    0 <= m < j ==> !(#[trigger] is_take(us[k as int][m].1) && usage_vertex(
                        n as int,
                        us[k as int][m].0,
                    ) == v),
            decreases uk.len() - j,
        {
            assert(us[k as int][j as int] == uk@[j as int]);
            let (usage, t) = uk[j];
            if is_take_exec(t) {
                let w = vertex_of_usage(n, usage);
                if w == v {
                    assert(us[k as int][j as int] == (usage, t));
                    assert(us.len() == n);
                    reveal(has_edge);
                    assert(0 <= j < us[k as int].len() && is_take(us[k as int][j as int].1) && usage_vertex(
                        us.len() as int, us[k as int][j as int].0) == v);
                    return true;
                }
            }
            j += 1;
        }
        false
    } else {
        false
    }
}

/// Whether every vertex that still precedes `v` has already been output.
fn is_ready(
    users: &Vec<Vec<(BindUsage, BindBorrowType)>>,
    bi: &Vec<Option<bool>>,
    done: &Vec<bool>,
    v: usize,
) -> (r: bool)
    requires
        users_wf(users_view(users)),
        bi_matches(users_view(users), bi@),
        done.len() == 2 * users.len() + 1,
    ensures
        r == forall|u: int|
            0 <= u < done.len() && present(users_view(users), u) && !done@[u] ==> !#[trigger] has_edge(
                users_view(users),
                u,
                v as int,
            ),
{
    let mut u: usize = 0;
    while u < done.len()
        invariant
            users_wf(users_view(users)),
            bi_matches(users_view(users), bi@),
            done.len() == 2 * users.len() + 1,
            u <= done.len(),
            forall|w: int|
                0 <= w < u && present(users_view(users), w) && !done@[w] ==> !#[trigger] has_edge(
                    users_view(users),
                    w,
                    v as int,
                ),
        decreases done.len() - u,
    {
        if is_present(users, bi, u) && !done[u] && edge_exists(users, bi, u, v) {
            return false;
        }
        u += 1;
    }
    true
}

/// The state of Kahn's algorithm: `out` lists the vertices output so far,
/// `done` marks them, and every edge into an output vertex comes from an
/// earlier output vertex.
pub open spec fn kahn_inv(us: Seq<BindUsers>, done: Seq<bool>, out: Seq<usize>) -> bool {
    let nv = 2 * us.len() + 1;
    &&& nv <= usize::MAX
    &&& done.len() == nv
    &&& out.no_duplicates()
    &&& out.len() <= nv
    &&& forall|k: int| 0 <= k < out.len() ==> #[trigger] out[k] < nv
    &&& forall|k: int| 0 <= k < out.len() ==> present(us, #[trigger] out[k] as int)
    &&& forall|v: usize| v < nv ==> (done[v as int] <==> #[trigger] out.contains(v))
    &&& forall|k: int, u: int|
        #![trigger has_edge(us, u, out[k] as int)]
        0 <= k < out.len() && 0 <= u < nv && present(us, u) && has_edge(us, u, out[k] as int)
            ==> exists|m: int| 0 <= m < k && #[trigger] out[m] == u as usize
}

/// Every remaining vertex has a remaining predecessor.
pub open spec fn kahn_stuck(us: Seq<BindUsers>, done: Seq<bool>) -> bool {
    forall|x: int|
        0 <= x < done.len() && present(us, x) && !done[x] ==> exists|u: int|
            0 <= u < done.len() && present(us, u) && !done[u] && #[trigger] has_edge(us, u, x)
}

/// Outputting a ready vertex preserves the state invariant.
proof fn lemma_kahn_step(
    us: Seq<BindUsers>,
    done: Seq<bool>,
    out: Seq<usize>,
    v: usize,
)
    requires
        kahn_inv(us, done, out),
        v < done.len(),
        present(us, v as int),
        !done[v as int],
        forall|u: int|
            0 <= u < done.len() && present(us, u) && !done[u] ==> !#[trigger] has_edge(us, u, v as int),
    ensures
        out.len() < done.len(),
        kahn_inv(us, done.update(v as int, true), out.push(v)),
{
    let nv = done.len();
    let done2 = done.update(v as int, true);
    let out2 = out.push(v);
    assert(!out.contains(v));
    if out.len() == nv {
        lemma_full_no_dup_covers(out, nv as int, v as int);
    }
    assert forall|w: usize| w < nv implies (done2[w as int] <==> #[trigger] out2.contains(w)) by {
        if w == v {
            assert(out2[out.len() as int] == v);
        } else {
            if out.contains(w) {
                let m = choose|m: int| 0 <= m < out.len() && out[m] == w;
                assert(out2[m] == w);
            }
            if out2.contains(w) {
                let m = choose|m: int| 0 <= m < out2.len() && out2[m] == w;
                assert(out2[m] == out[m]);
            }
        }
    }
    assert forall|k: int, u: int|
        #![trigger has_edge(us, u, out2[k] as int)]
        0 <= k < out2.len() && 0 <= u < nv && present(us, u) && has_edge(us, u, out2[k] as int)
            implies exists|m: int| 0 <= m < k && #[trigger] out2[m] == u as usize by {
        if k < out.len() {
            assert(out2[k] == out[k]);
            assert(has_edge(us, u, out[k] as int));
            let m = choose|m: int| 0 <= m < k && #[trigger] out[m] == u as usize;
            assert(out2[m] == out[m]);
        } else {
            assert(out2[k] == v);
            assert(done[u]);
            assert(done[(u as usize) as int]);
            assert(out.contains(u as usize));
            let m = choose|m: int| 0 <= m < out.len() && out[m] == u as usize;
            assert(out2[m] == out[m]);
        }
    }
    assert forall|k: int| 0 <= k < out2.len() implies #[trigger] out2[k] < nv && present(us, out2[k] as int) by {
        if k < out.len() {
            assert(out2[k] == out[k]);
        }
    }
}

/// When every present vertex has been output, the output is a topological
/// order.
proof fn lemma_kahn_complete(us: Seq<BindUsers>, done: Seq<bool>, out: Seq<usize>)
    requires
        kahn_inv(us, done, out),
        forall|x: int| 0 <= x < done.len() && present(us, x) ==> #[trigger] done[x],
    ensures
        is_topological_order(us, out),
{
    let nv = done.len();
    assert forall|v: usize| present(us, v as int) implies #[trigger] out.contains(v) by {
        assert(v < nv);
        assert(done[v as int]);
    }
    assert forall|i: int, j: int| 0 <= i <= j < out.len() implies !has_edge(
        us,
        #[trigger] out[j] as int,
        #[trigger] out[i] as int,
    ) by {
        let u = out[j] as int;
        if has_edge(us, u, out[i] as int) {
            assert(0 <= u < nv);
            assert(present(us, u));
            let m = choose|m: int| 0 <= m < i && #[trigger] out[m] == u as usize;
            assert(out[m] == out[j]);
        }
    }
}

/// If every remaining vertex has a remaining predecessor, then the vertices
/// at the first `k` positions of any topological order have all been output.
proof fn lemma_no_order_if_stuck(us: Seq<BindUsers>, done: Seq<bool>, vs: Seq<usize>, k: int)
    requires
        done.len() == 2 * us.len() + 1,
        2 * us.len() + 1 <= usize::MAX,
        is_topological_order(us, vs),
        kahn_stuck(us, done),
        0 <= k <= vs.len(),
    ensures
        forall|i: int| 0 <= i < k ==> done[#[trigger] vs[i] as int],
    decreases k,
{
    if k > 0 {
        lemma_no_order_if_stuck(us, done, vs, k - 1);
        let v = vs[k - 1] as int;
        assert(present(us, v));
        if !done[v] {
            let u = choose|u: int|
                0 <= u < done.len() && present(us, u) && !done[u] && #[trigger] has_edge(us, u, v);
            assert(present(us, (u as usize) as int));
            assert(vs.contains(u as usize));
            let iu = choose|iu: int| 0 <= iu < vs.len() && vs[iu] == u as usize;
            if iu >= k - 1 {
                assert(!has_edge(us, vs[iu] as int, vs[k - 1] as int));
            } else {
                assert(done[vs[iu] as int]);
            }
        }
    }
}

/// If every remaining vertex has a remaining predecessor and some present
/// vertex remains, no topological order exists.
proof fn lemma_kahn_incomplete(us: Seq<BindUsers>, done: Seq<bool>, x: int)
    requires
        done.len() == 2 * us.len() + 1,
        2 * us.len() + 1 <= usize::MAX,
        kahn_stuck(us, done),
        0 <= x < done.len(),
        present(us, x),
        !done[x],
    ensures
        forall|vs: Seq<usize>| !is_topological_order(us, vs),
{
    assert forall|vs: Seq<usize>| !is_topological_order(us, vs) by {
        if is_topological_order(us, vs) {
            lemma_no_order_if_stuck(us, done, vs, vs.len() as int);
            assert(present(us, (x as usize) as int));
            assert(vs.contains(x as usize));
            let ix = choose|ix: int| 0 <= ix < vs.len() && vs[ix] == x as usize;
            assert(done[vs[ix] as int]);
        }
    }
}

/// Every edge between present vertices goes from a smaller vertex index to a
/// larger one, so that listing the present vertices in ascending order is a
/// topological order.
pub open spec fn edges_ascend(us: Seq<BindUsers>) -> bool {
    forall|u: int, v: int| present(us, u) && present(us, v) && #[trigger] has_edge(us, u, v) ==> u < v
}

/// Where edges ascend and every remaining vertex below `b` has a remaining
/// predecessor, no vertex below `b` remains: following predecessors would
/// descend forever.
proof fn lemma_no_remaining_below(us: Seq<BindUsers>, done: Seq<bool>, b: int, x: int)
    requires
        edges_ascend(us),
        b <= done.len(),
        forall|y: int|
            0 <= y < b && present(us, y) && !done[y] ==> exists|u: int|
                0 <= u < done.len() && present(us, u) && !done[u] && #[trigger] has_edge(us, u, y),
        0 <= x < b,
    ensures
        present(us, x) ==> done[x],
    decreases x,
{
    if present(us, x) && !done[x] {
        let u = choose|u: int| 0 <= u < done.len() && present(us, u) && !done[u] && #[trigger] has_edge(us, u, x);
        assert(u < x);
        lemma_no_remaining_below(us, done, b, u);
    }
}

/// Find a present vertex that has not been output, if any.
fn find_remaining(users: &Vec<Vec<(BindUsage, BindBorrowType)>>, bi: &Vec<Option<bool>>, done: &Vec<bool>) -> (r: Option<usize>)
    requires
        users_wf(users_view(users)),
        bi_matches(users_view(users), bi@),
        done.len() == 2 * users.len() + 1,
    ensures
        r matches Some(x) ==> x < done.len() && present(users_view(users), x as int) && !done@[x as int],
        r is None ==> forall|x: int| 0 <= x < done.len() && present(users_view(users), x) ==> #[trigger] done@[x],
{
    let mut w: usize = 0;
    while w < done.len()
        invariant
            users_wf(users_view(users)),
            bi_matches(users_view(users), bi@),
            done.len() == 2 * users.len() + 1,
            w <= done.len(),
            forall|x: int| 0 <= x < w && present(users_view(users), x) ==> #[trigger] done@[x],
        decreases done.len() - w,
    {
        if is_present(users, bi, w) && !done[w] {
            return Some(w);
        }
        w += 1;
    }
    None
}

/// Find the smallest vertex that is present, not yet output, and has no
/// remaining predecessor.
fn find_ready(users: &Vec<Vec<(BindUsage, BindBorrowType)>>, bi: &Vec<Option<bool>>, done: &Vec<bool>) -> (r: Option<usize>)
    requires
        users_wf(users_view(users)),
        bi_matches(users_view(users), bi@),
        done.len() == 2 * users.len() + 1,
    ensures
        r matches Some(v) ==> v < done.len() && present(users_view(users), v as int) && !done@[v as int]
            && forall|u: int|
            0 <= u < done.len() && present(users_view(users), u) && !done@[u] ==> !#[trigger] has_edge(
                users_view(users),
                u,
                v as int,
            ),
        r is None ==> kahn_stuck(users_view(users), done@),
        r matches Some(v) ==> forall|x: int|
            0 <= x < v && present(users_view(users), x) && !done@[x] ==> exists|u: int|
                0 <= u < done.len() && present(users_view(users), u) && !done@[u] && #[trigger] has_edge(
                    users_view(users),
                    u,
                    x,
                ),
{
    let mut v: usize = 0;
    while v < done.len()
        invariant
            users_wf(users_view(users)),
            bi_matches(users_view(users), bi@),
            done.len() == 2 * users.len() + 1,
            v <= done.len(),
            forall|x: int|
                0 <= x < v && present(users_view(users), x) && !done@[x] ==> exists|u: int|
                    0 <= u < done.len() && present(users_view(users), u) && !done@[u] && #[trigger] has_edge(
                        users_view(users),
                        u,
                        x,
                    ),
        decreases done.len() - v,
    {
        if is_present(users, bi, v) && !done[v] {
            if is_ready(users, bi, done, v) {
                return Some(v);
            }
        }
        v += 1;
    }
    None
}

/// Perform topological sorting using Kahn's algorithm, preferring vertices
/// with smaller indices when faced with ambiguous choices.
///
/// Returns the complete vertex order if one exists. If listing the vertices
/// in ascending order is a valid topological order, that is the answer.
#[verifier::rlimit(40)]
pub fn topological_sort(users: &Vec<Vec<(BindUsage, BindBorrowType)>>, bi: &Vec<Option<bool>>) -> (r: Option<Vec<usize>>)
    requires
        users_wf(users_view(users)),
        bi_matches(users_view(users), bi@),
    ensures
        r matches Some(vs) ==> is_topological_order(users_view(users), vs@),
        r matches Some(vs) ==> greedy_order(users_view(users), vs@),
        r is None ==> forall|vs: Seq<usize>| !is_topological_order(users_view(users), vs),
        edges_ascend(users_view(users)) ==> (r matches Some(vs) && forall|i: int, j: int|
            0 <= i < j < vs.len() ==> vs@[i] < vs@[j]),
{
    let ghost us = users_view(users);
    let num_vertices = 2 * users.len() + 1;
    let mut done: Vec<bool> = Vec::new();
    let mut i: usize = 0;
    while i < num_vertices
        invariant
            i <= num_vertices,
            done.len() == i,
            forall|k: int| 0 <= k < i ==> !done@[k],
        decreases num_vertices - i,
    {
        done.push(false);
        i += 1;
    }
    let mut out: Vec<usize> = Vec::new();
    proof {
        assert forall|v: usize| v < num_vertices implies (done@[v as int] <==> #[trigger] out@.contains(v)) by {}
    }
    loop
        invariant
            us == users_view(users),
            users_wf(us),
            bi_matches(us, bi@),
            num_vertices == 2 * users.len() + 1,
            kahn_inv(us, done@, out@),
            edges_ascend(us) ==> ascending_progress(us, done@, out@),
            greedy_order(us, out@),
        ensures
            kahn_inv(us, done@, out@),
            kahn_stuck(us, done@),
            edges_ascend(us) ==> ascending_progress(us, done@, out@),
            greedy_order(us, out@),
        decreases num_vertices - out.len(),
    {
        let v = match find_ready(users, bi, &done) {
            Some(v) => v,
            None => break,
        };
        proof {
            lemma_greedy_step(us, done@, out@, v);
            lemma_kahn_step(us, done@, out@, v);
            if edges_ascend(us) {
                lemma_ascending_step(us, done@, out@, v);
            }
        }
        done.set(v, true);
        out.push(v);
    }
    match find_remaining(users, bi, &done) {
        None => {
            proof {
                lemma_kahn_complete(us, done@, out@);
            }
            Some(out)
        },
        Some(x) => {
            proof {
                lemma_kahn_incomplete(us, done@, x as int);
                if edges_ascend(us) {
                    lemma_no_remaining_below(us, done@, done.len() as int, x as int);
                }
            }
            None
        },
    }
}

/// `v` is the smallest vertex that is ready once the vertices of `done` have
/// been output: it is present and not output, no remaining vertex precedes
/// it, and every smaller remaining vertex has a remaining predecessor.
pub open spec fn is_greedy_choice(us: Seq<BindUsers>, done: Seq<usize>, v: int) -> bool {
    &&& present(us, v)
    &&& !done.contains(v as usize)
    &&& forall|u: int| present(us, u) && !done.contains(u as usize) ==> !#[trigger] has_edge(us, u, v)
    &&& forall|x: int|
        0 <= x < v && present(us, x) && !done.contains(x as usize) ==> exists|u: int|
            present(us, u) && !done.contains(u as usize) && #[trigger] has_edge(us, u, x)
}

/// Each vertex of `out` is the smallest one that is ready after the ones
/// before it: the order in which Kahn's algorithm outputs the vertices when
/// it prefers smaller vertex indices.
pub open spec fn greedy_order(us: Seq<BindUsers>, out: Seq<usize>) -> bool {
    forall|k: int| 0 <= k < out.len() ==> is_greedy_choice(us, out.take(k), #[trigger] out[k] as int)
}

/// Outputting the vertex that `find_ready` picks extends a greedy order.
proof fn lemma_greedy_step(us: Seq<BindUsers>, done: Seq<bool>, out: Seq<usize>, v: usize)
    requires
        kahn_inv(us, done, out),
        greedy_order(us, out),
        v < done.len(),
        present(us, v as int),
        !done[v as int],
        forall|u: int|
            0 <= u < done.len() && present(us, u) && !done[u] ==> !#[trigger] has_edge(us, u, v as int),
        forall|x: int|
            0 <= x < v && present(us, x) && !done[x] ==> exists|u: int|
                0 <= u < done.len() && present(us, u) && !done[u] && #[trigger] has_edge(us, u, x),
    ensures
        greedy_order(us, out.push(v)),
{
    let nv = done.len();
    let out2 = out.push(v);
    assert(out2.take(out.len() as int) =~= out);
    assert forall|u: int| present(us, u) implies (done[u] <==> out.contains(u as usize)) by {
        assert(u < nv);
        assert(done[(u as usize) as int] <==> out.contains(u as usize));
    }
    assert(is_greedy_choice(us, out, v as int)) by {
        assert forall|x: int| 0 <= x < v && present(us, x) && !out.contains(x as usize) implies exists|u: int|
            present(us, u) && !out.contains(u as usize) && #[trigger] has_edge(us, u, x) by {
            assert(!done[x]);
            let u = choose|u: int| 0 <= u < done.len() && present(us, u) && !done[u] && #[trigger] has_edge(us, u, x);
            assert(!out.contains(u as usize));
        }
    }
    assert forall|k: int| 0 <= k < out2.len() implies is_greedy_choice(us, out2.take(k), #[trigger] out2[k] as int) by {
        if k < out.len() {
            assert(out2.take(k) =~= out.take(k));
            assert(out2[k] == out[k]);
        }
    }
}

/// The output so far is ascending, and every remaining vertex is larger
/// than every output one.
pub open spec fn ascending_progress(us: Seq<BindUsers>, done: Seq<bool>, out: Seq<usize>) -> bool {
    &&& forall|k: int, l: int| #![trigger out[k], out[l]] 0 <= k < l < out.len() ==> out[k] < out[l]
    &&& forall|k: int, x: int|
        #![trigger out[k], done[x]]
        0 <= k < out.len() && 0 <= x < done.len() && present(us, x) && !done[x] ==> out[k] < x
}

/// Where edges ascend, the vertex that Kahn's algorithm picks next is the
/// smallest remaining one, so the output stays ascending.
proof fn lemma_ascending_step(us: Seq<BindUsers>, done: Seq<bool>, out: Seq<usize>, v: usize)
    requires
        edges_ascend(us),
        ascending_progress(us, done, out),
        v < done.len(),
        present(us, v as int),
        !done[v as int],
        forall|x: int|
            0 <= x < v && present(us, x) && !done[x] ==> exists|u: int|
                0 <= u < done.len() && present(us, u) && !done[u] && #[trigger] has_edge(us, u, x),
    ensures
        ascending_progress(us, done.update(v as int, true), out.push(v)),
{
    let done2 = done.update(v as int, true);
    let out2 = out.push(v);
    assert forall|x: int| 0 <= x < done.len() && present(us, x) && !done[x] implies v <= x by {
        if x < v {
            lemma_no_remaining_below(us, done, v as int, x);
        }
    }
    assert forall|k: int, l: int| 0 <= k < l < out2.len() implies #[trigger] out2[k] < #[trigger] out2[l] by {
        if l < out.len() {
            assert(out2[k] == out[k] && out2[l] == out[l]);
        } else {
            assert(out2[k] == out[k]);
            assert(out[k] < v) by {
                assert(done[v as int] == false);
            }
        }
    }
    assert forall|k: int, x: int|
        0 <= k < out2.len() && 0 <= x < done2.len() && present(us, x) && !done2[x] implies #[trigger] out2[k]
        < x && #[trigger] done2[x] == done2[x] by {
        assert(!done[x]);
        assert(v <= x);
        if k < out.len() {
            assert(out2[k] == out[k]);
            assert(out[k] < x) by {
                assert(done[x] == false);
            }
        }
    }
}

/// A duplicate-free sequence of `n` indices below `n` contains every index
/// below `n`.
proof fn lemma_full_no_dup_covers(s: Seq<usize>, n: int, w: int)
    requires
        s.no_duplicates(),
        s.len() == n,
        forall|k: int| 0 <= k < s.len() ==> #[trigger] s[k] < n,
        0 <= w < n,
        n <= usize::MAX,
    ensures
        s.contains(w as usize),
{
    let f = |x: usize| x as int;
    let full = Set::new(|x: usize| 0 <= x < n);
    assert(s.to_set().subset_of(full));
    s.unique_seq_to_set();
    lemma_range_set_len(n);
    if !s.contains(w as usize) {
        assert(s.to_set().subset_of(full.remove(w as usize)));
        vstd::set_lib::lemma_len_subset(s.to_set(), full.remove(w as usize));
    }
}

proof fn lemma_range_set_len(n: int)
    requires
        0 <= n <= usize::MAX + 1,
    ensures
        Set::new(|x: usize| 0 <= x < n).finite(),
        Set::new(|x: usize| 0 <= x < n).len() == n,
    decreases n,
{
    if n == 0 {
        assert(Set::new(|x: usize| 0 <= x < n) =~= Set::<usize>::empty());
    } else {
        lemma_range_set_len(n - 1);
        assert(Set::new(|x: usize| 0 <= x < n) =~= Set::new(|x: usize| 0 <= x < n - 1).insert(
            (n - 1) as usize,
        ));
    }
}

} // verus!

verus! {

/// The initializer of binding `j` consumes binding `i`.
pub open spec fn consumes(us: Seq<BindUsers>, j: int, i: int) -> bool {
    exists|k: int| 0 <= k < us[i].len() && #[trigger] us[i][k].0 == BindUsage::Bind(j as usize)
}

/// No binding violates the borrow rules.
pub open spec fn no_conflicts(us: Seq<BindUsers>) -> bool {
    forall|i: int| 0 <= i < us.len() ==> !#[trigger] is_conflicting(us[i])
}

/// `order` lists every binding exactly once, and no binding's initializer
/// comes before (or is) a binding it consumes.
pub open spec fn is_init_order(us: Seq<BindUsers>, order: Seq<usize>) -> bool {
    &&& order.no_duplicates()
    &&& forall|a: int| 0 <= a < order.len() ==> #[trigger] order[a] < us.len()
    &&& forall|i: usize| i < us.len() ==> #[trigger] order.contains(i)
    &&& forall|a: int, b: int|
        0 <= a <= b < order.len() ==> !consumes(us, #[trigger] order[a] as int, #[trigger] order[b] as int)
}

/// A binding with a `Take`, `TakeRef` or `TakeMut` user is borrowed
/// indefinitely.
proof fn lemma_take_implies_indefinite(s: BindUsers, k: int)
    requires
        0 <= k < s.len(),
        is_take(s[k].1),
    ensures
        indefinite(s) is Some,
    decreases s.len(),
{
    if k < s.len() - 1 {
        lemma_take_implies_indefinite(s.drop_last(), k);
    }
}

/// A user with a shared indefinite borrow counts as shared, and one with an
/// exclusive indefinite borrow as exclusive.
proof fn lemma_take_counts(s: BindUsers, k: int)
    requires
        0 <= k < s.len(),
    ensures
        s[k].1 is TakeRef ==> num_shared(s) >= 1,
        (s[k].1 is Take || s[k].1 is TakeMut) ==> num_exclusive(s) >= 1,
    decreases s.len(),
{
    if k < s.len() - 1 {
        lemma_take_counts(s.drop_last(), k);
    }
}

/// Two indefinite borrows of one binding conflict when one of them is
/// exclusive (`Take` or `TakeMut`).
pub proof fn lemma_exclusive_take_conflicts(s: BindUsers, k1: int, k2: int)
    requires
        0 <= k1 < s.len(),
        0 <= k2 < s.len(),
        k1 != k2,
        s[k1].1 is Take || s[k1].1 is TakeMut,
        is_take(s[k2].1),
    ensures
        is_conflicting(s),
    decreases s.len(),
{
    let last = s.len() - 1;
    if k1 < last && k2 < last {
        lemma_exclusive_take_conflicts(s.drop_last(), k1, k2);
        assert(num_exclusive(s) >= num_exclusive(s.drop_last()));
        assert(num_shared(s) >= num_shared(s.drop_last()));
    } else if k1 == last {
        lemma_take_counts(s.drop_last(), k2);
    } else {
        lemma_take_counts(s.drop_last(), k1);
    }
}

/// Of two binding initializers that use the same binding, `a` borrows it
/// for the duration of its call and `b` takes it indefinitely, where the
/// borrow must end before the indefinite borrow starts: `a` borrows it
/// mutably while `b` takes a shared reference, or the binding has a single
/// exclusive indefinite borrow (`Take` or `TakeMut`) and no shared one.
pub open spec fn borrow_must_precede_take(s: BindUsers, borrow: BindBorrowType, take: BindBorrowType) -> bool {
    &&& is_borrow(borrow)
    &&& ((borrow is BorrowMut && take is TakeRef) || ((take is Take || take is TakeMut) && !is_conflicting(s)))
}

/// In `order`, a binding that borrows another binding for the duration of
/// its initializer comes before every binding that takes that binding in a
/// way the borrow must not overlap.
pub open spec fn borrows_end_before_takes(us: Seq<BindUsers>, order: Seq<usize>) -> bool {
    forall|i: int, k1: int, k2: int, a: int, b: int|
        #![trigger us[i][k1], us[i][k2], order[a], order[b]]
        0 <= i < us.len() && 0 <= k1 < us[i].len() && 0 <= k2 < us[i].len() && 0 <= a < order.len() && 0
            <= b < order.len() && us[i][k1].0 == BindUsage::Bind(order[a]) && us[i][k2].0 == BindUsage::Bind(
            order[b],
        ) && borrow_must_precede_take(us[i], us[i][k1].1, us[i][k2].1) ==> a < b
}

/// A borrow of a binding ends before the binding is taken where the two
/// must not overlap: in every topological order of the binding
/// initialization graph, the borrowing initializer comes first. In
/// particular an initializer that borrows a binding mutably comes before
/// every initializer that takes a shared `'static` reference to it.
pub proof fn lemma_borrow_ends_before_take(
    us: Seq<BindUsers>,
    vs: Seq<usize>,
    i: int,
    k1: int,
    k2: int,
    ia: int,
    ib: int,
)
    requires
        users_wf(us),
        is_topological_order(us, vs),
        0 <= i < us.len(),
        0 <= k1 < us[i].len(),
        0 <= k2 < us[i].len(),
        0 <= ia < vs.len(),
        0 <= ib < vs.len(),
        us[i][k1].0 == BindUsage::Bind(vs[ia]),
        us[i][k2].0 == BindUsage::Bind(vs[ib]),
        borrow_must_precede_take(us[i], us[i][k1].1, us[i][k2].1),
    ensures
        ia < ib,
{
    let n = us.len() as int;
    let s = us[i];
    let d = n + i;
    lemma_take_counts(s, k2);
    lemma_take_counts(s, k1);
    assert(indefinite(s) is Some);
    assert(disown_after(s[k1].1, indefinite(s))) by {
        if s[k2].1 is TakeRef {
            assert(indefinite(s) == Some(false));
        } else {
            assert(num_exclusive(s) == 1 && num_shared(s) == 0);
        }
    }
    assert(vs[ia] < n && vs[ib] < n) by {
        assert(us[i][k1] == s[k1]);
    }
    reveal(has_edge);
    assert(present(us, d));
    assert(vs.contains(d as usize));
    let id = choose|id: int| 0 <= id < vs.len() && vs[id] == d as usize;
    assert(us[d - n] == s);
    assert(has_edge(us, vs[ia] as int, d));
    assert(is_take(s[k2].1) && usage_vertex(n, s[k2].0) == vs[ib]);
    assert(has_edge(us, d, vs[ib] as int));
    if id <= ia {
        assert(!has_edge(us, vs[ia] as int, vs[id] as int));
    }
    if ib <= id {
        assert(!has_edge(us, vs[id] as int, vs[ib] as int));
    }
}

/// In a topological order, no binding's initializer comes before (or is) a
/// binding it consumes.
proof fn lemma_topo_respects_consumes(us: Seq<BindUsers>, vs: Seq<usize>, ia: int, ib: int)
    requires
        users_wf(us),
        is_topological_order(us, vs),
        0 <= ia <= ib < vs.len(),
        vs[ia] < us.len(),
        vs[ib] < us.len(),
    ensures
        !consumes(us, vs[ia] as int, vs[ib] as int),
{
    let n = us.len() as int;
    let a = vs[ia] as int;
    let b = vs[ib] as int;
    if consumes(us, a, b) {
        let k = choose|k: int| 0 <= k < us[b].len() && #[trigger] us[b][k].0 == BindUsage::Bind(a as usize);
        let t = us[b][k].1;
        reveal(has_edge);
        if is_borrow(t) {
            assert(is_borrow(us[b][k].1) && usage_vertex(n, us[b][k].0) == a);
            assert(has_edge(us, b, a));
            assert(!has_edge(us, vs[ib] as int, vs[ia] as int));
        } else {
            lemma_take_implies_indefinite(us[b], k);
            let d = n + b;
            assert(present(us, d));
            assert(vs.contains(d as usize));
            let id = choose|id: int| 0 <= id < vs.len() && vs[id] == d as usize;
            assert(has_edge(us, b, d));
            assert(is_take(us[d - n][k].1) && usage_vertex(n, us[d - n][k].0) == a);
            assert(has_edge(us, d, a));
            if id <= ib {
                assert(!has_edge(us, vs[ib] as int, vs[id] as int));
            } else {
                assert(!has_edge(us, vs[id] as int, vs[ia] as int));
            }
        }
    }
}

/// The bindings among the vertices `vs` (the vertices below `n`), in order.
pub open spec fn bindings_of(vs: Seq<usize>, n: int) -> Seq<usize>
    decreases vs.len(),
{
    if vs.len() == 0 {
        Seq::empty()
    } else if vs.last() < n {
        bindings_of(vs.drop_last(), n).push(vs.last())
    } else {
        bindings_of(vs.drop_last(), n)
    }
}

/// `order` is the order of the bindings in the topological order of the
/// binding initialization graph that prefers smaller vertex indices.
pub open spec fn is_preferred_init_order(us: Seq<BindUsers>, order: Seq<usize>) -> bool {
    exists|vs: Seq<usize>|
        is_topological_order(us, vs) && greedy_order(us, vs) && order == bindings_of(vs, us.len() as int)
}

/// Determine the initialization order of the bindings whose consumers are
/// `users` (`users[i]` lists the consumers of binding `i`).
///
/// Fails with the first binding that violates the borrow rules, or, if there
/// is none, when a dependency cycle prevents any valid order.
pub fn sort_bindings(users: &Vec<Vec<(BindUsage, BindBorrowType)>>) -> (r: Result<Vec<usize>, SorterError>)
    requires
        users_wf(users_view(users)),
    ensures
        r is Ok <==> no_conflicts(users_view(users)) && exists|vs: Seq<usize>|
            is_topological_order(users_view(users), vs),
        r matches Ok(order) ==> is_init_order(users_view(users), order@),
        r matches Ok(order) ==> is_preferred_init_order(users_view(users), order@),
        r matches Ok(order) ==> borrows_end_before_takes(users_view(users), order@),
        r matches Err(SorterError::ConflictingIndefiniteBorrow { bind_i }) ==> bind_i
            < users.len() && is_conflicting(users_view(users)[bind_i as int]) && forall|i: int|
            0 <= i < bind_i ==> !#[trigger] is_conflicting(users_view(users)[i]),
        r matches Err(SorterError::BindCycle) ==> no_conflicts(users_view(users)) && forall|
            vs: Seq<usize>,
        | !is_topological_order(users_view(users), vs),
{
    let ghost us = users_view(users);
    let n = users.len();
    let mut bi: Vec<Option<bool>> = Vec::new();
    let mut i: usize = 0;
    while i < n
        invariant
            us == users_view(users),
            n == users.len(),
            i <= n,
            bi.len() == i,
            forall|k: int| 0 <= k < i ==> #[trigger] bi@[k] == indefinite(us[k]),
            forall|k: int| 0 <= k < i ==> !#[trigger] is_conflicting(us[k]),
        decreases n - i,
    {
        assert(us[i as int] == users@[i as int]@);
        let (b, conflicting) = borrowed_indefinitely(&users[i]);
        if conflicting {
            return Err(SorterError::ConflictingIndefiniteBorrow { bind_i: i });
        }
        bi.push(b);
        i += 1;
    }
    match topological_sort(users, &bi) {
        None => Err(SorterError::BindCycle),
        Some(vs) => {
            let ghost vsq = vs@;
            let mut order: Vec<usize> = Vec::new();
            let ghost mut pos: Seq<int> = Seq::empty();
            let mut k: usize = 0;
            while k < vs.len()
                invariant
                    us == users_view(users),
                    users_wf(us),
                    n == users.len(),
                    vsq == vs@,
                    is_topological_order(us, vsq),
                    k <= vs.len(),
                    pos.len() == order.len(),
                    forall|a: int| 0 <= a < pos.len() ==> 0 <= #[trigger] pos[a] < k,
                    forall|a: int, b: int| 0 <= a < b < pos.len() ==> #[trigger] pos[a] < #[trigger] pos[b],
                    forall|a: int| 0 <= a < pos.len() ==> #[trigger] order@[a] == vsq[pos[a]],
                    forall|a: int| 0 <= a < order.len() ==> #[trigger] order@[a] < n,
                    forall|c: int| 0 <= c < k && vsq[c] < n ==> #[trigger] order@.contains(vsq[c]),
                    order@ == bindings_of(vsq.take(k as int), n as int),
                decreases vs.len() - k,
            {
                let x = vs[k];
                assert(vsq.take(k as int + 1).drop_last() =~= vsq.take(k as int));
                assert(vsq.take(k as int + 1).last() == x);
                if x < n {
                    let ghost old_order = order@;
                    proof {
                        pos = pos.push(k as int);
                    }
                    order.push(x);
                    proof {
                        assert forall|c: int| 0 <= c <= k && vsq[c] < n implies #[trigger] order@.contains(vsq[c]) by {
                            if c == k {
                                assert(order@[order.len() - 1] == x);
                            } else {
                                assert(old_order.contains(vsq[c]));
                                let a = choose|a: int| 0 <= a < old_order.len() && old_order[a] == vsq[c];
                                assert(order@[a] == old_order[a]);
                            }
                        }
                    }
                }
                k += 1;
            }
            proof {
                assert(vsq.take(vsq.len() as int) =~= vsq);
                assert(is_topological_order(us, vsq) && greedy_order(us, vsq) && order@ == bindings_of(vsq, us.len() as int));
                assert forall|a: int, b: int| 0 <= a < b < order.len() implies order@[a] != order@[b] by {
                    assert(pos[a] < pos[b]);
                    assert(vsq.no_duplicates());
                }
                assert forall|i: usize| i < us.len() implies #[trigger] order@.contains(i) by {
                    assert(present(us, i as int));
                    assert(vsq.contains(i));
                    let c = choose|c: int| 0 <= c < vsq.len() && vsq[c] == i;
                    assert(order@.contains(vsq[c]));
                }
                assert forall|a: int, b: int| 0 <= a <= b < order.len() implies !consumes(
                    us,
                    #[trigger] order@[a] as int,
                    #[trigger] order@[b] as int,
                ) by {
                    if a < b {
                        assert(pos[a] < pos[b]);
                    }
                    assert(order@[a] == vsq[pos[a]]);
                    assert(order@[b] == vsq[pos[b]]);
                    lemma_topo_respects_consumes(us, vsq, pos[a], pos[b]);
                }
                assert forall|i: int, k1: int, k2: int, a: int, b: int|
                    #![trigger us[i][k1], us[i][k2], order@[a], order@[b]]
                    0 <= i < us.len() && 0 <= k1 < us[i].len() && 0 <= k2 < us[i].len() && 0 <= a
                        < order@.len() && 0 <= b < order@.len() && us[i][k1].0 == BindUsage::Bind(order@[a])
                        && us[i][k2].0 == BindUsage::Bind(order@[b]) && borrow_must_precede_take(
                        us[i],
                        us[i][k1].1,
                        us[i][k2].1,
                    ) implies a < b by {
                    assert(order@[a] == vsq[pos[a]]);
                    assert(order@[b] == vsq[pos[b]]);
                    lemma_borrow_ends_before_take(us, vsq, i, k1, k2, pos[a], pos[b]);
                    if b < a {
                        assert(pos[b] < pos[a]);
                    }
                }
            }
            Ok(order)
        },
    }
}

} // verus!
