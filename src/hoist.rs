//! Hoisting of the `static mut` declarations that open a function body.
//!
//! The body is scanned from its first statement while statements are
//! `static mut` items; those are hoisted. Scanning stops at the first statement
//! that is not a `static mut` (a plain `static` included): it and everything
//! after it remain, in their order, later `static mut` items included.

use crate::diagnostic::{Diagnostic, DiagnosticKind, Location};
use crate::syntax::{StaticDecl, Stmt};
use vstd::prelude::*;

verus! {

/// A `static mut` item.
pub open spec fn is_mut_static<T>(st: Stmt<T>) -> bool {
    st matches Stmt::Static(d) && d.mutable
}

/// The name declared by a `static` item.
pub open spec fn static_name<T>(st: Stmt<T>) -> Seq<char> {
    match st {
        Stmt::Static(d) => d.ident@,
        Stmt::Other(_) => Seq::empty(),
    }
}

/// The number of `static mut` items that open the body.
pub open spec fn leading_statics<T>(s: Seq<Stmt<T>>) -> nat
    decreases s.len(),
{
    if s.len() > 0 && is_mut_static(s[0]) {
        1 + leading_statics(s.drop_first())
    } else {
        0
    }
}

/// The hoisted declarations: the `static mut` items of the leading run.
pub open spec fn hoisted<T>(s: Seq<Stmt<T>>) -> Seq<StaticDecl<T>> {
    Seq::new(leading_statics(s), |i: int| s[i]->Static_0)
}

/// The statements that remain: the body from its first statement that is not
/// a `static mut` on.
pub open spec fn passthrough<T>(s: Seq<Stmt<T>>) -> Seq<Stmt<T>> {
    s.skip(leading_statics(s) as int)
}

/// Statement `i` is a `static mut` whose name an earlier `static mut` declares.
pub open spec fn redeclared<T>(s: Seq<Stmt<T>>, i: int) -> bool {
    &&& 0 <= i < s.len()
    &&& is_mut_static(s[i])
    &&& exists|j: int|
        0 <= j < i && #[trigger] is_mut_static(s[j]) && static_name(s[j]) == static_name(s[i])
}

/// Statement `i` is the first redeclaration within the leading run.
pub open spec fn first_redeclared<T>(s: Seq<Stmt<T>>, i: int) -> bool {
    &&& 0 <= i < leading_statics(s)
    &&& redeclared(s, i)
    &&& forall|m: int| 0 <= m < i ==> !#[trigger] redeclared(s, m)
}

/// The outcome of hoisting: the first redeclaration within the leading run is
/// an error naming it; otherwise the hoisted declarations and the remaining
/// statements.
pub open spec fn hoist_spec<T>(s: Seq<Stmt<T>>) -> Result<(Seq<StaticDecl<T>>, Seq<Stmt<T>>), Diagnostic> {
    if exists|i: int| first_redeclared(s, i) {
        let i = choose|i: int| first_redeclared(s, i);
        Err(
            Diagnostic {
                kind: DiagnosticKind::DuplicateStatic { name: s[i]->Static_0.ident },
                at: Location::Statement(i as usize),
            },
        )
    } else {
        Ok((hoisted(s), passthrough(s)))
    }
}

impl<T> Stmt<T> {
    /// Whether the statement is a `static mut` item.
    pub fn is_mut_static(&self) -> (r: bool)
        ensures
            r == is_mut_static(*self),
    {
        match self {
            Stmt::Static(d) => d.mutable,
            Stmt::Other(_) => false,
        }
    }
}

/// The view of a hoisting result: its vectors as sequences.
pub open spec fn hoist_view<T>(r: Result<(Vec<StaticDecl<T>>, Vec<Stmt<T>>), Diagnostic>) -> Result<(Seq<StaticDecl<T>>, Seq<Stmt<T>>), Diagnostic> {
    match r {
        Ok((h, p)) => Ok((h@, p@)),
        Err(d) => Err(d),
    }
}

/// A run of `static mut` items of length `i`, ended by the end of the body
/// or by another statement, is the leading run.
proof fn lemma_leading_statics<T>(s: Seq<Stmt<T>>, i: int)
    requires
        0 <= i <= s.len(),
        forall|j: int| 0 <= j < i ==> #[trigger] is_mut_static(s[j]),
        i == s.len() || !is_mut_static(s[i]),
    ensures
        leading_statics(s) == i,
    decreases i,
{
    if i > 0 {
        let t = s.drop_first();
        assert(is_mut_static(s[0]));
        assert forall|j: int| 0 <= j < i - 1 implies #[trigger] is_mut_static(t[j]) by {
            assert(t[j] == s[j + 1]);
            assert(is_mut_static(s[j + 1]));
        }
        if i < s.len() {
            assert(t[i - 1] == s[i]);
        }
        lemma_leading_statics(t, i - 1);
    }
}

/// Every statement of the leading run is a `static mut`, and the run is
/// followed by the end of the body or by another statement.
pub proof fn lemma_leading_statics_shape<T>(s: Seq<Stmt<T>>)
    ensures
        leading_statics(s) <= s.len(),
        forall|j: int| 0 <= j < leading_statics(s) ==> #[trigger] is_mut_static(s[j]),
        leading_statics(s) == s.len() || !is_mut_static(s[leading_statics(s) as int]),
    decreases s.len(),
{
    if s.len() > 0 && is_mut_static(s[0]) {
        let t = s.drop_first();
        lemma_leading_statics_shape(t);
        assert forall|j: int| 0 <= j < leading_statics(s) implies #[trigger] is_mut_static(s[j]) by {
            if j > 0 {
                assert(s[j] == t[j - 1]);
            }
        }
        if leading_statics(s) < s.len() {
            assert(s[leading_statics(s) as int] == t[leading_statics(t) as int]);
        }
    }
}

/// Two first redeclarations are the same statement.
proof fn lemma_first_redeclared_unique<T>(s: Seq<Stmt<T>>, i: int, k: int)
    requires
        first_redeclared(s, i),
        first_redeclared(s, k),
    ensures
        i == k,
{
    if i < k {
        assert(!redeclared(s, i));
    } else if k < i {
        assert(!redeclared(s, k));
    }
}

/// The length of the run of `static mut` items that opens the body.
fn leading_run<T>(s: &Vec<Stmt<T>>) -> (k: usize)
    ensures
        k == leading_statics(s@),
{
    let mut i: usize = 0;
    while i < s.len() && s[i].is_mut_static()
        invariant
            i <= s@.len(),
            forall|j: int| 0 <= j < i ==> #[trigger] is_mut_static(s@[j]),
        decreases s@.len() - i,
    {
        i = i + 1;
    }
    proof {
        lemma_leading_statics(s@, i as int);
    }
    i
}

/// Finds the first redeclaration within the leading run of length `k`.
fn find_redeclaration<T>(s: &Vec<Stmt<T>>, k: usize) -> (r: Option<usize>)
    requires
        k == leading_statics(s@),
    ensures
        r matches Some(i) ==> first_redeclared(s@, i as int),
        r is None ==> forall|i: int| 0 <= i < k ==> !#[trigger] redeclared(s@, i),
{
    proof {
        lemma_leading_statics_shape(s@);
    }
    let mut i: usize = 0;
    while i < k
        invariant
            i <= k <= s@.len(),
            k == leading_statics(s@),
            forall|m: int| 0 <= m < i ==> !#[trigger] redeclared(s@, m),
        decreases k - i,
    {
        if let Stmt::Static(d) = &s[i] {
            if d.mutable {
                let mut j: usize = 0;
                while j < i
                    invariant
                        j <= i < k <= s@.len(),
                        k == leading_statics(s@),
                        forall|m: int| 0 <= m < i ==> !#[trigger] redeclared(s@, m),
                        s@[i as int] == Stmt::Static(*d),
                        d.mutable,
                        forall|q: int|
                            0 <= q < j ==> !(#[trigger] is_mut_static(s@[q]) && static_name(s@[q])
                                == static_name(s@[i as int])),
                    decreases i - j,
                {
                    let same = match &s[j] {
                        Stmt::Static(e) => e.mutable && e.ident == d.ident,
                        Stmt::Other(_) => false,
                    };
                    if same {
                        assert(is_mut_static(s@[j as int]));
                        assert(redeclared(s@, i as int));
                        return Some(i);
                    }
                    j = j + 1;
                }
            }
        }
        assert(!redeclared(s@, i as int));
        i = i + 1;
    }
    None
}

/// Takes the elements out of a vector in reverse order, so that popping the
/// result hands them back in their original order.
fn into_stack<T>(v: Vec<T>) -> (r: Vec<T>)
    ensures
        r@.len() == v@.len(),
        forall|q: int| 0 <= q < r@.len() ==> #[trigger] r@[q] == v@[v@.len() - 1 - q],
{
    let ghost s = v@;
    let mut v = v;
    let mut r: Vec<T> = Vec::new();
    while v.len() > 0
        invariant
            v@ == s.take(v@.len() as int),
            v@.len() <= s.len(),
            r@.len() == s.len() - v@.len(),
            forall|q: int| 0 <= q < r@.len() ==> #[trigger] r@[q] == s[s.len() - 1 - q],
        decreases v@.len(),
    {
        let x = v.pop().unwrap();
        r.push(x);
        assert(v@ =~= s.take(v@.len() as int));
    }
    r
}

/// Splits a body into its hoisted `static mut` declarations and the
/// statements that remain, or reports the first name that the leading run
/// declares twice as `static mut`.
pub fn extract_static_muts<T>(stmts: Vec<Stmt<T>>) -> (r: Result<(Vec<StaticDecl<T>>, Vec<Stmt<T>>), Diagnostic>)
    ensures
        hoist_view(r) == hoist_spec(stmts@),
{
    let ghost s = stmts@;
    let k = leading_run(&stmts);
    proof {
        lemma_leading_statics_shape(s);
    }
    match find_redeclaration(&stmts, k) {
        Some(i) => {
            let name = match &stmts[i] {
                Stmt::Static(d) => d.ident.clone(),
                Stmt::Other(_) => String::new(),
            };
            proof {
                let c = choose|c: int| first_redeclared(s, c);
                lemma_first_redeclared_unique(s, c, i as int);
            }
            return Err(
                Diagnostic {
                    kind: DiagnosticKind::DuplicateStatic { name },
                    at: Location::Statement(i),
                },
            );
        },
        None => {},
    }
    let n = stmts.len();
    let mut stack = into_stack(stmts);
    let mut statics: Vec<StaticDecl<T>> = Vec::new();
    let mut rest: Vec<Stmt<T>> = Vec::new();
    let mut i: usize = 0;
    while i < k
        invariant
            i <= k <= n == s.len(),
            k == leading_statics(s),
            forall|j: int| 0 <= j < k ==> #[trigger] is_mut_static(s[j]),
            stack@.len() == n - i,
            forall|q: int| 0 <= q < stack@.len() ==> #[trigger] stack@[q] == s[n - 1 - q],
            statics@ =~= hoisted(s).take(i as int),
        decreases k - i,
    {
        let x = stack.pop().unwrap();
        assert(x == s[i as int]);
        assert(is_mut_static(s[i as int]));
        match x {
            Stmt::Static(d) => {
                statics.push(d);
            },
            Stmt::Other(_) => {},
        }
        i = i + 1;
    }
    while i < n
        invariant
            k <= i <= n == s.len(),
            k == leading_statics(s),
            stack@.len() == n - i,
            forall|q: int| 0 <= q < stack@.len() ==> #[trigger] stack@[q] == s[n - 1 - q],
            rest@ == s.subrange(k as int, i as int),
        decreases n - i,
    {
        let x = stack.pop().unwrap();
        assert(x == s[i as int]);
        rest.push(x);
        assert(rest@ =~= s.subrange(k as int, i + 1));
        i = i + 1;
    }
    assert(statics@ =~= hoisted(s));
    assert(rest@ =~= passthrough(s));
    Ok((statics, rest))
}

} // verus!
