//! Scalar expressions of a plan, as far as join selection and column pruning read them.
use std::collections::HashSet;
use vstd::prelude::*;

verus! {

/// A scalar expression.
#[derive(Debug)]
pub enum ScalarExpr {
    /// A reference to the column with the given index.
    BoundColumnRef(usize),
    /// An integer constant.
    ConstantExpr(i64),
    /// A call of a named function.
    FunctionCall(FunctionCall),
}

/// A call of the function `func_name` on `arguments`.
#[derive(Debug)]
pub struct FunctionCall {
    pub func_name: String,
    pub arguments: Vec<ScalarExpr>,
}

/// The mathematical value of a [`ScalarExpr`].
pub enum ScalarExprView {
    BoundColumnRef(usize),
    ConstantExpr(i64),
    FunctionCall(Seq<char>, Seq<ScalarExprView>),
}

impl ScalarExpr {
    pub open spec fn view_of(self) -> ScalarExprView
        decreases self,
    {
        match self {
            ScalarExpr::BoundColumnRef(i) => ScalarExprView::BoundColumnRef(i),
            ScalarExpr::ConstantExpr(c) => ScalarExprView::ConstantExpr(c),
            ScalarExpr::FunctionCall(f) => ScalarExprView::FunctionCall(
                f.func_name@,
                Seq::new(f.arguments@.len(), |i: int| {
                    if 0 <= i < f.arguments@.len() {
                        f.arguments@[i].view_of()
                    } else {
                        ScalarExprView::ConstantExpr(0)
                    }
                }),
            ),
        }
    }
}


impl View for ScalarExpr {
    type V = ScalarExprView;

    open spec fn view(&self) -> ScalarExprView {
        self.view_of()
    }
}

impl ScalarExpr {
    /// A copy of the expression.
    pub fn clone_expr(&self) -> (r: ScalarExpr)
        ensures
            r@ == self@,
        decreases self,
    {
        match self {
            ScalarExpr::BoundColumnRef(i) => ScalarExpr::BoundColumnRef(*i),
            ScalarExpr::ConstantExpr(c) => ScalarExpr::ConstantExpr(*c),
            ScalarExpr::FunctionCall(f) => {
                let mut arguments: Vec<ScalarExpr> = Vec::new();
                let mut k: usize = 0;
                #[verifier::loop_isolation(false)]
                while k < f.arguments.len()
                    invariant
                        k <= f.arguments.len(),
                        arguments@.len() == k,
                        forall|j: int| 0 <= j < k ==> arguments@[j]@ == f.arguments@[j]@,
                    decreases f.arguments.len() - k,
                {
                    proof {
                        assert(decreases_to!(*self => *f));
                        assert(decreases_to!(*f => f.arguments));
                        assert(decreases_to!(f.arguments => f.arguments[k as int]));
                    }
                    let a = f.arguments[k].clone_expr();
                    arguments.push(a);
                    k = k + 1;
                }
                let name = f.func_name.clone();
                let r = ScalarExpr::FunctionCall(FunctionCall { func_name: name, arguments });
                proof {
                    match (r@, self@) {
                        (
                            ScalarExprView::FunctionCall(n1, s1),
                            ScalarExprView::FunctionCall(n2, s2),
                        ) => {
                            assert(s1 =~= s2);
                        },
                        _ => {},
                    }
                }
                r
            },
        }
    }
}


/// Whether the expression reads the column with index `c`.
pub open spec fn uses_column(e: ScalarExprView, c: usize) -> bool
    decreases e,
{
    match e {
        ScalarExprView::BoundColumnRef(i) => i == c,
        ScalarExprView::ConstantExpr(_) => false,
        ScalarExprView::FunctionCall(_, args) => exists|i: int|
            0 <= i < args.len() && uses_column(#[trigger] args[i], c),
    }
}

/// The columns the expression reads.
pub open spec fn used_columns(e: ScalarExprView) -> Set<usize> {
    Set::new(|c: usize| uses_column(e, c))
}

impl ScalarExpr {
    /// Adds the columns the expression reads to `acc`.
    pub fn collect_used_columns(&self, acc: &mut HashSet<usize>)
        ensures
            final(acc)@ == old(acc)@.union(used_columns(self@)),
        decreases self,
    {
        broadcast use vstd::std_specs::hash::group_hash_axioms;
        match self {
            ScalarExpr::BoundColumnRef(i) => {
                acc.insert(*i);
                assert(final(acc)@ =~= old(acc)@.union(used_columns(self@)));
            },
            ScalarExpr::ConstantExpr(_) => {
                assert(acc@ =~= old(acc)@.union(used_columns(self@)));
            },
            ScalarExpr::FunctionCall(f) => {
                let mut k: usize = 0;
                #[verifier::loop_isolation(false)]
                while k < f.arguments.len()
                    invariant
                        k <= f.arguments.len(),
                        acc@ == old(acc)@.union(Set::new(|c: usize| exists|i: int|
                            0 <= i < k && uses_column(#[trigger] f.arguments@[i]@, c))),
                    decreases f.arguments.len() - k,
                {
                    proof {
                        assert(decreases_to!(*self => *f));
                        assert(decreases_to!(*f => f.arguments));
                        assert(decreases_to!(f.arguments => f.arguments[k as int]));
                    }
                    let ghost before = acc@;
                    f.arguments[k].collect_used_columns(acc);
                    assert(acc@ =~= old(acc)@.union(Set::new(|c: usize| exists|i: int|
                        0 <= i < k + 1 && uses_column(#[trigger] f.arguments@[i]@, c)))) by {
                        assert forall|c: usize| (exists|i: int|
                            0 <= i < k + 1 && uses_column(#[trigger] f.arguments@[i]@, c)) <==> ((exists|i: int|
                            0 <= i < k && uses_column(#[trigger] f.arguments@[i]@, c)) || uses_column(f.arguments@[k as int]@, c)) by {
                            if uses_column(f.arguments@[k as int]@, c) {
                                assert(0 <= k < k + 1);
                            }
                        }
                    }
                    k = k + 1;
                }
                proof { match self@ {
                    ScalarExprView::FunctionCall(_, s) => {
                        assert forall|c: usize| uses_column(self@, c) <==> (exists|i: int|
                            0 <= i < f.arguments@.len() && uses_column(#[trigger] f.arguments@[i]@, c)) by {
                            if uses_column(self@, c) {
                                let i = choose|i: int| 0 <= i < s.len() && uses_column(#[trigger] s[i], c);
                                assert(s[i] == f.arguments@[i]@);
                            }
                            if exists|i: int| 0 <= i < f.arguments@.len() && uses_column(#[trigger] f.arguments@[i]@, c) {
                                let i = choose|i: int| 0 <= i < f.arguments@.len() && uses_column(#[trigger] f.arguments@[i]@, c);
                                assert(s[i] == f.arguments@[i]@);
                            }
                        }
                    },
                    _ => {},
                } }
                assert(acc@ =~= old(acc)@.union(used_columns(self@)));
            },
        }
    }
}

} // verus!
