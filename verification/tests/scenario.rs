use incremental::{Branch, BranchToken, Graph, Leaf, RootToken, Token, VerifyError};

#[derive(Debug, Copy, Clone, Eq, PartialEq)]
enum Pick {
    A,
    B,
    C,
    SumAb,
}

/// The worked scenario, with every branch created dirty so that the first
/// read recomputes, and with an explicit count of how often each branch's
/// commit actually swapped the cache.
struct Worked {
    graph: Graph,
    a: Leaf<u32>,
    b: Leaf<u32>,
    c: Leaf<u32>,
    sum_ab: Branch<u32>,
    sum_ab_count: u32,
    mul: Branch<u32>,
    mul_count: u32,
    lhs: Leaf<Pick>,
    rhs: Leaf<Pick>,
    dyn_sum: Branch<u32>,
    dyn_sum_count: u32,
}

impl Worked {
    fn new() -> Worked {
        let graph = Graph::new();
        Worked {
            a: graph.leaf(1),
            b: graph.leaf(2),
            c: graph.leaf(3),
            sum_ab: Branch::new_dirty(0),
            sum_ab_count: 0,
            mul: Branch::new_dirty(0),
            mul_count: 0,
            lhs: graph.leaf(Pick::C),
            rhs: graph.leaf(Pick::SumAb),
            dyn_sum: Branch::new_dirty(0),
            dyn_sum_count: 0,
            graph,
        }
    }

    fn sum_ab(&mut self, token: &mut impl Token) -> Result<u32, VerifyError> {
        if let Some(mut t) = self.sum_ab.verify(&self.graph)? {
            let a = *self.a.read(&mut t);
            let b = *self.b.read(&mut t);
            if self.sum_ab.commit(t, a + b) {
                self.sum_ab_count += 1;
            }
        }
        Ok(*self.sum_ab.read(&self.graph, token)?)
    }

    fn mul(&mut self, token: &mut impl Token) -> Result<u32, VerifyError> {
        if let Some(mut t) = self.mul.verify(&self.graph)? {
            let c = *self.c.read(&mut t);
            let s = self.sum_ab(&mut t)?;
            if self.mul.commit(t, c * s) {
                self.mul_count += 1;
            }
        }
        Ok(*self.mul.read(&self.graph, token)?)
    }

    fn pick(&mut self, which: Pick, t: &mut BranchToken) -> Result<u32, VerifyError> {
        Ok(match which {
            Pick::A => *self.a.read(t),
            Pick::B => *self.b.read(t),
            Pick::C => *self.c.read(t),
            Pick::SumAb => self.sum_ab(t)?,
        })
    }

    fn dyn_sum(&mut self, token: &mut impl Token) -> Result<u32, VerifyError> {
        if let Some(mut t) = self.dyn_sum.verify(&self.graph)? {
            let lhs_choice = *self.lhs.read(&mut t);
            let lhs = self.pick(lhs_choice, &mut t)?;
            let rhs_choice = *self.rhs.read(&mut t);
            let rhs = self.pick(rhs_choice, &mut t)?;
            if self.dyn_sum.commit(t, lhs + rhs) {
                self.dyn_sum_count += 1;
            }
        }
        Ok(*self.dyn_sum.read(&self.graph, token)?)
    }
}

#[test]
fn worked_scenario_counts_each_recompute_once() {
    let mut w = Worked::new();

    // First read of mul: 3 * (1 + 2) = 9, each branch recomputed exactly
    // once.
    assert_eq!(9, w.mul(&mut RootToken {}).unwrap());
    assert_eq!(1, w.sum_ab_count);
    assert_eq!(1, w.mul_count);

    // Mutate b to 6 and reread: sum_ab = 7, mul = 21, each recomputed
    // exactly once more.
    w.graph.replace(&mut w.b, 6);
    assert_eq!(7, w.sum_ab(&mut RootToken {}).unwrap());
    assert_eq!(21, w.mul(&mut RootToken {}).unwrap());
    assert_eq!(2, w.sum_ab_count);
    assert_eq!(2, w.mul_count);

    // The selector-driven branch: lhs picks c, rhs picks sum_ab. Mutating a
    // forces sum_ab and dyn_sum to recompute on the next read of dyn_sum —
    // but not mul, which is not read in that pass.
    w.graph.replace(&mut w.a, 20);
    assert_eq!(3 + (20 + 6), w.dyn_sum(&mut RootToken {}).unwrap());
    assert_eq!(3, w.sum_ab_count);
    assert_eq!(1, w.dyn_sum_count);
    assert_eq!(2, w.mul_count);
}

#[test]
fn second_verify_without_mutation_is_free() {
    let mut w = Worked::new();

    let first = w.mul(&mut RootToken {}).unwrap();
    assert_eq!(1, w.sum_ab_count);
    assert_eq!(1, w.mul_count);

    // No leaf moved: the second call answers the same value and recomputes
    // nothing.
    let second = w.mul(&mut RootToken {}).unwrap();
    assert_eq!(first, second);
    assert_eq!(1, w.sum_ab_count);
    assert_eq!(1, w.mul_count);
}

#[test]
fn unrelated_leaf_mutation_leaves_cache_untouched() {
    let mut w = Worked::new();

    assert_eq!(3, w.sum_ab(&mut RootToken {}).unwrap());
    assert_eq!(1, w.sum_ab_count);

    // c is not in sum_ab's dependency set as discovered during its last
    // recomputation: the staleness check still runs, but the cached value
    // must not change.
    w.graph.replace(&mut w.c, 100);
    assert_eq!(3, w.sum_ab(&mut RootToken {}).unwrap());
    assert_eq!(1, w.sum_ab_count);
}

#[test]
fn selector_decides_which_mutations_recompute() {
    let mut w = Worked::new();
    w.graph.replace(&mut w.lhs, Pick::A);
    w.graph.replace(&mut w.rhs, Pick::B);

    // dyn_sum reads lhs -> a and rhs -> b: value 1 + 2.
    assert_eq!(3, w.dyn_sum(&mut RootToken {}).unwrap());
    assert_eq!(1, w.dyn_sum_count);

    // c is currently unselected: mutating it must not trigger a
    // recomputation.
    w.graph.replace(&mut w.c, 30);
    assert_eq!(3, w.dyn_sum(&mut RootToken {}).unwrap());
    assert_eq!(1, w.dyn_sum_count);

    // a is currently selected: mutating it must.
    w.graph.replace(&mut w.a, 10);
    assert_eq!(12, w.dyn_sum(&mut RootToken {}).unwrap());
    assert_eq!(2, w.dyn_sum_count);

    // Mutating the selector itself must as well — and from here on, c is
    // selected and a is not.
    w.graph.replace(&mut w.lhs, Pick::C);
    assert_eq!(32, w.dyn_sum(&mut RootToken {}).unwrap());
    assert_eq!(3, w.dyn_sum_count);

    w.graph.replace(&mut w.a, 11);
    assert_eq!(32, w.dyn_sum(&mut RootToken {}).unwrap());
    assert_eq!(3, w.dyn_sum_count);
}

/// Two sibling branches over one shared branch: the diamond.
struct Diamond {
    graph: Graph,
    base: Leaf<u32>,
    shared: Branch<u32>,
    shared_count: u32,
    left: Branch<u32>,
    right: Branch<u32>,
}

impl Diamond {
    fn shared(&mut self, token: &mut impl Token) -> Result<u32, VerifyError> {
        if let Some(mut t) = self.shared.verify(&self.graph)? {
            let base = *self.base.read(&mut t);
            if self.shared.commit(t, base + 1) {
                self.shared_count += 1;
            }
        }
        Ok(*self.shared.read(&self.graph, token)?)
    }

    fn left(&mut self, token: &mut impl Token) -> Result<u32, VerifyError> {
        if let Some(mut t) = self.left.verify(&self.graph)? {
            let s = self.shared(&mut t)?;
            self.left.commit(t, s * 2);
        }
        Ok(*self.left.read(&self.graph, token)?)
    }

    fn right(&mut self, token: &mut impl Token) -> Result<u32, VerifyError> {
        if let Some(mut t) = self.right.verify(&self.graph)? {
            let s = self.shared(&mut t)?;
            self.right.commit(t, s * 3);
        }
        Ok(*self.right.read(&self.graph, token)?)
    }
}

#[test]
fn diamond_shared_branch_recomputes_once() {
    let mut d = {
        let graph = Graph::new();
        Diamond {
            base: graph.leaf(10),
            shared: Branch::new_dirty(0),
            shared_count: 0,
            left: Branch::new_dirty(0),
            right: Branch::new_dirty(0),
            graph,
        }
    };

    // Both siblings read the shared branch within one pass: it recomputes
    // exactly once, and both observe the identical value.
    let left = d.left(&mut RootToken {}).unwrap();
    let right = d.right(&mut RootToken {}).unwrap();
    assert_eq!(22, left);
    assert_eq!(33, right);
    assert_eq!(1, d.shared_count);

    // After one effective write, the next pass recomputes it exactly once
    // again, whichever sibling reaches it first.
    d.graph.replace(&mut d.base, 20);
    let right = d.right(&mut RootToken {}).unwrap();
    let left = d.left(&mut RootToken {}).unwrap();
    assert_eq!(63, right);
    assert_eq!(42, left);
    assert_eq!(2, d.shared_count);
}

#[test]
fn branch_reading_nothing_keeps_its_seed() {
    let mut graph = Graph::new();
    let mut unrelated = graph.leaf(0u32);
    let mut constant: Branch<u32> = Branch::new_dirty(5);

    graph.replace(&mut unrelated, 1);

    // A recomputation that reads no dependency aggregates nothing beyond
    // its seed: the commit never swaps the cache, whatever candidate it is
    // offered — the value depends on nothing, so nothing can outdate it.
    if let Some(t) = constant.verify(&graph).unwrap() {
        assert!(!constant.commit(t, 99));
    } else {
        panic!("a dirty branch must open a recomputation");
    }
    assert_eq!(5, *constant.read(&graph, &mut RootToken {}).unwrap());
}
