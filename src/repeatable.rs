use vstd::arithmetic::div_mod::lemma_fundamental_div_mod_converse;
use vstd::arithmetic::mul::lemma_mul_is_distributive_add_other_way;
use vstd::prelude::*;

use crate::action::AnimationAction;
use crate::mode::AnimationRepeatMode;
use crate::step::AnimationStep;
use crate::target::AnimationTarget;

verus! {

/// A step as plain values: its (target, actions) entries and duration.
pub type StepView = (Seq<(AnimationTarget, Seq<AnimationAction>)>, u64);

/// The view of an optional step.
pub open spec fn step_option_view(o: Option<AnimationStep>) -> Option<StepView> {
    match o {
        Some(s) => Some(s@),
        None => None,
    }
}

/// Plays the steps a fixed number of times.
#[derive(Debug, Clone, PartialEq, Eq)]
pub struct FinitelyRepeatableAnimation {
    pub steps: Vec<AnimationStep>,
    pub current_index: usize,
    /// Index of the last pass.
    pub max_iteration: u16,
    pub current_iteration: u16,
    /// Set once an advance past the last step of the last pass was asked.
    pub exhausted: bool,
}

impl FinitelyRepeatableAnimation {
    pub open spec fn wf(&self) -> bool {
        &&& self.current_iteration <= self.max_iteration
        &&& (self.steps@.len() == 0 ==> self.current_index == 0)
        &&& (self.steps@.len() > 0 ==> self.current_index < self.steps@.len())
    }

    pub open spec fn spec_current(&self) -> Option<StepView> {
        if self.exhausted || self.steps@.len() == 0 {
            None
        } else {
            Some(self.steps@[self.current_index as int]@)
        }
    }

    pub open spec fn spec_advanced(self) -> Self {
        if self.exhausted || self.steps@.len() == 0 {
            self
        } else if self.current_index + 1 < self.steps@.len() {
            FinitelyRepeatableAnimation { current_index: (self.current_index + 1) as usize, ..self }
        } else if self.current_iteration < self.max_iteration {
            FinitelyRepeatableAnimation {
                current_index: 0,
                current_iteration: (self.current_iteration + 1) as u16,
                ..self
            }
        } else {
            FinitelyRepeatableAnimation { exhausted: true, ..self }
        }
    }

    /// Plays `steps` `max_iteration` times (once when that is zero).
    pub fn new(steps: Vec<AnimationStep>, max_iteration: u16) -> (r: Self)
        ensures
            r.wf(),
            r.steps == steps,
            r.current_index == 0,
            r.current_iteration == 0,
            r.max_iteration == if max_iteration == 0 { 0 } else { max_iteration - 1 },
            !r.exhausted,
    {
        FinitelyRepeatableAnimation {
            steps,
            current_index: 0,
            max_iteration: if max_iteration == 0 { 0 } else { max_iteration - 1 },
            current_iteration: 0,
            exhausted: false,
        }
    }

    /// The current step, or `None` once the passes are used up or when
    /// there is no step.
    pub fn current_step(&self) -> (r: Option<AnimationStep>)
        requires
            self.wf(),
        ensures
            step_option_view(r) == self.spec_current(),
    {
        if self.exhausted || self.steps.len() == 0 {
            None
        } else {
            Some(self.steps[self.current_index].duplicate())
        }
    }

    /// Moves on to the next step, wrapping to the first one for the next
    /// pass, and returns it; `None` (for good) past the last step of the
    /// last pass.
    pub fn next_step(&mut self) -> (r: Option<AnimationStep>)
        requires
            old(self).wf(),
        ensures
            *final(self) == old(self).spec_advanced(),
            final(self).wf(),
            step_option_view(r) == final(self).spec_current(),
    {
        if self.exhausted || self.steps.len() == 0 {
            return None;
        }
        if self.current_index + 1 < self.steps.len() {
            self.current_index = self.current_index + 1;
        } else if self.current_iteration < self.max_iteration {
            self.current_index = 0;
            self.current_iteration = self.current_iteration + 1;
        } else {
            self.exhausted = true;
            return None;
        }
        Some(self.steps[self.current_index].duplicate())
    }
}

/// Plays the steps over and over.
#[derive(Debug, Clone, PartialEq, Eq)]
pub struct InfinitelyRepeatableAnimation {
    pub steps: Vec<AnimationStep>,
    pub current_index: usize,
}

impl InfinitelyRepeatableAnimation {
    /// The state `k` advances after `self`.
    pub open spec fn advanced_times(self, k: nat) -> Self
        decreases k,
    {
        if k == 0 {
            self
        } else {
            self.advanced_times((k - 1) as nat).spec_advanced()
        }
    }

    pub open spec fn wf(&self) -> bool {
        &&& (self.steps@.len() == 0 ==> self.current_index == 0)
        &&& (self.steps@.len() > 0 ==> self.current_index < self.steps@.len())
    }

    pub open spec fn spec_advanced(self) -> Self {
        if self.steps@.len() == 0 {
            self
        } else {
            InfinitelyRepeatableAnimation {
                current_index: if self.current_index + 1 < self.steps@.len() {
                    (self.current_index + 1) as usize
                } else {
                    0
                },
                ..self
            }
        }
    }

    pub fn new(steps: Vec<AnimationStep>) -> (r: Self)
        ensures
            r.wf(),
            r.steps == steps,
            r.current_index == 0,
    {
        InfinitelyRepeatableAnimation { steps, current_index: 0 }
    }

    /// The current step.
    pub fn current_step(&self) -> (r: AnimationStep)
        requires
            self.wf(),
            self.steps@.len() > 0,
        ensures
            r@ == self.steps@[self.current_index as int]@,
    {
        self.steps[self.current_index].duplicate()
    }

    /// Moves on to the next step, wrapping to the first one after the
    /// last, and returns it.
    pub fn next_step(&mut self) -> (r: AnimationStep)
        requires
            old(self).wf(),
            old(self).steps@.len() > 0,
        ensures
            *final(self) == old(self).spec_advanced(),
            final(self).wf(),
            r@ == final(self).steps@[final(self).current_index as int]@,
    {
        let n = self.steps.len();
        if self.current_index < n - 1 {
            self.current_index = self.current_index + 1;
        } else {
            self.current_index = 0;
        }
        self.steps[self.current_index].duplicate()
    }
}

/// Steps under a repeat policy.
#[derive(Debug, Clone, PartialEq, Eq)]
pub enum RepeatableAnimation {
    Finitely(FinitelyRepeatableAnimation),
    Infinitely(InfinitelyRepeatableAnimation),
}

impl RepeatableAnimation {
    pub open spec fn wf(&self) -> bool {
        match self {
            RepeatableAnimation::Finitely(a) => a.wf(),
            RepeatableAnimation::Infinitely(a) => a.wf(),
        }
    }

    pub open spec fn spec_current(&self) -> Option<StepView> {
        match self {
            RepeatableAnimation::Finitely(a) => a.spec_current(),
            RepeatableAnimation::Infinitely(a) => if a.steps@.len() == 0 {
                None
            } else {
                Some(a.steps@[a.current_index as int]@)
            },
        }
    }

    pub open spec fn spec_advanced(self) -> Self {
        match self {
            RepeatableAnimation::Finitely(a) => RepeatableAnimation::Finitely(a.spec_advanced()),
            RepeatableAnimation::Infinitely(a) => RepeatableAnimation::Infinitely(a.spec_advanced()),
        }
    }

    pub open spec fn spec_steps(&self) -> Seq<AnimationStep> {
        match self {
            RepeatableAnimation::Finitely(a) => a.steps@,
            RepeatableAnimation::Infinitely(a) => a.steps@,
        }
    }

    /// The state `k` advances after `self`.
    pub open spec fn advanced_times(self, k: nat) -> Self
        decreases k,
    {
        if k == 0 {
            self
        } else {
            self.advanced_times((k - 1) as nat).spec_advanced()
        }
    }

    pub fn new(steps: Vec<AnimationStep>, repeat_mode: AnimationRepeatMode) -> (r: Self)
        ensures
            r.wf(),
            r == RepeatableAnimation::spec_new(steps, repeat_mode),
    {
        match repeat_mode {
            AnimationRepeatMode::Finite(max_iteration) => RepeatableAnimation::Finitely(
                FinitelyRepeatableAnimation::new(steps, max_iteration),
            ),
            AnimationRepeatMode::Infinite => RepeatableAnimation::Infinitely(
                InfinitelyRepeatableAnimation::new(steps),
            ),
        }
    }

    pub open spec fn spec_new(steps: Vec<AnimationStep>, repeat_mode: AnimationRepeatMode) -> Self {
        match repeat_mode {
            AnimationRepeatMode::Finite(m) => RepeatableAnimation::Finitely(
                FinitelyRepeatableAnimation {
                    steps,
                    current_index: 0,
                    max_iteration: if m == 0 { 0 } else { (m - 1) as u16 },
                    current_iteration: 0,
                    exhausted: false,
                },
            ),
            AnimationRepeatMode::Infinite => RepeatableAnimation::Infinitely(
                InfinitelyRepeatableAnimation { steps, current_index: 0 },
            ),
        }
    }

    /// The current step; `None` when there is none, or once a finite
    /// repetition is used up.
    pub fn current_step(&self) -> (r: Option<AnimationStep>)
        requires
            self.wf(),
        ensures
            step_option_view(r) == self.spec_current(),
    {
        match self {
            RepeatableAnimation::Finitely(a) => a.current_step(),
            RepeatableAnimation::Infinitely(a) => {
                if a.steps.len() == 0 {
                    None
                } else {
                    Some(a.current_step())
                }
            },
        }
    }

    /// Advances and returns the new current step; `None` when there is
    /// no step, or once a finite repetition is used up.
    pub fn next_step(&mut self) -> (r: Option<AnimationStep>)
        requires
            old(self).wf(),
        ensures
            *final(self) == old(self).spec_advanced(),
            final(self).wf(),
            step_option_view(r) == final(self).spec_current(),
    {
        match self {
            RepeatableAnimation::Finitely(a) => a.next_step(),
            RepeatableAnimation::Infinitely(a) => {
                if a.steps.len() == 0 {
                    None
                } else {
                    Some(a.next_step())
                }
            },
        }
    }
}

/// Number of passes that `Finite(m)` plays.
pub open spec fn passes(m: u16) -> nat {
    if m == 0 {
        1
    } else {
        m as nat
    }
}

/// Where a finite repetition stands after `k` advances from the start.
proof fn lemma_finite_position(steps: Vec<AnimationStep>, m: u16, k: nat)
    requires
        steps@.len() > 0,
    ensures
        ({
            let a = RepeatableAnimation::spec_new(steps, AnimationRepeatMode::Finite(m)).advanced_times(k);
            let n = steps@.len() as int;
            &&& a is Finitely
            &&& a->Finitely_0.steps == steps
            &&& a->Finitely_0.max_iteration as nat + 1 == passes(m)
            &&& a.wf()
            &&& k < passes(m) * n ==> {
                &&& !a->Finitely_0.exhausted
                &&& k == a->Finitely_0.current_iteration * n + a->Finitely_0.current_index
            }
            &&& k >= passes(m) * n ==> a->Finitely_0.exhausted
        }),
    decreases k,
{
    let n = steps@.len() as int;
    assert(steps@.len() == steps.len());
    let total = passes(m) * n;
    assert(total >= n) by (nonlinear_arith)
        requires
            total == passes(m) * n,
            passes(m) >= 1,
            n > 0,
    ;
    if k > 0 {
        lemma_finite_position(steps, m, (k - 1) as nat);
        let p = RepeatableAnimation::spec_new(steps, AnimationRepeatMode::Finite(m)).advanced_times((k - 1) as nat);
        let f = p->Finitely_0;
        let it = f.current_iteration as int;
        let idx = f.current_index as int;
        let top = f.max_iteration as int;
        let a = RepeatableAnimation::spec_new(steps, AnimationRepeatMode::Finite(m)).advanced_times(k);
        assert(a == p.spec_advanced());
        if k - 1 < total {
            assert(k - 1 == it * n + idx);
            lemma_mul_is_distributive_add_other_way(n, it, 1);
            if idx + 1 < n {
                assert((it + 1) * n <= total) by (nonlinear_arith)
                    requires
                        it + 1 <= passes(m),
                        total == passes(m) * n,
                        n > 0,
                ;
            } else if it < top {
                lemma_mul_is_distributive_add_other_way(n, it + 1, 1);
                assert((it + 2) * n <= total) by (nonlinear_arith)
                    requires
                        it + 2 <= passes(m),
                        total == passes(m) * n,
                        n > 0,
                ;
            } else {
                assert(it == top);
                assert(total == (top + 1) * n);
            }
        }
    }
}

/// Finite exhaustion: a fresh `Finite(m)` repetition over `n > 0` steps
/// shows step `k % n` after `k` advances, for every `k` below `n` times
/// the number of passes (`m`, or one when `m` is zero); from then on, for
/// good, it has no step. So the first step and the next `passes * n - 1`
/// advances give steps, and every later advance gives `None`.
pub proof fn finite_repetition_runs_out(steps: Vec<AnimationStep>, m: u16, k: nat)
    requires
        steps@.len() > 0,
    ensures
        ({
            let a = RepeatableAnimation::spec_new(steps, AnimationRepeatMode::Finite(m)).advanced_times(k);
            let n = steps@.len() as int;
            &&& k < passes(m) * n ==> a.spec_current() == Some(steps@[(k as int) % n]@)
            &&& k >= passes(m) * n ==> a.spec_current() is None
        }),
{
    lemma_finite_position(steps, m, k);
    let a = RepeatableAnimation::spec_new(steps, AnimationRepeatMode::Finite(m)).advanced_times(k);
    let n = steps@.len() as int;
    if k < passes(m) * n {
        let f = a->Finitely_0;
        lemma_fundamental_div_mod_converse(k as int, n, f.current_iteration as int, f.current_index as int);
    }
}

/// Where an infinite repetition stands after `k` advances from the start.
proof fn lemma_infinite_position(steps: Vec<AnimationStep>, k: nat)
    requires
        steps@.len() > 0,
    ensures
        ({
            let a = RepeatableAnimation::spec_new(steps, AnimationRepeatMode::Infinite).advanced_times(k);
            &&& a is Infinitely
            &&& a->Infinitely_0.steps == steps
            &&& a->Infinitely_0.current_index as int == (k as int) % (steps@.len() as int)
        }),
    decreases k,
{
    let n = steps@.len() as int;
    assert(steps@.len() == steps.len());
    let a = RepeatableAnimation::spec_new(steps, AnimationRepeatMode::Infinite).advanced_times(k);
    if k > 0 {
        lemma_infinite_position(steps, (k - 1) as nat);
        let q = (k - 1) / n;
        let r = (k - 1) % n;
        vstd::arithmetic::div_mod::lemma_fundamental_div_mod((k - 1) as int, n);
        vstd::arithmetic::mul::lemma_mul_is_commutative(n, q);
        assert(0 <= r < n);
        let p = RepeatableAnimation::spec_new(steps, AnimationRepeatMode::Infinite).advanced_times((k - 1) as nat);
        assert(a == p.spec_advanced());
        assert(p->Infinitely_0.current_index == r);
        if r + 1 < n {
            lemma_fundamental_div_mod_converse(k as int, n, q, r + 1);
        } else {
            lemma_mul_is_distributive_add_other_way(n, q, 1);
            lemma_fundamental_div_mod_converse(k as int, n, q + 1, 0);
        }
        assert(a->Infinitely_0.current_index as int == (k as int) % n);
    } else {
        lemma_fundamental_div_mod_converse(0, n, 0, 0);
        assert(a->Infinitely_0.current_index as int == (k as int) % n);
    }
}

/// Infinite wrap: a fresh `Infinite` repetition over `n > 0` steps shows
/// step `k % n` after `k` advances, so the steps come back in the same
/// order every `n` advances, and never run out.
pub proof fn infinite_repetition_wraps(steps: Vec<AnimationStep>, k: nat)
    requires
        steps@.len() > 0,
    ensures
        RepeatableAnimation::spec_new(steps, AnimationRepeatMode::Infinite).advanced_times(k).spec_current()
            == Some(steps@[(k as int) % (steps@.len() as int)]@),
        RepeatableAnimation::spec_new(steps, AnimationRepeatMode::Infinite).advanced_times(k + steps@.len()).spec_current()
            == RepeatableAnimation::spec_new(steps, AnimationRepeatMode::Infinite).advanced_times(k).spec_current(),
{
    let n = steps@.len() as int;
    lemma_infinite_position(steps, k);
    lemma_infinite_position(steps, k + steps@.len());
    vstd::arithmetic::div_mod::lemma_fundamental_div_mod(k as int, n);
    vstd::arithmetic::mul::lemma_mul_is_commutative(n, k as int / n);
    lemma_mul_is_distributive_add_other_way(n, k as int / n, 1);
    lemma_fundamental_div_mod_converse(k + n, n, k as int / n + 1, k as int % n);
}

/// The repetition over its infinite variant advances as the variant does.
proof fn lemma_infinitely_advanced(a: InfinitelyRepeatableAnimation, k: nat)
    ensures
        RepeatableAnimation::Infinitely(a).advanced_times(k) == RepeatableAnimation::Infinitely(
            a.advanced_times(k),
        ),
    decreases k,
{
    if k > 0 {
        lemma_infinitely_advanced(a, (k - 1) as nat);
    }
}

/// Infinite wrap, for the infinite variant itself: after `k` calls of
/// `next_step` on a fresh `InfinitelyRepeatableAnimation` over `n > 0`
/// steps, the step returned is step `k % n`; the results repeat with
/// period `n` and never run out.
pub proof fn infinitely_repeatable_wraps(steps: Vec<AnimationStep>, k: nat)
    requires
        steps@.len() > 0,
    ensures
        ({
            let a = InfinitelyRepeatableAnimation { steps, current_index: 0 };
            let n = steps@.len() as int;
            &&& a.advanced_times(k).steps == steps
            &&& a.advanced_times(k).current_index as int == (k as int) % n
            &&& a.advanced_times(k + steps@.len()).current_index == a.advanced_times(k).current_index
        }),
{
    let a = InfinitelyRepeatableAnimation { steps, current_index: 0 };
    lemma_infinitely_advanced(a, k);
    lemma_infinitely_advanced(a, k + steps@.len());
    lemma_infinite_position(steps, k);
    lemma_infinite_position(steps, k + steps@.len());
    infinite_repetition_wraps(steps, k);
    let n = steps@.len() as int;
    vstd::arithmetic::div_mod::lemma_fundamental_div_mod(k as int, n);
    vstd::arithmetic::mul::lemma_mul_is_commutative(n, k as int / n);
    lemma_mul_is_distributive_add_other_way(n, k as int / n, 1);
    lemma_fundamental_div_mod_converse(k + n, n, k as int / n + 1, k as int % n);
}

} // verus!
