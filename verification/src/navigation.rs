//! Waypoints and navigation plans: which waypoint is the current target, which
//! have been reached, and how far along the plan is.
//!
//! Positions and tolerances are type parameters: the library tracks progress
//! through the plan and leaves the geometry of positions to its callers.

use vstd::prelude::*;

verus! {

/// A waypoint in navigation.
#[derive(Debug, Clone)]
pub struct Waypoint<P> {
    pub position: P,
    pub label: Option<String>,
    pub reached: bool,
}

impl<P> Waypoint<P> {
    pub fn new(position: P) -> (w: Self)
        ensures
            w.position == position,
            w.label is None,
            !w.reached,
    {
        Waypoint { position, label: None, reached: false }
    }

    pub fn with_label(self, label: &str) -> (w: Self)
        ensures
            w.position == self.position,
            w.reached == self.reached,
            w.label matches Some(l) && l@ == label@,
    {
        let mut w = self;
        w.label = Some(label.to_owned());
        w
    }

    pub fn mark_reached(&mut self)
        ensures
            final(self).reached,
            final(self).position == old(self).position,
            final(self).label == old(self).label,
    {
        self.reached = true;
    }

    pub fn is_reached(&self) -> (r: bool)
        ensures
            r == self.reached,
    {
        self.reached
    }
}

/// A navigation plan through decision space.
#[derive(Debug, Clone)]
pub struct NavigationPlan<P, T> {
    pub waypoints: Vec<Waypoint<P>>,
    pub current_index: usize,
    pub tolerance: T,
}

/// The waypoints of a sequence that have been reached.
pub open spec fn reached_waypoints<P>(ws: Seq<Waypoint<P>>) -> Seq<Waypoint<P>> {
    ws.filter(|w: Waypoint<P>| w.reached)
}

impl<P, T> NavigationPlan<P, T> {
    /// The plan's progress is in step with its index: exactly the waypoints
    /// before the current one have been reached.
    pub open spec fn is_in_step(&self) -> bool {
        &&& self.current_index <= self.waypoints@.len()
        &&& forall|i: int|
            0 <= i < self.waypoints@.len() ==> (#[trigger] self.waypoints@[i].reached <==> i
                < self.current_index)
    }

    /// This plan is `prev` advanced by one waypoint: the waypoint that was the
    /// current target is now reached, and the next one is the target.
    pub open spec fn advanced_from(&self, prev: Self) -> bool {
        &&& prev.current_index < prev.waypoints@.len()
        &&& self.current_index == prev.current_index + 1
        &&& self.waypoints@ == prev.waypoints@.update(
            prev.current_index as int,
            (Waypoint { reached: true, ..prev.waypoints@[prev.current_index as int] }),
        )
        &&& self.tolerance == prev.tolerance
    }

    pub fn new(tolerance: T) -> (plan: Self)
        ensures
            plan.waypoints@ == Seq::<Waypoint<P>>::empty(),
            plan.current_index == 0,
            plan.tolerance == tolerance,
            plan.is_in_step(),
    {
        NavigationPlan { waypoints: Vec::new(), current_index: 0, tolerance }
    }

    pub fn add_waypoint(&mut self, waypoint: Waypoint<P>)
        ensures
            final(self).waypoints@ == old(self).waypoints@.push(waypoint),
            final(self).current_index == old(self).current_index,
            final(self).tolerance == old(self).tolerance,
            old(self).is_in_step() && !waypoint.reached ==> final(self).is_in_step(),
    {
        self.waypoints.push(waypoint);
    }

    pub fn current_target(&self) -> (r: Option<&Waypoint<P>>)
        ensures
            r matches Some(w) ==> self.current_index < self.waypoints@.len() && *w
                == self.waypoints@[self.current_index as int],
            r is None ==> self.current_index >= self.waypoints@.len(),
    {
        if self.current_index < self.waypoints.len() {
            Some(&self.waypoints[self.current_index])
        } else {
            None
        }
    }

    /// Mark the current target reached and move on to the next waypoint.
    /// Returns false, and changes nothing, when the plan is already complete.
    pub fn advance(&mut self) -> (moved: bool)
        ensures
            moved == (old(self).current_index < old(self).waypoints@.len()),
            moved ==> final(self).advanced_from(*old(self)),
            !moved ==> *final(self) == *old(self),
            old(self).is_in_step() ==> final(self).is_in_step(),
    {
        if self.current_index < self.waypoints.len() {
            let i = self.current_index;
            self.waypoints[i].mark_reached();
            self.current_index = i + 1;
            true
        } else {
            false
        }
    }

    pub fn is_complete(&self) -> (r: bool)
        ensures
            r == (self.current_index >= self.waypoints@.len()),
    {
        self.current_index >= self.waypoints.len()
    }

    pub fn waypoint_count(&self) -> (n: usize)
        ensures
            n == self.waypoints@.len(),
    {
        self.waypoints.len()
    }

    /// How many waypoints have been reached.
    pub fn reached_count(&self) -> (n: usize)
        ensures
            n == reached_waypoints(self.waypoints@).len(),
    {
        let mut n: usize = 0;
        for i in 0..self.waypoints.len()
            invariant
                n == reached_waypoints(self.waypoints@.take(i as int)).len(),
                n <= i,
        {
            proof {
                let ws = self.waypoints@;
                assert(ws.take(i + 1).drop_last() =~= ws.take(i as int));
                reveal_with_fuel(Seq::<_>::filter, 1);
            }
            if self.waypoints[i].reached {
                n = n + 1;
            }
        }
        proof {
            assert(self.waypoints@.take(self.waypoints@.len() as int) =~= self.waypoints@);
        }
        n
    }

    /// Measure a position against the current target with `measure`, which
    /// gives a measurement and whether the target counts as reached (it sees the
    /// target's position and the plan's tolerance). When it does, the plan
    /// advances. Returns the measurement, or `None` when no target remains.
    pub fn update<D, F: Fn(&P, &T) -> (D, bool)>(&mut self, measure: F) -> (r: Option<D>)
        requires
            forall|p: &P, t: &T| call_requires(measure, (p, t)),
        ensures
            old(self).current_index >= old(self).waypoints@.len() ==> r is None && *final(self)
                == *old(self),
            old(self).current_index < old(self).waypoints@.len() ==> r is Some,
            r matches Some(d) ==> {
                ||| final(self).advanced_from(*old(self)) && call_ensures(
                    measure,
                    (
                        &old(self).waypoints@[old(self).current_index as int].position,
                        &old(self).tolerance,
                    ),
                    (d, true),
                )
                ||| *final(self) == *old(self) && call_ensures(
                    measure,
                    (
                        &old(self).waypoints@[old(self).current_index as int].position,
                        &old(self).tolerance,
                    ),
                    (d, false),
                )
            },
            old(self).is_in_step() ==> final(self).is_in_step(),
    {
        if self.current_index < self.waypoints.len() {
            let (measurement, arrived) = measure(
                &self.waypoints[self.current_index].position,
                &self.tolerance,
            );
            if arrived {
                self.advance();
            }
            Some(measurement)
        } else {
            None
        }
    }

    /// A plan of `steps` waypoints, the `i`-th of them (counting from one) at
    /// `point_at(i, steps)`; none is reached yet.
    pub fn interpolate_path<F: Fn(usize, usize) -> P>(steps: usize, tolerance: T, point_at: F) -> (plan: Self)
        requires
            forall|i: usize| 1 <= i <= steps ==> call_requires(point_at, (i, steps)),
        ensures
            plan.waypoints@.len() == steps,
            plan.current_index == 0,
            plan.tolerance == tolerance,
            forall|k: int|
                0 <= k < steps ==> call_ensures(
                    point_at,
                    ((k + 1) as usize, steps),
                    #[trigger] plan.waypoints@[k].position,
                ) && !plan.waypoints@[k].reached && plan.waypoints@[k].label is None,
            plan.is_in_step(),
    {
        let mut plan = NavigationPlan::new(tolerance);
        let mut k: usize = 0;
        while k < steps
            invariant
                k <= steps,
                forall|i: usize| 1 <= i <= steps ==> call_requires(point_at, (i, steps)),
                plan.waypoints@.len() == k,
                plan.current_index == 0,
                plan.tolerance == tolerance,
                forall|j: int|
                    0 <= j < k ==> call_ensures(
                        point_at,
                        ((j + 1) as usize, steps),
                        #[trigger] plan.waypoints@[j].position,
                    ) && !plan.waypoints@[j].reached && plan.waypoints@[j].label is None,
                plan.is_in_step(),
            decreases steps - k,
        {
            let position = point_at(k + 1, steps);
            plan.add_waypoint(Waypoint::new(position));
            k = k + 1;
        }
        plan
    }
}

/// A sequence whose first `idx` waypoints are reached and whose others are not
/// has exactly `idx` reached waypoints.
proof fn lemma_reached_prefix_len<P>(s: Seq<Waypoint<P>>, idx: int)
    requires
        0 <= idx <= s.len(),
        forall|i: int| 0 <= i < s.len() ==> (#[trigger] s[i].reached <==> i < idx),
    ensures
        reached_waypoints(s).len() == idx,
    decreases s.len(),
{
    reveal_with_fuel(Seq::<_>::filter, 1);
    if s.len() > 0 {
        let t = s.drop_last();
        assert(forall|i: int| 0 <= i < t.len() ==> t[i] == s[i]);
        if idx == s.len() {
            assert(s[s.len() - 1].reached);
            lemma_reached_prefix_len(t, idx - 1);
        } else {
            assert(!s[s.len() - 1].reached);
            lemma_reached_prefix_len(t, idx);
        }
    }
}

/// In a plan whose progress is in step with its index, the number of reached
/// waypoints is the index of the current target: every advance reaches exactly
/// one waypoint.
pub proof fn lemma_reached_count_is_index<P, T>(plan: NavigationPlan<P, T>)
    requires
        plan.is_in_step(),
    ensures
        reached_waypoints(plan.waypoints@).len() == plan.current_index,
{
    lemma_reached_prefix_len(plan.waypoints@, plan.current_index as int);
}

/// A plan whose progress is in step with its index is complete exactly when
/// every waypoint has been reached.
pub proof fn lemma_complete_iff_all_reached<P, T>(plan: NavigationPlan<P, T>)
    requires
        plan.is_in_step(),
    ensures
        (plan.current_index >= plan.waypoints@.len()) <==> (reached_waypoints(plan.waypoints@).len()
            == plan.waypoints@.len()),
{
    lemma_reached_count_is_index(plan);
}

/// Advancing a plan reaches exactly one more waypoint, whatever the plan held before.
pub proof fn lemma_advance_reaches_one_more<P, T>(before: NavigationPlan<P, T>, after: NavigationPlan<P, T>)
    requires
        after.advanced_from(before),
    ensures
        reached_waypoints(after.waypoints@).len() == reached_waypoints(before.waypoints@).len() + (
        if before.waypoints@[before.current_index as int].reached {
            0int
        } else {
            1int
        }),
{
    let i = before.current_index as int;
    lemma_reached_after_marking(
        before.waypoints@,
        i,
        (Waypoint { reached: true, ..before.waypoints@[i] }),
    );
}

/// Replacing one waypoint of a sequence by a reached one adds one reached
/// waypoint, unless that waypoint was reached already.
proof fn lemma_reached_after_marking<P>(s: Seq<Waypoint<P>>, i: int, w: Waypoint<P>)
    requires
        0 <= i < s.len(),
        w.reached,
    ensures
        reached_waypoints(s.update(i, w)).len() == reached_waypoints(s).len() + (if s[i].reached {
            0int
        } else {
            1int
        }),
    decreases s.len(),
{
    reveal_with_fuel(Seq::<_>::filter, 1);
    let u = s.update(i, w);
    if i == s.len() - 1 {
        assert(u.drop_last() =~= s.drop_last());
    } else {
        assert(u.drop_last() =~= s.drop_last().update(i, w));
        lemma_reached_after_marking(s.drop_last(), i, w);
    }
}

} // verus!
