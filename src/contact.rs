use vstd::prelude::*;

verus! {

/// One sensor event for a tracker: `true` when an overlap begins, `false` when one ends.
pub type ContactEdge = bool;

/// The count after applying `edges` in order to a tracker holding `count`;
/// an end with nothing to end leaves the count at zero.
pub open spec fn count_after(count: nat, edges: Seq<ContactEdge>) -> nat
    decreases edges.len(),
{
    if edges.len() == 0 {
        count
    } else {
        let last = edges.last();
        let before = count_after(count, edges.drop_last());
        if last {
            before + 1
        } else if before > 0 {
            (before - 1) as nat
        } else {
            0
        }
    }
}

/// How many edges of `edges` are beginnings.
pub open spec fn begins(edges: Seq<ContactEdge>) -> nat
    decreases edges.len(),
{
    if edges.len() == 0 {
        0
    } else {
        begins(edges.drop_last()) + if edges.last() { 1nat } else { 0nat }
    }
}

/// How many edges of `edges` are ends.
pub open spec fn ends(edges: Seq<ContactEdge>) -> nat
    decreases edges.len(),
{
    if edges.len() == 0 {
        0
    } else {
        ends(edges.drop_last()) + if edges.last() { 0nat } else { 1nat }
    }
}

/// No prefix of `edges` ends more overlaps than it began.
pub open spec fn balanced(edges: Seq<ContactEdge>) -> bool {
    forall|k: int| 0 <= k <= edges.len() ==> #[trigger] ends(edges.take(k)) <= begins(edges.take(k))
}

/// Counts the sensor overlaps that are currently open.
#[derive(Copy, Clone, PartialEq, Eq, Debug, Structural)]
pub struct ContactTracker {
    pub count: usize,
}

impl ContactTracker {
    /// A tracker with no open overlap.
    pub fn new() -> (r: ContactTracker)
        ensures
            r.count == 0,
    {
        ContactTracker { count: 0 }
    }

    pub open spec fn active(self) -> bool {
        self.count > 0
    }

    /// Whether at least one overlap is open.
    pub fn is_active(&self) -> (r: bool)
        ensures
            r == self.active(),
    {
        self.count > 0
    }

    /// Records the start of an overlap.
    pub fn on_contact_begin(&mut self)
        requires
            old(self).count < usize::MAX,
        ensures
            final(self).count == old(self).count + 1,
    {
        self.count = self.count + 1;
    }

    /// Records the end of an overlap. An end with no open overlap leaves the count at
    /// zero and returns `false`, so that the caller can report the missed beginning.
    pub fn on_contact_end(&mut self) -> (consistent: bool)
        ensures
            consistent == (old(self).count > 0),
            final(self).count == if consistent { old(self).count - 1 } else { 0 },
    {
        if self.count > 0 {
            self.count = self.count - 1;
            true
        } else {
            false
        }
    }

    /// Applies a sequence of edges in order; returns how many ends found nothing to end.
    pub fn apply_edges(&mut self, edges: &Vec<ContactEdge>) -> (missed: usize)
        requires
            old(self).count + edges@.len() <= usize::MAX,
        ensures
            final(self).count == count_after(old(self).count as nat, edges@),
            missed <= edges@.len(),
    {
        let mut missed: usize = 0;
        let mut i: usize = 0;
        while i < edges.len()
            invariant
                i <= edges@.len(),
                old(self).count + edges@.len() <= usize::MAX,
                self.count == count_after(old(self).count as nat, edges@.take(i as int)),
                self.count <= old(self).count + i,
                missed <= i,
            decreases edges@.len() - i,
        {
            assert(edges@.take(i + 1).drop_last() == edges@.take(i as int));
            if edges[i] {
                self.on_contact_begin();
            } else {
                let ok = self.on_contact_end();
                if !ok {
                    missed = missed + 1;
                }
            }
            i = i + 1;
        }
        assert(edges@.take(edges@.len() as int) == edges@);
        missed
    }
}

/// From an empty tracker, along a stream in which no end comes before its beginning,
/// the count is the number of beginnings less the number of ends: so the tracker is
/// active exactly when more overlaps began than ended.
pub proof fn law_balanced_contacts(edges: Seq<ContactEdge>)
    requires
        balanced(edges),
    ensures
        count_after(0, edges) == begins(edges) - ends(edges),
        count_after(0, edges) > 0 <==> begins(edges) > ends(edges),
    decreases edges.len(),
{
    if edges.len() > 0 {
        let prefix = edges.drop_last();
        assert forall|k: int| 0 <= k <= prefix.len() implies #[trigger] ends(prefix.take(k))
            <= begins(prefix.take(k)) by {
            assert(prefix.take(k) == edges.take(k));
        }
        law_balanced_contacts(prefix);
        assert(edges.take(edges.len() as int) == edges);
        assert(ends(edges.take(edges.len() as int)) <= begins(edges.take(edges.len() as int)));
    }
}

/// Ground contact of the player's feet sensor.
#[derive(Copy, Clone, PartialEq, Eq, Debug, Structural)]
pub struct GroundDetection {
    pub tracker: ContactTracker,
}

impl GroundDetection {
    pub fn new() -> (r: GroundDetection)
        ensures
            r.tracker.count == 0,
    {
        GroundDetection { tracker: ContactTracker::new() }
    }

    pub open spec fn spec_on_ground(self) -> bool {
        self.tracker.active()
    }

    /// Whether the feet sensor touches any ground.
    pub fn on_ground(&self) -> (r: bool)
        ensures
            r == self.spec_on_ground(),
            r == (self.tracker.count > 0),
    {
        self.tracker.is_active()
    }
}

/// Ladder contact of the player, and whether the player is latched onto a ladder.
#[derive(Copy, Clone, PartialEq, Eq, Debug, Structural)]
pub struct Climber {
    pub tracker: ContactTracker,
    pub climbing: bool,
}

impl Climber {
    pub fn new() -> (r: Climber)
        ensures
            r.tracker.count == 0,
            !r.climbing,
    {
        Climber { tracker: ContactTracker::new(), climbing: false }
    }

    /// Whether the player overlaps any ladder.
    pub fn touches_climbable(&self) -> (r: bool)
        ensures
            r == self.tracker.active(),
    {
        self.tracker.is_active()
    }
}

proof fn lemma_count_after_one(count: nat, edge: ContactEdge)
    ensures
        count_after(count, seq![edge]) == if edge {
            count + 1
        } else if count > 0 {
            (count - 1) as nat
        } else {
            0
        },
{
    let edges = seq![edge];
    assert(edges.drop_last() =~= Seq::<ContactEdge>::empty());
    assert(edges.last() == edge);
    assert(count_after(count, edges.drop_last()) == count);
    reveal_with_fuel(count_after, 2);
}

/// What a collider stands for, as far as contact bookkeeping goes.
#[derive(Copy, Clone, PartialEq, Eq, Debug, Structural)]
pub enum Role {
    /// The player's body.
    Player,
    /// The sensor under the player's feet.
    GroundSensor,
    /// Solid level geometry that the player can stand on.
    Solid,
    /// A ladder's sensor.
    Climbable,
    /// A goal tile's sensor.
    Goal,
    /// Anything else.
    Other,
}

/// A collision event of the physics engine between two colliders.
#[derive(Copy, Clone, PartialEq, Eq, Debug, Structural)]
pub enum CollisionEvent {
    Started(Role, Role),
    Stopped(Role, Role),
}

/// Whether the pair is `a` and `b`, in either order.
pub open spec fn is_pair(x: Role, y: Role, a: Role, b: Role) -> bool {
    (x == a && y == b) || (x == b && y == a)
}

/// Whether the pair is `a` and `b`, in either order.
pub fn pair_of(x: Role, y: Role, a: Role, b: Role) -> (r: bool)
    ensures
        r == is_pair(x, y, a, b),
{
    (x == a && y == b) || (x == b && y == a)
}

impl CollisionEvent {
    pub open spec fn roles(self) -> (Role, Role) {
        match self {
            CollisionEvent::Started(a, b) => (a, b),
            CollisionEvent::Stopped(a, b) => (a, b),
        }
    }

    pub open spec fn is_ground(self) -> bool {
        is_pair(self.roles().0, self.roles().1, Role::GroundSensor, Role::Solid)
    }

    pub open spec fn is_climb(self) -> bool {
        is_pair(self.roles().0, self.roles().1, Role::Player, Role::Climbable)
    }

    /// The player starts to touch a goal.
    pub open spec fn is_goal_start(self) -> bool {
        self is Started && is_pair(self.roles().0, self.roles().1, Role::Player, Role::Goal)
    }

    /// Whether this event is the player starting to touch a goal.
    pub fn goal_reached(&self) -> (r: bool)
        ensures
            r == self.is_goal_start(),
    {
        match self {
            CollisionEvent::Started(a, b) => pair_of(*a, *b, Role::Player, Role::Goal),
            CollisionEvent::Stopped(_, _) => false,
        }
    }
}

/// Feeds one collision event to the tracker it concerns: a ground sensor touching
/// solid ground goes to `ground`, the player touching a ladder goes to `climber`;
/// other events change neither. Returns `false` when an end found no open overlap.
pub fn route_collision(event: &CollisionEvent, ground: &mut GroundDetection, climber: &mut Climber) -> (consistent: bool)
    requires
        old(ground).tracker.count < usize::MAX,
        old(climber).tracker.count < usize::MAX,
    ensures
        final(climber).climbing == old(climber).climbing,
        final(ground).tracker.count == if event.is_ground() {
            count_after(old(ground).tracker.count as nat, seq![event is Started])
        } else {
            old(ground).tracker.count as nat
        },
        final(climber).tracker.count == if event.is_climb() {
            count_after(old(climber).tracker.count as nat, seq![event is Started])
        } else {
            old(climber).tracker.count as nat
        },
        !consistent <==> (event is Stopped && ((event.is_ground() && old(ground).tracker.count == 0)
            || (event.is_climb() && old(climber).tracker.count == 0))),
{
    proof {
        lemma_count_after_one(old(ground).tracker.count as nat, event is Started);
        lemma_count_after_one(old(climber).tracker.count as nat, event is Started);
    }
    match event {
        CollisionEvent::Started(a, b) => {
            if pair_of(*a, *b, Role::GroundSensor, Role::Solid) {
                ground.tracker.on_contact_begin();
            } else if pair_of(*a, *b, Role::Player, Role::Climbable) {
                climber.tracker.on_contact_begin();
            }
            true
        },
        CollisionEvent::Stopped(a, b) => {
            if pair_of(*a, *b, Role::GroundSensor, Role::Solid) {
                ground.tracker.on_contact_end()
            } else if pair_of(*a, *b, Role::Player, Role::Climbable) {
                climber.tracker.on_contact_end()
            } else {
                true
            }
        },
    }
}

} // verus!
