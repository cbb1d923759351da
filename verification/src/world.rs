//! Bookkeeping of the level's throwable objects that does not depend on
//! their floating-point motion.

use vstd::prelude::*;

verus! {

/// The enemies a thrown object has hit since it was last picked up, in the
/// order of the hits; an enemy is listed at most once, so that one throw
/// damages each enemy at most once.
#[derive(Debug)]
pub struct HitEnemies {
    enemies: Vec<usize>,
}

impl View for HitEnemies {
    type V = Seq<usize>;

    closed spec fn view(&self) -> Seq<usize> {
        self.enemies@
    }
}

impl Clone for HitEnemies {
    /// A copy with the same hits.
    fn clone(&self) -> (copy: Self)
        ensures
            copy@ == self@,
    {
        let copy = HitEnemies { enemies: self.enemies.clone() };
        assert(copy.enemies@ =~= self.enemies@);
        copy
    }
}

impl HitEnemies {
    /// No enemy hit yet.
    pub fn new() -> (hits: Self)
        ensures
            hits@ == Seq::<usize>::empty(),
    {
        HitEnemies { enemies: Vec::new() }
    }

    /// Whether the enemy was hit already.
    pub fn contains(&self, enemy: usize) -> (hit: bool)
        ensures
            hit == self@.contains(enemy),
    {
        let mut i: usize = 0;
        while i < self.enemies.len()
            invariant
                0 <= i <= self.enemies.len(),
                forall|j: int| 0 <= j < i ==> self.enemies@[j] != enemy,
            decreases self.enemies.len() - i,
        {
            if self.enemies[i] == enemy {
                return true;
            }
            i = i + 1;
        }
        false
    }

    /// Records a hit on the enemy. Returns `true` for a first hit, which is
    /// appended; a repeated hit changes nothing and returns `false`.
    pub fn record_hit(&mut self, enemy: usize) -> (first: bool)
        ensures
            first == !old(self)@.contains(enemy),
            final(self)@ == (if first {
                old(self)@.push(enemy)
            } else {
                old(self)@
            }),
            old(self)@.no_duplicates() ==> final(self)@.no_duplicates(),
    {
        if self.contains(enemy) {
            return false;
        }
        self.enemies.push(enemy);
        true
    }

    /// Forgets every hit.
    pub fn clear(&mut self)
        ensures
            final(self)@ == Seq::<usize>::empty(),
    {
        self.enemies.clear();
    }
}

} // verus!
