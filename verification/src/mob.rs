//! A mob: on entering the scene it starts its sprite and picks one of the
//! sprite's animations at random; it frees itself when it leaves the screen.

use rand::rngs::ThreadRng;
use rand::Rng;
use vstd::prelude::*;
use vstd::string::StringExecFns;

verus! {

#[verifier::external_type_specification]
#[verifier::external_body]
pub struct ExThreadRng(ThreadRng);

/// `rand::thread_rng`: hands out the generator of the current thread. Nothing
/// is claimed of its state; it panics only where the operating system's
/// random source cannot seed it, which no argument decides.
#[verifier::external_body]
fn thread_rng() -> ThreadRng {
    rand::thread_rng()
}

/// `Rng::gen_range(rng, 0..bound)`: a random index below `bound`. The range
/// must not be empty, since `gen_range` panics on an empty one; which index
/// comes back is left to chance.
#[verifier::external_body]
fn random_index(rng: &mut ThreadRng, bound: usize) -> (i: usize)
    requires
        bound > 0,
    ensures
        i < bound,
{
    rng.gen_range(0..bound)
}

/// What a mob does with its sprite when it enters the scene.
#[derive(Clone, Copy, Debug, PartialEq, Eq, Structural)]
pub enum MobAnimation {
    /// The sprite has no animation: an error is reported and the current
    /// animation stays.
    NoAnimations,
    /// Play the animation at this index of the sprite's animation names.
    Play(usize),
}

/// A mob; all its state lives in its node.
#[derive(Clone, Copy, Debug)]
pub struct Mob;

/// The error text when a mob's sprite has no animation.
pub open spec fn no_animations_text() -> Seq<char> {
    seq![
        'n', 'o', ' ', 'a', 'n', 'i', 'm', 'a', 't', 'i', 'o', 'n', 's', ' ', 'p', 'r', 'e', 's',
        'e', 'n', 't',
    ]
}

impl Mob {
    /// A new mob.
    pub fn new() -> Mob {
        Mob
    }

    /// The animation to play given how many the sprite has and a random
    /// roll below that count.
    pub fn choose_animation(&self, count: usize, roll: usize) -> (a: MobAnimation)
        requires
            count > 0 ==> roll < count,
        ensures
            count == 0 ==> a == MobAnimation::NoAnimations,
            count > 0 ==> a == MobAnimation::Play(roll),
    {
        if count < 1 {
            MobAnimation::NoAnimations
        } else {
            MobAnimation::Play(roll)
        }
    }

    /// Picks, at random, one of the sprite's animations; none when the
    /// sprite has none.
    pub fn ready(&self, animations: &Vec<String>) -> (a: MobAnimation)
        ensures
            animations.len() == 0 <==> a == MobAnimation::NoAnimations,
            a matches MobAnimation::Play(i) ==> i < animations.len(),
    {
        let count = animations.len();
        if count < 1 {
            self.choose_animation(count, 0)
        } else {
            let mut rng = thread_rng();
            let roll = random_index(&mut rng, count);
            self.choose_animation(count, roll)
        }
    }

    /// The error text when the sprite has no animation: "no animations present".
    pub fn no_animations_message(&self) -> (text: String)
        ensures
            text@ == no_animations_text(),
    {
        proof {
            reveal_strlit("no animations present");
        }
        String::from_str("no animations present")
    }
}

} // verus!
