//! Light paths: the bounce budget of a ray and the attenuations it gathers.
//!
//! A path is followed one answer at a time: the caller traces the current
//! ray, hands back what the scene and the material answered, and multiplies
//! the factors once the path has ended.
use vstd::prelude::*;
use crate::material::Scatter;
use crate::ray::Ray;
use crate::scalar::{Scalar, INFINITY_BITS};
use crate::vec3::Vec3;

verus! {

/// The lower bound of every scene query, `0.001`: it keeps a scattered ray
/// from meeting again the surface it leaves.
pub const TRACE_MIN_BITS: u64 = 0x3f50_624d_d2f1_a9fc;

/// What the scene and the material answered for one ray.
#[derive(Clone, Copy, Debug)]
pub enum Outcome {
    /// The ray met no sphere.
    Miss,
    /// The ray met a sphere whose material absorbed it.
    Absorbed,
    /// The ray met a sphere whose material scattered it.
    Scattered(Scatter),
}

/// How a light path ended.
#[derive(Clone, Copy, Debug, PartialEq, Eq, Structural)]
pub enum Ending {
    /// The bounce budget ran out: the path contributes black.
    Exhausted,
    /// A material absorbed the ray: the path contributes black.
    Absorbed,
    /// The last ray left the scene: the path contributes the background
    /// seen along that ray.
    Escaped,
}

/// The mathematical state of a light path.
pub struct PathView {
    /// The ray to trace next or, once the path has ended, its last ray.
    pub ray: Ray,
    /// The bounces that are left.
    pub remaining: int,
    /// The attenuations gathered so far, first bounce first.
    pub factors: Seq<Vec3>,
    /// How the path ended, if it has.
    pub ending: Option<Ending>,
}

/// A light path under construction. Its radiance is the product of its
/// factors, taken from the last to the first, with the colour of its ending.
#[derive(Debug)]
pub struct Path {
    pub ray: Ray,
    pub remaining: u32,
    pub factors: Vec<Vec3>,
    pub ending: Option<Ending>,
}

impl View for Path {
    type V = PathView;

    open spec fn view(&self) -> PathView {
        PathView {
            ray: self.ray,
            remaining: self.remaining as int,
            factors: self.factors@,
            ending: self.ending,
        }
    }
}

impl PathView {
    /// A path that starts along `ray` with a budget of `depth` bounces. With
    /// no budget the path has ended before any ray is traced.
    pub open spec fn start(ray: Ray, depth: int) -> PathView {
        PathView {
            ray,
            remaining: if depth > 0 {
                depth
            } else {
                0
            },
            factors: Seq::empty(),
            ending: if depth > 0 {
                None
            } else {
                Some(Ending::Exhausted)
            },
        }
    }

    /// The path after the answer to its current ray. A path that has ended
    /// stays as it is. A miss and an absorption end the path. A scatter
    /// gathers the attenuation, continues along the scattered ray with one
    /// bounce less, and ends the path when none is left.
    pub open spec fn bounce(self, outcome: Outcome) -> PathView {
        if self.ending.is_some() {
            self
        } else {
            match outcome {
                Outcome::Miss => PathView { ending: Some(Ending::Escaped), ..self },
                Outcome::Absorbed => PathView { ending: Some(Ending::Absorbed), ..self },
                Outcome::Scattered(s) => PathView {
                    ray: s.scattered,
                    remaining: if self.remaining > 0 {
                        self.remaining - 1
                    } else {
                        0
                    },
                    factors: self.factors.push(s.attenuation),
                    ending: if self.remaining > 1 {
                        None
                    } else {
                        Some(Ending::Exhausted)
                    },
                },
            }
        }
    }

    /// The same path with one more attenuation before all others.
    pub open spec fn after(self, attenuation: Vec3) -> PathView {
        PathView { factors: seq![attenuation] + self.factors, ..self }
    }

    /// The path of a ray, told as a recursion: without budget it is
    /// exhausted; a miss or an absorption ends it; a scatter puts its
    /// attenuation before the path of the scattered ray, which has one
    /// bounce less. Where the answers run out the path is unfinished.
    pub open spec fn trace(ray: Ray, depth: int, answers: Seq<Outcome>) -> PathView
        decreases answers.len(),
    {
        if depth <= 0 || answers.len() == 0 {
            PathView::start(ray, depth)
        } else {
            match answers[0] {
                Outcome::Miss => PathView {
                    ending: Some(Ending::Escaped),
                    ..PathView::start(ray, depth)
                },
                Outcome::Absorbed => PathView {
                    ending: Some(Ending::Absorbed),
                    ..PathView::start(ray, depth)
                },
                Outcome::Scattered(s) => PathView::trace(
                    s.scattered,
                    depth - 1,
                    answers.skip(1),
                ).after(s.attenuation),
            }
        }
    }

    /// The path after a sequence of answers, applied in order.
    pub open spec fn bounces(self, outcomes: Seq<Outcome>) -> PathView
        decreases outcomes.len(),
    {
        if outcomes.len() == 0 {
            self
        } else {
            self.bounces(outcomes.drop_last()).bounce(outcomes.last())
        }
    }

    /// The budget is accounted for: the bounces made and the bounces left
    /// add up to `depth`, and the path has run out exactly when none is
    /// left.
    pub open spec fn within_budget(self, depth: int) -> bool {
        &&& 0 <= self.remaining
        &&& self.factors.len() + self.remaining == (if depth > 0 {
            depth
        } else {
            0
        })
        &&& self.remaining == 0 <==> self.ending == Some(Ending::Exhausted)
    }
}

impl Path {
    /// Starts a path along `ray` with a budget of `depth` bounces.
    pub fn start(ray: Ray, depth: i32) -> (path: Path)
        ensures
            path@ == PathView::start(ray, depth as int),
    {
        Path {
            ray,
            remaining: if depth > 0 {
                depth as u32
            } else {
                0
            },
            factors: Vec::new(),
            ending: if depth > 0 {
                None
            } else {
                Some(Ending::Exhausted)
            },
        }
    }

    /// The ray to trace next, while the path has not ended.
    pub fn next_ray(&self) -> (ray: Option<Ray>)
        ensures
            self.ending.is_none() ==> ray == Some(self.ray),
            self.ending.is_some() ==> ray.is_none(),
    {
        match self.ending {
            None => Some(self.ray),
            Some(_) => None,
        }
    }

    /// Takes the answer to the current ray.
    pub fn bounce(&mut self, outcome: Outcome)
        ensures
            final(self)@ == old(self)@.bounce(outcome),
    {
        if self.ending.is_some() {
            return ;
        }
        match outcome {
            Outcome::Miss => {
                self.ending = Some(Ending::Escaped);
            },
            Outcome::Absorbed => {
                self.ending = Some(Ending::Absorbed);
            },
            Outcome::Scattered(s) => {
                self.factors.push(s.attenuation);
                self.ray = s.scattered;
                if self.remaining > 0 {
                    self.remaining = self.remaining - 1;
                }
                if self.remaining == 0 {
                    self.ending = Some(Ending::Exhausted);
                }
            },
        }
    }
}

/// The interval within which every ray of a path is tested against the
/// scene: from `0.001` to infinity.
pub fn trace_interval() -> (bounds: (Scalar, Scalar))
    ensures
        bounds.0.bits == TRACE_MIN_BITS,
        bounds.1.bits == INFINITY_BITS,
{
    (Scalar::from_bits(TRACE_MIN_BITS), Scalar::infinity())
}

/// One more answer at the end of a recursion is one more bounce of its path.
proof fn lemma_trace_push(ray: Ray, depth: int, answers: Seq<Outcome>, last: Outcome)
    ensures
        PathView::trace(ray, depth, answers.push(last)) == PathView::trace(
            ray,
            depth,
            answers,
        ).bounce(last),
    decreases answers.len(),
{
    let longer = answers.push(last);
    if depth <= 0 {
    } else if answers.len() == 0 {
        assert(longer[0] == last);
        assert(longer.skip(1).len() == 0);
        match last {
            Outcome::Scattered(s) => {
                let inner = PathView::trace(s.scattered, depth - 1, longer.skip(1));
                assert(inner == PathView::start(s.scattered, depth - 1));
                assert(inner.after(s.attenuation).factors =~= Seq::<Vec3>::empty().push(
                    s.attenuation,
                ));
            },
            _ => {},
        }
    } else {
        assert(longer[0] == answers[0]);
        match answers[0] {
            Outcome::Scattered(s) => {
                assert(longer.skip(1) =~= answers.skip(1).push(last));
                lemma_trace_push(s.scattered, depth - 1, answers.skip(1), last);
                let inner = PathView::trace(s.scattered, depth - 1, answers.skip(1));
                assert(inner.bounce(last).after(s.attenuation).factors =~= inner.after(
                    s.attenuation,
                ).bounce(last).factors);
            },
            _ => {},
        }
    }
}

/// Following a path bounce by bounce gives the path that the recursion
/// defines: the loop and the recursion agree on the attenuations, on their
/// order, on the last ray and on the ending.
pub proof fn lemma_bounces_follow_the_recursion(ray: Ray, depth: int, answers: Seq<Outcome>)
    ensures
        PathView::start(ray, depth).bounces(answers) == PathView::trace(ray, depth, answers),
    decreases answers.len(),
{
    if answers.len() > 0 {
        lemma_bounces_follow_the_recursion(ray, depth, answers.drop_last());
        lemma_trace_push(ray, depth, answers.drop_last(), answers.last());
        assert(answers.drop_last().push(answers.last()) =~= answers);
    }
}

/// A path with no budget is black before any ray is traced, whatever the
/// scene holds: it has ended, exhausted, with no factor.
pub proof fn lemma_no_budget_is_black(ray: Ray, depth: int, outcomes: Seq<Outcome>)
    requires
        depth <= 0,
    ensures
        PathView::start(ray, depth).bounces(outcomes) == PathView::start(ray, depth),
        PathView::start(ray, depth).ending == Some(Ending::Exhausted),
        PathView::start(ray, depth).factors.len() == 0,
    decreases outcomes.len(),
{
    if outcomes.len() > 0 {
        lemma_no_budget_is_black(ray, depth, outcomes.drop_last());
    }
}

/// Whatever the scene and the materials answer, a path never makes more
/// bounces than its budget, and it has ended once as many answers as the
/// budget have been taken.
pub proof fn lemma_path_within_budget(ray: Ray, depth: int, outcomes: Seq<Outcome>)
    ensures
        PathView::start(ray, depth).bounces(outcomes).within_budget(depth),
        PathView::start(ray, depth).bounces(outcomes).factors.len() <= outcomes.len(),
        outcomes.len() >= depth ==> PathView::start(ray, depth).bounces(outcomes).ending.is_some(),
    decreases outcomes.len(),
{
    if outcomes.len() > 0 {
        lemma_path_within_budget(ray, depth, outcomes.drop_last());
        let before = PathView::start(ray, depth).bounces(outcomes.drop_last());
        if before.ending.is_none() && outcomes.len() >= depth {
            lemma_unfinished_path_scattered(ray, depth, outcomes.drop_last());
        }
    }
}

/// A path that has not ended has only been scattered: it holds one factor
/// for each answer taken.
pub proof fn lemma_unfinished_path_scattered(ray: Ray, depth: int, outcomes: Seq<Outcome>)
    requires
        PathView::start(ray, depth).bounces(outcomes).ending.is_none(),
    ensures
        PathView::start(ray, depth).bounces(outcomes).factors.len() == outcomes.len(),
    decreases outcomes.len(),
{
    if outcomes.len() > 0 {
        let before = PathView::start(ray, depth).bounces(outcomes.drop_last());
        if before.ending.is_none() {
            lemma_unfinished_path_scattered(ray, depth, outcomes.drop_last());
        }
    }
}

} // verus!
