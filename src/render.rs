use vstd::prelude::*;

verus! {

/// The variant of a collider's shape. Its sizes stay with the physics engine.
#[derive(Clone, Copy, Debug, PartialEq, Eq)]
pub enum ShapeKind {
    /// A disc of some radius.
    Ball,
    /// A box of some half extents.
    Cuboid,
    /// Any other shape: not drawn.
    Other,
}

/// The draw primitive of a shape.
#[derive(Clone, Copy, Debug, PartialEq, Eq)]
pub enum Primitive {
    /// A filled disc at the body's position, of the ball's radius.
    FilledCircle,
    /// A rectangle with corners at the position plus and minus the half
    /// extents, turned about its centre by the body's angle.
    RotatedRect,
}

/// One draw call of a frame: which body, drawn as which primitive.
#[derive(Clone, Copy, Debug, PartialEq, Eq)]
pub struct DrawCall {
    /// Position of the body in the order in which the bodies were walked.
    pub body: usize,
    pub primitive: Primitive,
}

/// The primitive a shape is drawn with, if any.
pub open spec fn spec_primitive_of(shape: ShapeKind) -> Option<Primitive> {
    match shape {
        ShapeKind::Ball => Some(Primitive::FilledCircle),
        ShapeKind::Cuboid => Some(Primitive::RotatedRect),
        ShapeKind::Other => None,
    }
}

/// The draw call for the body at `index`, whose first collider has the shape
/// `first` (`None` for a body without colliders).
pub open spec fn call_for(index: int, first: Option<ShapeKind>) -> Option<DrawCall> {
    match first {
        Some(s) => match spec_primitive_of(s) {
            Some(p) => Some(DrawCall { body: index as usize, primitive: p }),
            None => None,
        },
        None => None,
    }
}

/// The draw calls of a frame over the first `n` bodies, in body order.
pub open spec fn calls_upto(bodies: Seq<Option<ShapeKind>>, n: int) -> Seq<DrawCall>
    decreases n,
{
    if n <= 0 {
        Seq::empty()
    } else {
        let prev = calls_upto(bodies, n - 1);
        match call_for(n - 1, bodies[n - 1]) {
            Some(c) => prev.push(c),
            None => prev,
        }
    }
}

/// The draw calls of a frame: one per body whose first collider is a ball or
/// a cuboid, in body order.
pub open spec fn draw_calls(bodies: Seq<Option<ShapeKind>>) -> Seq<DrawCall> {
    calls_upto(bodies, bodies.len() as int)
}

/// The bodies that get drawn: those whose first collider is a ball or a cuboid.
pub open spec fn drawable(first: Option<ShapeKind>) -> bool {
    call_for(0, first) is Some
}

/// The number of the first `n` bodies that get drawn.
pub open spec fn drawable_count(bodies: Seq<Option<ShapeKind>>, n: int) -> nat
    decreases n,
{
    if n <= 0 {
        0
    } else {
        drawable_count(bodies, n - 1) + if drawable(bodies[n - 1]) { 1nat } else { 0nat }
    }
}

/// The primitive of a shape: a ball is a filled circle, a cuboid a rotated
/// rectangle, and any other shape is skipped.
pub fn primitive_of(shape: ShapeKind) -> (r: Option<Primitive>)
    ensures
        r == spec_primitive_of(shape),
{
    match shape {
        ShapeKind::Ball => Some(Primitive::FilledCircle),
        ShapeKind::Cuboid => Some(Primitive::RotatedRect),
        ShapeKind::Other => None,
    }
}

/// The draw calls of a frame, from the shape of each body's first collider
/// (`None` for a body with no collider). Bodies that cannot be drawn are
/// skipped without error.
pub fn plan_draws(bodies: &Vec<Option<ShapeKind>>) -> (r: Vec<DrawCall>)
    ensures
        r@ == draw_calls(bodies@),
{
    let mut out: Vec<DrawCall> = Vec::new();
    let mut i: usize = 0;
    while i < bodies.len()
        invariant
            i <= bodies.len(),
            out@ == calls_upto(bodies@, i as int),
        decreases bodies.len() - i,
    {
        match bodies[i] {
            Some(shape) => match primitive_of(shape) {
                Some(p) => {
                    out.push(DrawCall { body: i, primitive: p });
                },
                None => {},
            },
            None => {},
        }
        i = i + 1;
    }
    out
}

/// Every body gets at most one draw call: a frame issues exactly as many draw
/// calls as there are bodies whose first collider is a ball or a cuboid, and
/// each call names such a body with its shape's primitive.
proof fn lemma_draw_calls_match_shapes(bodies: Seq<Option<ShapeKind>>, n: int)
    requires
        0 <= n <= bodies.len(),
        bodies.len() <= usize::MAX,
    ensures
        calls_upto(bodies, n).len() == drawable_count(bodies, n),
        forall|k: int|
            0 <= k < calls_upto(bodies, n).len() ==> {
                let c = #[trigger] calls_upto(bodies, n)[k];
                &&& 0 <= c.body < n
                &&& bodies[c.body as int] is Some
                &&& spec_primitive_of(bodies[c.body as int]->Some_0) == Some(c.primitive)
            },
    decreases n,
{
    if n > 0 {
        lemma_draw_calls_match_shapes(bodies, n - 1);
        let prev = calls_upto(bodies, n - 1);
        let cur = calls_upto(bodies, n);
        assert forall|k: int| 0 <= k < cur.len() implies {
            let c = #[trigger] cur[k];
            &&& 0 <= c.body < n
            &&& bodies[c.body as int] is Some
            &&& spec_primitive_of(bodies[c.body as int]->Some_0) == Some(c.primitive)
        } by {
            if k < prev.len() {
                assert(cur[k] == prev[k]);
            } else {
                assert(cur[k] == call_for(n - 1, bodies[n - 1])->Some_0);
            }
        }
    }
}

} // verus!

verus! {

/// Shape dispatch is total: the draw calls of a frame are as many as the
/// bodies whose first collider is a ball or a cuboid, bodies without a
/// collider and with another shape add none, and each call draws its body
/// with the primitive of that body's shape.
pub proof fn lemma_dispatch_total(bodies: Seq<Option<ShapeKind>>)
    requires
        bodies.len() <= usize::MAX,
    ensures
        draw_calls(bodies).len() == drawable_count(bodies, bodies.len() as int),
        forall|k: int|
            0 <= k < draw_calls(bodies).len() ==> {
                let c = #[trigger] draw_calls(bodies)[k];
                &&& 0 <= c.body < bodies.len()
                &&& bodies[c.body as int] is Some
                &&& spec_primitive_of(bodies[c.body as int]->Some_0) == Some(c.primitive)
            },
{
    lemma_draw_calls_match_shapes(bodies, bodies.len() as int);
}

} // verus!
