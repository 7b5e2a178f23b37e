use vstd::prelude::*;

use crate::point::Point;
use crate::ring::{ElixirRing, Ring};

verus! {

/// The points of each ring of a sequence, in order.
pub open spec fn ring_points(rings: Seq<Ring>) -> Seq<Seq<Point>> {
    rings.map_values(|r: Ring| r@)
}

/// The points of each external ring of a sequence, in order.
pub open spec fn elixir_ring_points(rings: Seq<ElixirRing>) -> Seq<Seq<Point>> {
    rings.map_values(|r: ElixirRing| r@)
}

/// What decoding a sequence of external rings gives: the same rings as a
/// polygon, or `BadArg` when the sequence is empty.
pub open spec fn decode_result(rings: Seq<Seq<Point>>) -> Result<Seq<Seq<Point>>, PolyError> {
    if rings.len() == 0 {
        Err(PolyError::BadArg)
    } else {
        Ok(rings)
    }
}

/// Why external polygon data was refused.
#[derive(Clone, Copy, Debug, PartialEq, Eq, Structural)]
pub enum PolyError {
    /// The data is not an acceptable polygon: its sequence of rings is empty.
    BadArg,
}

/// A polygon: an ordered sequence of rings that is never empty.
/// The first ring is the primary one.
#[derive(Debug, PartialEq, Eq)]
pub struct Poly {
    rings: Vec<Ring>,
}

/// A polygon in the form exchanged with the host runtime: an ordered,
/// non-empty sequence of external rings.
#[derive(Debug, PartialEq, Eq)]
pub struct ElixirPoly {
    rings: Vec<ElixirRing>,
}

impl View for Poly {
    type V = Seq<Seq<Point>>;

    closed spec fn view(&self) -> Seq<Seq<Point>> {
        ring_points(self.rings@)
    }
}

impl View for ElixirPoly {
    type V = Seq<Seq<Point>>;

    closed spec fn view(&self) -> Seq<Seq<Point>> {
        elixir_ring_points(self.rings@)
    }
}

impl Poly {
    /// A polygon is well formed when it holds at least one ring.
    pub closed spec fn wf(&self) -> bool {
        self.rings.len() > 0
    }

    /// The number of rings; every polygon holds at least one.
    pub fn ring_count(&self) -> (n: usize)
        ensures
            n == self@.len(),
            self.wf() ==> n >= 1,
    {
        self.rings.len()
    }

    /// The primary ring, at position 0.
    pub fn first_ring(&self) -> (r: &Ring)
        requires
            self.wf(),
        ensures
            r@ == self@[0],
    {
        &self.rings[0]
    }

    /// Adds a ring at the end; the rings already held keep their order.
    pub fn push(&mut self, ring: Ring)
        requires
            old(self).wf(),
        ensures
            final(self).wf(),
            final(self)@ == old(self)@.push(ring@),
            final(self)@.len() == old(self)@.len() + 1,
            final(self)@.last() == ring@,
            forall|i: int| 0 <= i < old(self)@.len() ==> #[trigger] final(self)@[i] == old(self)@[i],
    {
        let ghost before = self.rings@;
        self.rings.push(ring);
        proof {
            assert(self.rings@ =~= before.push(ring));
            assert(ring_points(self.rings@) =~= ring_points(before).push(ring@));
        }
    }
}

impl From<Ring> for Poly {
    fn from(ring: Ring) -> (r: Poly)
        ensures
            r.wf(),
            r@ == seq![ring@],
    {
        let r = Poly { rings: vec![ring] };
        assert(r@ =~= seq![ring@]);
        r
    }
}

impl ElixirPoly {
    /// An external polygon is well formed when it holds at least one ring.
    pub closed spec fn wf(&self) -> bool {
        self.rings.len() > 0
    }

    /// Accepts a decoded sequence of external rings as a polygon, in the
    /// same order. An empty sequence is refused before anything is built.
    pub fn decode(rings: Vec<ElixirRing>) -> (r: Result<ElixirPoly, PolyError>)
        ensures
            r is Err <==> rings@.len() == 0,
            r matches Err(e) ==> decode_result(elixir_ring_points(rings@)) == Err::<
                Seq<Seq<Point>>,
                PolyError,
            >(e),
            r matches Ok(p) ==> p.wf() && decode_result(elixir_ring_points(rings@)) == Ok::<
                Seq<Seq<Point>>,
                PolyError,
            >(p@),
    {
        if rings.len() == 0 {
            return Err(PolyError::BadArg);
        }
        Ok(ElixirPoly { rings })
    }

    /// The external rings, in order, as they are handed to the host runtime.
    pub fn rings(&self) -> (r: &Vec<ElixirRing>)
        ensures
            self.wf() ==> r@.len() >= 1,
            elixir_ring_points(r@) == self@,
    {
        &self.rings
    }
}

impl From<Poly> for ElixirPoly {
    fn from(value: Poly) -> (r: ElixirPoly)
        ensures
            r.wf() == value.wf(),
            r@ == value@,
    {
        let ghost src = value.rings@;
        let mut rings: Vec<ElixirRing> = Vec::new();
        for ring in it: value.rings.into_iter()
            invariant
                it.seq() == src,
                elixir_ring_points(rings@) == ring_points(src.take(it.index() as int)),
        {
            let ghost done = rings@;
            rings.push(ElixirRing::from(ring));
            proof {
                assert(src.take(it.index() + 1) =~= src.take(it.index() as int).push(ring));
                assert(elixir_ring_points(rings@) =~= elixir_ring_points(done).push(ring@));
                assert(ring_points(src.take(it.index() + 1)) =~= ring_points(
                    src.take(it.index() as int),
                ).push(ring@));
            }
        }
        assert(src.take(src.len() as int) =~= src);
        ElixirPoly { rings }
    }
}

impl From<ElixirPoly> for Poly {
    fn from(value: ElixirPoly) -> (r: Poly)
        ensures
            r.wf() == value.wf(),
            r@ == value@,
    {
        let ghost src = value.rings@;
        let mut rings: Vec<Ring> = Vec::new();
        for ring in it: value.rings.into_iter()
            invariant
                it.seq() == src,
                ring_points(rings@) == elixir_ring_points(src.take(it.index() as int)),
        {
            let ghost done = rings@;
            rings.push(Ring::from(ring));
            proof {
                assert(src.take(it.index() + 1) =~= src.take(it.index() as int).push(ring));
                assert(ring_points(rings@) =~= ring_points(done).push(ring@));
                assert(elixir_ring_points(src.take(it.index() + 1)) =~= elixir_ring_points(
                    src.take(it.index() as int),
                ).push(ring@));
            }
        }
        assert(src.take(src.len() as int) =~= src);
        Poly { rings }
    }
}

/// A well-formed polygon holds at least one ring.
pub proof fn lemma_poly_has_rings(p: &Poly)
    requires
        p.wf(),
    ensures
        p@.len() >= 1,
{
}

/// A well-formed external polygon holds at least one ring.
pub proof fn lemma_elixir_poly_has_rings(p: &ElixirPoly)
    requires
        p.wf(),
    ensures
        p@.len() >= 1,
{
}

/// Encoding a well-formed polygon and decoding the result gives back a
/// polygon with the same rings in the same order: an external polygon with
/// the same rings is well formed, and decoding its rings accepts them
/// unchanged.
pub proof fn lemma_round_trip(p: &Poly, e: &ElixirPoly)
    requires
        p.wf(),
        e@ == p@,
    ensures
        e.wf(),
        decode_result(e@) == Ok::<Seq<Seq<Point>>, PolyError>(p@),
{
}

/// A polygon that holds exactly one ring is well formed, and that ring is its
/// first ring.
pub proof fn lemma_promote(p: &Poly, ring: Seq<Point>)
    requires
        p@ == seq![ring],
    ensures
        p.wf(),
        p@.len() == 1,
        p@[0] == ring,
{
    assert(p@.len() == p.rings@.len());
}

// The result of each conversion is stated by the impl's own `ensures`, over
// views; no spec function builds a `Vec`, so none is offered here.
impl vstd::std_specs::convert::FromSpecImpl<Ring> for Poly {
    open spec fn obeys_from_spec() -> bool {
        false
    }

    open spec fn from_spec(v: Ring) -> Poly {
        arbitrary()
    }
}

impl vstd::std_specs::convert::FromSpecImpl<ElixirPoly> for Poly {
    open spec fn obeys_from_spec() -> bool {
        false
    }

    open spec fn from_spec(v: ElixirPoly) -> Poly {
        arbitrary()
    }
}

impl vstd::std_specs::convert::FromSpecImpl<Poly> for ElixirPoly {
    open spec fn obeys_from_spec() -> bool {
        false
    }

    open spec fn from_spec(v: Poly) -> ElixirPoly {
        arbitrary()
    }
}

} // verus!
