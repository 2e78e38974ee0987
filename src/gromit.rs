//! Super simple geometry: the vertex record and the capability of yielding geometry.
use vstd::prelude::*;

pub mod bunch;

verus! {

/// Number of 32-bit words in the raw form of a vertex.
pub const VERTEX_WORDS: usize = 9;

/// Final vertex data ready for consumption by the video device. Each component is the bit
/// pattern of an IEEE-754 binary32 float, so the record is laid out as nine 4-byte words:
/// position at byte 0, normal at byte 12, colour at byte 24.
#[derive(Debug, Copy, Clone, PartialEq, Eq)]
pub struct Vertex {
    pub position: [u32; 3],
    pub normal: [u32; 3],
    pub colour: [u32; 3],
}

/// The raw form of a vertex: its three fields one after another.
pub open spec fn vertex_raw(v: Vertex) -> Seq<u32> {
    v.position@ + v.normal@ + v.colour@
}

/// The vertex that a raw form of nine words describes.
pub open spec fn vertex_of_raw(raw: Seq<u32>) -> Vertex {
    Vertex {
        position: [raw[0], raw[1], raw[2]],
        normal: [raw[3], raw[4], raw[5]],
        colour: [raw[6], raw[7], raw[8]],
    }
}

impl Vertex {
    pub fn new(position: [u32; 3], normal: [u32; 3], colour: [u32; 3]) -> (r: Self)
        ensures
            r.position == position,
            r.normal == normal,
            r.colour == colour,
    {
        Vertex { position, normal, colour }
    }

    /// Size of a vertex in bytes, nine 4-byte words: the stride of the vertex buffer.
    pub fn sizeof() -> (r: usize)
        ensures
            r == 36,
            r == VERTEX_WORDS * 4,
    {
        VERTEX_WORDS * 4
    }

    pub fn position(&self) -> (r: [u32; 3])
        ensures
            r == self.position,
    {
        self.position
    }

    pub fn normal(&self) -> (r: [u32; 3])
        ensures
            r == self.normal,
    {
        self.normal
    }

    pub fn colour(&self) -> (r: [u32; 3])
        ensures
            r == self.colour,
    {
        self.colour
    }

    /// The raw form: position, normal and colour, three words each.
    pub fn to_raw(&self) -> (r: [u32; 9])
        ensures
            r@ == vertex_raw(*self),
    {
        let r = [
            self.position[0], self.position[1], self.position[2],
            self.normal[0], self.normal[1], self.normal[2],
            self.colour[0], self.colour[1], self.colour[2],
        ];
        assert(r@ =~= vertex_raw(*self));
        r
    }

    /// Reads a vertex back from its raw form.
    pub fn from_raw(raw: [u32; 9]) -> (r: Vertex)
        ensures
            r == vertex_of_raw(raw@),
    {
        Vertex {
            position: [raw[0], raw[1], raw[2]],
            normal: [raw[3], raw[4], raw[5]],
            colour: [raw[6], raw[7], raw[8]],
        }
    }
}

/// Reading a vertex back from its raw form gives the vertex itself: the packing loses
/// nothing.
pub proof fn lemma_vertex_raw_round_trip(v: Vertex)
    ensures
        vertex_of_raw(vertex_raw(v)) == v,
        vertex_raw(v).len() == VERTEX_WORDS,
{
    let w = vertex_raw(v);
    let back = vertex_of_raw(w);
    assert(back.position =~= v.position);
    assert(back.normal =~= v.normal);
    assert(back.colour =~= v.colour);
}

/// A source of triangulated geometry: a vertex list and a triangle index list. Every index
/// is meant to be below the number of vertices, and the indices come in groups of three;
/// neither is checked here.
pub trait Geometry {
    /// What `geometry` yields: the same for every call on one value.
    spec fn spec_geometry(&self) -> (Seq<Vertex>, Seq<u16>);

    fn geometry(&self) -> (r: (Vec<Vertex>, Vec<u16>))
        ensures
            r.0@ == self.spec_geometry().0,
            r.1@ == self.spec_geometry().1,
    ;
}

} // verus!
