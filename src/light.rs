//! Light sources and their fixed-layout uniform form.
use vstd::prelude::*;

verus! {

/// Number of 32-bit words in the raw form of a light.
pub const LIGHT_WORDS: usize = 8;

/// A point light. Each component is the bit pattern of an IEEE-754 binary32 float.
#[derive(Debug, Copy, Clone, PartialEq, Eq)]
pub struct Light {
    pub position: [u32; 3],
    pub colour: [u32; 3],
}

/// The uniform form of a light: two four-component vectors, as the shader's uniform
/// layout aligns them. The fourth word of each is zero.
#[derive(Debug, Copy, Clone, PartialEq, Eq)]
pub struct LightRaw {
    pub position: [u32; 4],
    pub colour: [u32; 4],
}

/// The words of a light's uniform form, in buffer order.
pub open spec fn light_raw_words(l: Light) -> Seq<u32> {
    seq![l.position[0], l.position[1], l.position[2], 0u32,
         l.colour[0], l.colour[1], l.colour[2], 0u32]
}

/// The light that a uniform form describes.
pub open spec fn light_of_raw(r: LightRaw) -> Light {
    Light {
        position: [r.position[0], r.position[1], r.position[2]],
        colour: [r.colour[0], r.colour[1], r.colour[2]],
    }
}

impl Light {
    pub fn new(position: [u32; 3], colour: [u32; 3]) -> (r: Self)
        ensures
            r.position == position,
            r.colour == colour,
    {
        Light { position, colour }
    }

    pub fn position(&self) -> (r: [u32; 3])
        ensures
            r == self.position,
    {
        self.position
    }

    pub fn colour(&self) -> (r: [u32; 3])
        ensures
            r == self.colour,
    {
        self.colour
    }

    /// The uniform form of this light.
    pub fn to_raw(&self) -> (r: LightRaw)
        ensures
            r.words_spec() == light_raw_words(*self),
    {
        let r = LightRaw {
            position: [self.position[0], self.position[1], self.position[2], 0],
            colour: [self.colour[0], self.colour[1], self.colour[2], 0],
        };
        assert(r.words_spec() =~= light_raw_words(*self));
        r
    }
}

impl LightRaw {
    /// The words of this uniform form, in buffer order.
    pub open spec fn words_spec(self) -> Seq<u32> {
        self.position@ + self.colour@
    }

    /// Size of the uniform form in bytes, eight 4-byte words.
    pub fn sizeof() -> (r: usize)
        ensures
            r == 32,
            r == LIGHT_WORDS * 4,
    {
        LIGHT_WORDS * 4
    }

    /// The words of this uniform form, in buffer order.
    pub fn words(&self) -> (r: [u32; 8])
        ensures
            r@ == self.words_spec(),
    {
        let r = [
            self.position[0], self.position[1], self.position[2], self.position[3],
            self.colour[0], self.colour[1], self.colour[2], self.colour[3],
        ];
        assert(r@ =~= self.words_spec());
        r
    }

    /// Reads the light back from its uniform form.
    pub fn light(&self) -> (r: Light)
        ensures
            r == light_of_raw(*self),
    {
        Light {
            position: [self.position[0], self.position[1], self.position[2]],
            colour: [self.colour[0], self.colour[1], self.colour[2]],
        }
    }
}

/// Reading a light back from the uniform form that `to_raw` builds gives the light
/// itself: the packing loses nothing.
pub proof fn lemma_light_raw_round_trip(l: Light, r: LightRaw)
    requires
        r.words_spec() == light_raw_words(l),
    ensures
        light_of_raw(r) == l,
        r.words_spec().len() == LIGHT_WORDS,
{
    let w = r.words_spec();
    assert(w[0] == l.position[0] && w[1] == l.position[1] && w[2] == l.position[2]);
    assert(w[4] == l.colour[0] && w[5] == l.colour[1] && w[6] == l.colour[2]);
    assert(r.position[0] == w[0] && r.position[1] == w[1] && r.position[2] == w[2]);
    assert(r.colour[0] == w[4] && r.colour[1] == w[5] && r.colour[2] == w[6]);
    assert(light_of_raw(r).position =~= l.position);
    assert(light_of_raw(r).colour =~= l.colour);
}

} // verus!
