//! Compiled shader bytecode: SPIR-V modules handed over as bytes.
use vstd::prelude::*;

verus! {

/// The first word of every SPIR-V module.
pub const SPIRV_MAGIC: u32 = 0x0723_0203;

/// The `i`-th 32-bit word of `b`, read least significant byte first.
pub open spec fn le_word(b: Seq<u8>, i: int) -> u32 {
    (b[4 * i] as int + b[4 * i + 1] as int * 256 + b[4 * i + 2] as int * 65536
        + b[4 * i + 3] as int * 16777216) as u32
}

/// The `i`-th 32-bit word of `b`, read most significant byte first.
pub open spec fn be_word(b: Seq<u8>, i: int) -> u32 {
    (b[4 * i + 3] as int + b[4 * i + 2] as int * 256 + b[4 * i + 1] as int * 65536
        + b[4 * i] as int * 16777216) as u32
}

/// The bytes start with the SPIR-V magic number, in either byte order.
pub open spec fn spirv_has_magic(b: Seq<u8>) -> bool {
    b.len() >= 4 && (le_word(b, 0) == SPIRV_MAGIC || be_word(b, 0) == SPIRV_MAGIC)
}

/// The bytes can be taken as a SPIR-V module: they start with the magic number and come
/// in whole 32-bit words.
pub open spec fn spirv_well_formed(b: Seq<u8>) -> bool {
    spirv_has_magic(b) && b.len() % 4 == 0
}

/// The words of a SPIR-V module, in the byte order that puts the magic number first.
pub open spec fn spirv_words(b: Seq<u8>) -> Seq<u32> {
    Seq::new(
        (b.len() / 4) as nat,
        |i: int|
            if le_word(b, 0) == SPIRV_MAGIC {
                le_word(b, i)
            } else {
                be_word(b, i)
            },
    )
}

/// Why a byte buffer is not a SPIR-V module.
#[derive(Debug, Copy, Clone, PartialEq, Eq, Structural)]
pub enum SpirvError {
    /// It does not start with the SPIR-V magic number (an empty buffer among them).
    MagicNumber,
    /// Its length is not a multiple of four bytes.
    Length,
}

/// Shader bytecode that cannot be used, with the stage it was handed for.
#[derive(Debug, Copy, Clone, PartialEq, Eq, Structural)]
pub enum ShaderCompilationError {
    Vertex(SpirvError),
    Fragment(SpirvError),
}

/// What is wrong with bytes that are not a well-formed SPIR-V module.
pub open spec fn spirv_error(b: Seq<u8>) -> SpirvError {
    if !spirv_has_magic(b) {
        SpirvError::MagicNumber
    } else {
        SpirvError::Length
    }
}

/// The error for a pair of modules of which one is not well formed; the vertex module is
/// looked at first.
pub open spec fn shader_error(vert: Seq<u8>, frag: Seq<u8>) -> ShaderCompilationError {
    if !spirv_well_formed(vert) {
        ShaderCompilationError::Vertex(spirv_error(vert))
    } else {
        ShaderCompilationError::Fragment(spirv_error(frag))
    }
}

/// Relies on wgpu::util::make_spirv_raw: on bytes that start with the SPIR-V magic number
/// and come in whole words, it returns the words in the byte order that puts the magic
/// number first; on other bytes it panics.
#[verifier::external_body]
fn spirv_to_words(bytes: &[u8]) -> (r: Vec<u32>)
    requires
        spirv_well_formed(bytes@),
    ensures
        r@ == spirv_words(bytes@),
{
    wgpu::util::make_spirv_raw(bytes).into_owned()
}

/// Checks that `bytes` can be taken as a SPIR-V module.
pub fn check_spirv(bytes: &[u8]) -> (r: Result<(), SpirvError>)
    ensures
        r is Ok <==> spirv_well_formed(bytes@),
        r is Err ==> r == Err::<(), SpirvError>(spirv_error(bytes@)),
{
    if bytes.len() < 4 {
        return Err(SpirvError::MagicNumber);
    }
    let b0 = bytes[0] as u32;
    let b1 = bytes[1] as u32;
    let b2 = bytes[2] as u32;
    let b3 = bytes[3] as u32;
    let le = b0 + b1 * 256 + b2 * 65536 + b3 * 16777216;
    let be = b3 + b2 * 256 + b1 * 65536 + b0 * 16777216;
    assert(le == le_word(bytes@, 0));
    assert(be == be_word(bytes@, 0));
    if le != SPIRV_MAGIC && be != SPIRV_MAGIC {
        return Err(SpirvError::MagicNumber);
    }
    if bytes.len() % 4 != 0 {
        return Err(SpirvError::Length);
    }
    Ok(())
}

/// Reads a SPIR-V module into its 32-bit words.
pub fn read_spirv(bytes: &[u8]) -> (r: Result<Vec<u32>, SpirvError>)
    ensures
        r is Ok <==> spirv_well_formed(bytes@),
        r matches Ok(w) ==> w@ == spirv_words(bytes@),
        r matches Err(e) ==> e == spirv_error(bytes@),
{
    match check_spirv(bytes) {
        Ok(()) => Ok(spirv_to_words(bytes)),
        Err(e) => Err(e),
    }
}

/// Compiled vertex and fragment shader bytecode, as a user of the builder supplies it.
pub trait CompiledShaders {
    spec fn spec_vertex(&self) -> Seq<u8>;

    spec fn spec_fragment(&self) -> Seq<u8>;

    fn vertex(&self) -> (r: &[u8])
        ensures
            r@ == self.spec_vertex(),
    ;

    fn fragment(&self) -> (r: &[u8])
        ensures
            r@ == self.spec_fragment(),
    ;
}

/// Shader bytecode held in memory.
#[derive(Debug, Clone)]
pub struct Shaders {
    pub vertex: Vec<u8>,
    pub fragment: Vec<u8>,
}

impl Shaders {
    pub fn new(vertex: Vec<u8>, fragment: Vec<u8>) -> (r: Self)
        ensures
            r.vertex@ == vertex@,
            r.fragment@ == fragment@,
    {
        Shaders { vertex, fragment }
    }
}

impl CompiledShaders for Shaders {
    open spec fn spec_vertex(&self) -> Seq<u8> {
        self.vertex@
    }

    open spec fn spec_fragment(&self) -> Seq<u8> {
        self.fragment@
    }

    fn vertex(&self) -> (r: &[u8]) {
        self.vertex.as_slice()
    }

    fn fragment(&self) -> (r: &[u8]) {
        self.fragment.as_slice()
    }
}

} // verus!
