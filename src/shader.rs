use vstd::prelude::*;
use vstd::string::*;

use crate::cstr::{has_nul, to_c_bytes};
use crate::error::GlError;
use crate::live::LiveSet;
use crate::AsRaw;

verus! {

/// The native constant for the fragment stage.
pub const FRAGMENT_SHADER: u32 = 0x8B30;
/// The native constant for the vertex stage.
pub const VERTEX_SHADER: u32 = 0x8B31;

/// The value of a false status flag.
pub const FALSE: i32 = 0;

/// A shader stage.
#[derive(Debug, Clone, Copy, PartialEq, Eq)]
pub enum ShaderKind {
    Fragment,
    Vertex,
}

/// The native constant of each stage.
pub open spec fn stage_constant(kind: ShaderKind) -> u32 {
    match kind {
        ShaderKind::Fragment => FRAGMENT_SHADER,
        ShaderKind::Vertex => VERTEX_SHADER,
    }
}

impl ShaderKind {
    /// The stage constant to hand to the native shader constructor.
    pub fn native_stage(&self) -> (r: u32)
        ensures
            r == stage_constant(*self),
    {
        match self {
            ShaderKind::Fragment => FRAGMENT_SHADER,
            ShaderKind::Vertex => VERTEX_SHADER,
        }
    }
}

/// The diagnostic text in an info-log buffer: exactly the first `reported`
/// bytes, as many as the buffer holds, with no scan for a NUL byte.
pub open spec fn log_text_of(buf: Seq<u8>, reported: int) -> Seq<u8> {
    let n = if reported < 0 {
        0
    } else if reported > buf.len() {
        buf.len() as int
    } else {
        reported
    };
    buf.subrange(0, n)
}

/// Takes the diagnostic text out of a buffer that the driver filled, given
/// the length that its info-log-length query reported.
pub fn log_text(buf: &Vec<u8>, reported: i32) -> (r: Vec<u8>)
    ensures
        r@ == log_text_of(buf@, reported as int),
{
    let n: usize = if reported < 0 {
        0
    } else if reported as usize > buf.len() {
        buf.len()
    } else {
        reported as usize
    };
    let mut r: Vec<u8> = Vec::new();
    let mut i: usize = 0;
    while i < n
        invariant
            n <= buf@.len(),
            i <= n,
            r@ == buf@.subrange(0, i as int),
        decreases n - i,
    {
        r.push(buf[i]);
        i = i + 1;
    }
    r
}

/// When the driver fills the buffer to the length it reported, the
/// diagnostic text is exactly those bytes, of exactly that length, and is
/// non-empty whenever that length is.
pub proof fn lemma_log_text_length(buf: Seq<u8>, reported: int)
    requires
        0 <= reported <= buf.len(),
    ensures
        log_text_of(buf, reported).len() == reported,
        log_text_of(buf, reported) == buf.subrange(0, reported),
        reported >= 1 ==> log_text_of(buf, reported).len() > 0,
        reported == buf.len() ==> log_text_of(buf, reported) == buf,
{
    assert(buf.subrange(0, buf.len() as int) =~= buf);
}

/// A compiled shader object, identified by a nonzero native identifier.
#[derive(Debug)]
pub struct Shader {
    inner: u32,
}

/// What the native compiler is to be given for one shader.
#[derive(Debug)]
pub struct CompileRequest {
    /// The stage constant for the native shader constructor.
    pub stage: u32,
    /// The NUL-terminated source text.
    pub source: Vec<u8>,
}

impl Shader {
    /// The native identifier of this shader.
    pub closed spec fn id(&self) -> u32 {
        self.inner
    }

    #[verifier::type_invariant]
    spec fn nonzero(&self) -> bool {
        self.inner != 0
    }

    /// Prepares the compilation of `source` for stage `kind`. Fails with
    /// `Encoding` when the source holds a NUL byte; nothing native is
    /// allocated before this succeeds.
    pub fn new(kind: ShaderKind, source: &str) -> (r: Result<CompileRequest, GlError>)
        ensures
            r is Err <==> has_nul(source.spec_bytes()),
            r matches Err(e) ==> e == GlError::Encoding,
            r matches Ok(q) ==> q.stage == stage_constant(kind) && q.source@ == source.spec_bytes().push(
                0u8,
            ),
    {
        match to_c_bytes(source) {
            None => Err(GlError::Encoding),
            Some(bytes) => Ok(CompileRequest { stage: kind.native_stage(), source: bytes }),
        }
    }
}

impl CompileRequest {
    /// Turns what the driver reported after compiling this request into a
    /// shader handle or an error. A new handle's identifier joins the live
    /// shaders `live`; one that is zero or already live is refused.
    pub fn finish(self, live: &mut LiveSet, id: u32, status: i32, log: &Vec<u8>, reported: i32) -> (r:
        Result<Shader, GlError>)
        ensures
            id == 0 ==> r matches Err(GlError::NativeApi),
            id != 0 && status == FALSE ==> (r matches Err(GlError::Compile(t)) && t@ == log_text_of(
                log@,
                reported as int,
            )),
            id != 0 && status != FALSE ==> (r is Ok <==> !old(live)@.contains(id)),
            id != 0 && status != FALSE && old(live)@.contains(id) ==> r matches Err(GlError::NativeApi),
            r matches Ok(s) ==> s.id() == id && id != 0 && final(live)@ == old(live)@.insert(id),
            r is Err ==> final(live)@ == old(live)@,
    {
        if id == 0 {
            Err(GlError::NativeApi)
        } else if status == FALSE {
            Err(GlError::Compile(log_text(log, reported)))
        } else {
            match live.claim(id) {
                Ok(()) => Ok(Shader { inner: id }),
                Err(e) => Err(e),
            }
        }
    }
}

impl Shader {
    /// Gives up this handle: its identifier, to hand to the native delete
    /// call, leaves the live shaders. The handle is consumed, so it cannot be
    /// released twice.
    pub fn release(self, live: &mut LiveSet) -> (r: u32)
        ensures
            r == self.id(),
            final(live)@ == old(live)@.remove(r),
            old(live)@.contains(r) ==> final(live).count() + 1 == old(live).count(),
    {
        live.release(self.inner);
        self.inner
    }
}

impl AsRaw<u32> for Shader {
    open spec fn raw_spec(&self) -> u32 {
        self.id()
    }

    fn as_raw(&self) -> (r: u32) {
        self.inner
    }
}

/// The NUL-terminated form of a name handed to the native API (an output
/// or attribute variable), or `Encoding` when it holds a NUL byte.
pub fn c_name(name: &str) -> (r: Result<Vec<u8>, GlError>)
    ensures
        r is Err <==> has_nul(name.spec_bytes()),
        r matches Err(e) ==> e == GlError::Encoding,
        r matches Ok(v) ==> v@ == name.spec_bytes().push(0u8),
{
    match to_c_bytes(name) {
        None => Err(GlError::Encoding),
        Some(bytes) => Ok(bytes),
    }
}

/// The identifiers of `shaders`, in order.
pub open spec fn shader_ids(shaders: Seq<Shader>) -> Seq<u32> {
    shaders.map_values(|s: Shader| s.id())
}

/// A linked program object, identified by a nonzero native identifier.
#[derive(Debug)]
pub struct Program {
    inner: u32,
}

/// The shaders to attach to a new program object, in attachment order.
#[derive(Debug)]
pub struct LinkRequest {
    pub order: Vec<u32>,
}

/// The output slot that a fragment output name is bound to.
pub const FRAGDATA_SLOT: u32 = 0;

impl Program {
    /// The native identifier of this program.
    pub closed spec fn id(&self) -> u32 {
        self.inner
    }

    #[verifier::type_invariant]
    spec fn nonzero(&self) -> bool {
        self.inner != 0
    }

    /// Prepares the linking of `shaders`: they are to be attached in the
    /// order given. Fails with `NoShaders` when there is none.
    pub fn create(shaders: &[Shader]) -> (r: Result<LinkRequest, GlError>)
        ensures
            r is Err <==> shaders@.len() == 0,
            r matches Err(e) ==> e == GlError::NoShaders,
            r matches Ok(q) ==> q.order@ == shader_ids(shaders@),
    {
        if shaders.len() == 0 {
            return Err(GlError::NoShaders);
        }
        let mut raw: Vec<u32> = Vec::new();
        let mut i: usize = 0;
        while i < shaders.len()
            invariant
                i <= shaders@.len(),
                raw@ == shader_ids(shaders@.subrange(0, i as int)),
            decreases shaders@.len() - i,
        {
            proof {
                assert(shaders@.subrange(0, i + 1) == shaders@.subrange(0, i as int).push(shaders@[i as int]));
            }
            raw.push(shaders[i].inner);
            i = i + 1;
        }
        proof {
            assert(shaders@.subrange(0, shaders@.len() as int) == shaders@);
        }
        Ok(LinkRequest { order: raw })
    }
}

impl LinkRequest {
    /// Turns what the driver reported after linking into a program handle
    /// or an error. A new handle's identifier joins the live programs
    /// `live`; one that is zero or already live is refused.
    pub fn finish(self, live: &mut LiveSet, id: u32, status: i32, log: &Vec<u8>, reported: i32) -> (r:
        Result<Program, GlError>)
        ensures
            id == 0 ==> r matches Err(GlError::NativeApi),
            id != 0 && status == FALSE ==> (r matches Err(GlError::Link(t)) && t@ == log_text_of(
                log@,
                reported as int,
            )),
            id != 0 && status != FALSE ==> (r is Ok <==> !old(live)@.contains(id)),
            id != 0 && status != FALSE && old(live)@.contains(id) ==> r matches Err(GlError::NativeApi),
            r matches Ok(p) ==> p.id() == id && id != 0 && final(live)@ == old(live)@.insert(id),
            r is Err ==> final(live)@ == old(live)@,
    {
        if id == 0 {
            Err(GlError::NativeApi)
        } else if status == FALSE {
            Err(GlError::Link(log_text(log, reported)))
        } else {
            match live.claim(id) {
                Ok(()) => Ok(Program { inner: id }),
                Err(e) => Err(e),
            }
        }
    }
}

impl Program {
    /// Gives up this handle: its identifier, to hand to the native delete
    /// call, leaves the live programs. The handle is consumed, so it cannot
    /// be released twice.
    pub fn release(self, live: &mut LiveSet) -> (r: u32)
        ensures
            r == self.id(),
            final(live)@ == old(live)@.remove(r),
            old(live)@.contains(r) ==> final(live).count() + 1 == old(live).count(),
    {
        live.release(self.inner);
        self.inner
    }
}

impl AsRaw<u32> for Program {
    open spec fn raw_spec(&self) -> u32 {
        self.id()
    }

    fn as_raw(&self) -> (r: u32) {
        self.inner
    }
}

/// The index of a vertex attribute in a linked program; never negative.
#[derive(Clone, Copy, Debug, PartialEq, Eq)]
pub struct AttributeLocation {
    inner: i32,
}

/// The sentinel the driver returns for a name that the program lacks.
pub const NO_LOCATION: i32 = -1;

impl AttributeLocation {
    /// The location's index as the driver reported it.
    pub closed spec fn value(&self) -> i32 {
        self.inner
    }

    /// Reads the driver's answer to an attribute-location query: a negative
    /// answer (the sentinel among them) means the name is absent.
    pub fn from_native(raw: i32) -> (r: Option<AttributeLocation>)
        ensures
            r is None <==> raw < 0,
            r matches Some(l) ==> l.value() == raw,
    {
        if raw < 0 {
            None
        } else {
            Some(AttributeLocation { inner: raw })
        }
    }

    #[verifier::type_invariant]
    spec fn non_negative(&self) -> bool {
        self.inner >= 0
    }

    /// The attribute index to enable and to describe.
    pub fn index(&self) -> (r: u32)
        ensures
            r as int == self.value() as int,
    {
        proof {
            use_type_invariant(self);
        }
        self.inner as u32
    }
}

/// The native constant for 32-bit float components.
pub const FLOAT: u32 = 0x1406;

/// How a vertex attribute's data lies in the bound buffer.
#[derive(Debug, Clone, Copy, PartialEq, Eq)]
pub struct VertexLayout {
    /// Components per vertex.
    pub size: i32,
    /// The native type constant of a component.
    pub component: u32,
    pub normalized: bool,
    /// Bytes between consecutive vertices; zero means tightly packed.
    pub stride: i32,
    /// Byte offset of the first vertex in the buffer.
    pub offset: usize,
}

impl VertexLayout {
    /// Two float components per vertex, not normalized, tightly packed from
    /// the start of the buffer.
    pub fn two_floats() -> (r: VertexLayout)
        ensures
            r.size == 2,
            r.component == FLOAT,
            !r.normalized,
            r.stride == 0,
            r.offset == 0,
    {
        VertexLayout { size: 2, component: FLOAT, normalized: false, stride: 0, offset: 0 }
    }
}

} // verus!
