use vstd::prelude::*;

use crate::error::GlError;
use crate::live::LiveSet;
use crate::AsRaw;

verus! {

/// The size in bytes of one 32-bit float component.
pub const FLOAT_SIZE: usize = 4;

/// The usage hint for data written once from the CPU and drawn often.
pub const STATIC_DRAW: u32 = 0x88E4;

/// The binding target of vertex data.
pub const ARRAY_BUFFER: u32 = 0x8892;

/// A buffer object, owned by the vertex array it was generated with.
#[derive(Debug)]
pub struct Vbo {
    inner: u32,
}

/// A vertex array object together with the one buffer it owns.
#[derive(Debug)]
pub struct Vao {
    inner: u32,
    vbo: Vbo,
}

impl Vbo {
    /// The native identifier of this buffer.
    pub closed spec fn id(&self) -> u32 {
        self.inner
    }

    /// The byte size to hand to the native upload call for `len` floats, or
    /// `None` where it does not fit the native signed size type.
    pub fn data_size(len: usize) -> (r: Option<isize>)
        ensures
            r is None <==> len * FLOAT_SIZE > isize::MAX,
            r matches Some(n) ==> n == len * FLOAT_SIZE,
    {
        if len > (isize::MAX as usize) / FLOAT_SIZE {
            None
        } else {
            Some((len * FLOAT_SIZE) as isize)
        }
    }
}

impl Vao {
    /// The native identifier of this vertex array.
    pub closed spec fn id(&self) -> u32 {
        self.inner
    }

    /// The buffer this vertex array owns.
    pub closed spec fn buffer(&self) -> Vbo {
        self.vbo
    }

    /// Pairs a freshly generated vertex array with a freshly generated
    /// buffer; their identifiers join the live arrays `arrays` and the live
    /// buffers `buffers`. A zero identifier means the driver generated
    /// nothing; one already live is refused too.
    pub fn gen(arrays: &mut LiveSet, buffers: &mut LiveSet, vao: u32, vbo: u32) -> (r: Result<
        Vao,
        GlError,
    >)
        ensures
            r is Err <==> (vao == 0 || vbo == 0 || old(arrays)@.contains(vao) || old(buffers)@.contains(
                vbo,
            )),
            r matches Err(e) ==> e == GlError::NativeApi,
            r matches Ok(a) ==> a.id() == vao && a.buffer().id() == vbo,
            r is Ok ==> final(arrays)@ == old(arrays)@.insert(vao) && final(buffers)@ == old(
                buffers,
            )@.insert(vbo),
            r is Err ==> final(arrays)@ == old(arrays)@ && final(buffers)@ == old(buffers)@,
    {
        if vao == 0 || vbo == 0 || arrays.contains(vao) || buffers.contains(vbo) {
            return Err(GlError::NativeApi);
        }
        let a = arrays.claim(vao);
        let b = buffers.claim(vbo);
        assert(a is Ok && b is Ok);
        Ok(Vao { inner: vao, vbo: Vbo { inner: vbo } })
    }

    /// Gives up this vertex array and its buffer: their identifiers, to hand
    /// to the native delete calls, leave the live arrays and buffers. The
    /// handle is consumed, so it cannot be released twice.
    pub fn release(self, arrays: &mut LiveSet, buffers: &mut LiveSet) -> (r: (u32, u32))
        ensures
            r == (self.id(), self.buffer().id()),
            final(arrays)@ == old(arrays)@.remove(r.0),
            final(buffers)@ == old(buffers)@.remove(r.1),
            old(arrays)@.contains(r.0) ==> final(arrays).count() + 1 == old(arrays).count(),
            old(buffers)@.contains(r.1) ==> final(buffers).count() + 1 == old(buffers).count(),
    {
        arrays.release(self.inner);
        buffers.release(self.vbo.inner);
        (self.inner, self.vbo.inner)
    }

    /// The buffer this vertex array owns.
    pub fn vbo(&self) -> (r: &Vbo)
        ensures
            *r == self.buffer(),
    {
        &self.vbo
    }
}

impl AsRaw<u32> for Vao {
    open spec fn raw_spec(&self) -> u32 {
        self.id()
    }

    fn as_raw(&self) -> (r: u32) {
        self.inner
    }
}

impl AsRaw<u32> for Vbo {
    open spec fn raw_spec(&self) -> u32 {
        self.id()
    }

    fn as_raw(&self) -> (r: u32) {
        self.inner
    }
}

} // verus!
