//! RGBA8 pixel buffers used both as displayable textures and as storage
//! targets of the compute kernel.
use vstd::prelude::*;

verus! {

/// Number of bytes that one texel occupies in an RGBA8 image.
pub const BYTES_PER_TEXEL: usize = 4;

/// The pixel formats a simulation image can have.
#[derive(Clone, Copy, Debug, PartialEq, Eq, Structural)]
pub enum TextureFormat {
    /// Four 8-bit channels, normalised to `[0, 1]` when sampled.
    Rgba8Unorm,
}

/// How the GPU may use an image.
#[derive(Clone, Copy, Debug, PartialEq, Eq, Structural)]
pub struct TextureUsages {
    pub copy_dst: bool,
    pub storage_binding: bool,
    pub texture_binding: bool,
}

impl TextureUsages {
    /// Bindable as a storage texture and as a sampled texture, and writable by copies.
    pub open spec fn is_simulation_target(self) -> bool {
        self.copy_dst && self.storage_binding && self.texture_binding
    }

    /// The usages every simulation image is created with.
    pub fn simulation_target() -> (r: Self)
        ensures
            r.is_simulation_target(),
    {
        TextureUsages { copy_dst: true, storage_binding: true, texture_binding: true }
    }
}

/// `count` texels, each holding the bytes of `pixel`.
pub open spec fn filled(pixel: Seq<u8>, count: nat) -> Seq<u8> {
    Seq::new(count * 4, |j: int| pixel[j % 4])
}

/// `bytes` with the texel at `texel` replaced by `pixel`.
pub open spec fn with_texel(bytes: Seq<u8>, texel: nat, pixel: Seq<u8>) -> Seq<u8> {
    Seq::new(
        bytes.len(),
        |j: int|
            if texel * 4 <= j < texel * 4 + 4 {
                pixel[j - texel * 4]
            } else {
                bytes[j]
            },
    )
}

/// A two-dimensional RGBA8 image, stored row by row, four bytes per texel.
#[derive(Debug)]
pub struct SimulationImage {
    pub width: u32,
    pub height: u32,
    pub format: TextureFormat,
    pub usage: TextureUsages,
    pub data: Vec<u8>,
}

impl SimulationImage {
    /// The buffer holds exactly one texel for each position of the image.
    pub open spec fn wf(&self) -> bool {
        self.data@.len() == self.width as int * self.height as int * 4
    }

    /// Same width, height and pixel format.
    pub open spec fn same_shape(&self, other: &SimulationImage) -> bool {
        &&& self.width == other.width
        &&& self.height == other.height
        &&& self.format == other.format
    }

    /// An image of the given size whose every texel is `pixel`.
    pub fn new_fill(
        width: u32,
        height: u32,
        pixel: [u8; 4],
        format: TextureFormat,
        usage: TextureUsages,
    ) -> (r: Self)
        requires
            width as int * height as int * 4 <= usize::MAX,
        ensures
            r.wf(),
            r.width == width,
            r.height == height,
            r.format == format,
            r.usage == usage,
            r.data@ == filled(pixel@, width as nat * height as nat),
    {
        let ghost bound: int = width as int * height as int;
        assert(width as int * height as int <= usize::MAX) by (nonlinear_arith)
            requires
                width as int * height as int * 4 <= usize::MAX,
        ;
        let texels: usize = (width as usize) * (height as usize);
        let mut data: Vec<u8> = Vec::new();
        let mut i: usize = 0;
        while i < texels
            invariant
                i <= texels,
                texels == bound,
                bound * 4 <= usize::MAX,
                data@.len() == i * 4,
                forall|j: int| 0 <= j < i * 4 ==> data@[j] == pixel@[j % 4],
            decreases texels - i,
        {
            let ghost before = data@;
            data.push(pixel[0]);
            data.push(pixel[1]);
            data.push(pixel[2]);
            data.push(pixel[3]);
            assert forall|j: int| 0 <= j < (i + 1) * 4 implies data@[j] == pixel@[j % 4] by {
                if j >= i * 4 {
                    assert((i * 4 + (j - i * 4)) % 4 == j - i * 4) by (nonlinear_arith)
                        requires
                            0 <= j - i * 4 < 4,
                    ;
                } else {
                    assert(data@[j] == before[j]);
                }
            }
            i = i + 1;
        }
        let r = SimulationImage { width, height, format, usage, data };
        assert(r.data@ =~= filled(pixel@, width as nat * height as nat));
        r
    }

    /// Overwrites the four bytes of texel number `texel` (row-major) with `pixel`.
    pub fn set_texel(&mut self, texel: usize, pixel: [u8; 4])
        requires
            texel * 4 + 4 <= old(self).data@.len(),
        ensures
            final(self).width == old(self).width,
            final(self).height == old(self).height,
            final(self).format == old(self).format,
            final(self).usage == old(self).usage,
            final(self).data@ == with_texel(old(self).data@, texel as nat, pixel@),
    {
        let len = self.data.len();
        assert(texel * 4 + 4 <= len);
        let base: usize = texel * BYTES_PER_TEXEL;
        self.data.set(base, pixel[0]);
        self.data.set(base + 1, pixel[1]);
        self.data.set(base + 2, pixel[2]);
        self.data.set(base + 3, pixel[3]);
        assert(self.data@ =~= with_texel(old(self).data@, texel as nat, pixel@));
    }
}

} // verus!
