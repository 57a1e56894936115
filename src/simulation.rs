//! The image pair: creation with its seed, the per-frame swap of roles, the
//! sprite that displays the current generation, and reinitialisation.
use vstd::prelude::*;
use crate::image::{BYTES_PER_TEXEL, filled, with_texel, SimulationImage, TextureFormat, TextureUsages};
use crate::store::{ImageHandle, ImageStore};

verus! {

/// Why an image pair could not be created.
#[derive(Clone, Copy, Debug, PartialEq, Eq, Structural)]
pub enum ConfigError {
    /// The width or the height is zero.
    ZeroDimension,
    /// The width or the height exceeds the device's texture limit, or the
    /// buffer would not fit in memory.
    ExceedsLimit,
}

/// The two images of the simulation: the kernel reads the current generation
/// from `read_texture` and writes the next one into `write_texture`.
#[derive(Clone, Copy, Debug, PartialEq, Eq, Structural)]
pub struct GameOfLifeImage {
    pub read_texture: ImageHandle,
    pub write_texture: ImageHandle,
}

/// The on-screen quad that shows one image, stretched to `width` by `height`.
#[derive(Clone, Copy, Debug, PartialEq, Eq, Structural)]
pub struct Sprite {
    pub image: ImageHandle,
    pub width: u32,
    pub height: u32,
}

/// What a successful initialisation produces.
#[derive(Clone, Copy, Debug, PartialEq, Eq, Structural)]
pub struct SimulationSetup {
    pub images: GameOfLifeImage,
    pub sprite: Sprite,
}

/// The colour of a dead cell.
pub open spec fn background() -> Seq<u8> {
    seq![0u8, 0u8, 0u8, 255u8]
}

/// The colour of the seeded live cell.
pub open spec fn foreground() -> Seq<u8> {
    seq![255u8, 255u8, 255u8, 255u8]
}

/// The column of the first row that holds the seed: just left of the middle.
pub open spec fn seed_column(width: u32) -> nat {
    if width / 2 >= 1 {
        (width / 2 - 1) as nat
    } else {
        0
    }
}

/// The error that initialisation reports for these dimensions, if any.
pub open spec fn config_error(width: u32, height: u32, max_dimension: u32) -> Option<ConfigError> {
    if width == 0 || height == 0 {
        Some(ConfigError::ZeroDimension)
    } else if width > max_dimension || height > max_dimension || width as int * height as int * 4
        > usize::MAX {
        Some(ConfigError::ExceedsLimit)
    } else {
        None
    }
}

/// The contents of a freshly created `read` image.
pub open spec fn initial_read(width: u32, height: u32) -> Seq<u8> {
    filled(background(), width as nat * height as nat)
}

/// The contents of a freshly created `write` image: `read` plus the seed.
pub open spec fn initial_write(width: u32, height: u32) -> Seq<u8> {
    with_texel(initial_read(width, height), seed_column(width), foreground())
}

impl GameOfLifeImage {
    /// The pair with the two roles exchanged.
    pub open spec fn swapped(self) -> GameOfLifeImage {
        GameOfLifeImage { read_texture: self.write_texture, write_texture: self.read_texture }
    }

    /// Both handles refer to distinct, well-formed RGBA8 storage images of one size.
    pub open spec fn wf_in(self, store: &ImageStore) -> bool {
        &&& store.contains(self.read_texture)
        &&& store.contains(self.write_texture)
        &&& self.read_texture != self.write_texture
        &&& store.image(self.read_texture).wf()
        &&& store.image(self.write_texture).wf()
        &&& store.image(self.read_texture).same_shape(&store.image(self.write_texture))
        &&& store.image(self.read_texture).format == TextureFormat::Rgba8Unorm
        &&& store.image(self.read_texture).usage.is_simulation_target()
        &&& store.image(self.write_texture).usage.is_simulation_target()
    }

    /// The pair holds a freshly seeded `width` by `height` generation.
    pub open spec fn is_seeded(self, store: &ImageStore, width: u32, height: u32) -> bool {
        &&& store.image(self.read_texture).width == width
        &&& store.image(self.read_texture).height == height
        &&& store.image(self.read_texture).data@ == initial_read(width, height)
        &&& store.image(self.write_texture).data@ == initial_write(width, height)
    }

    /// Exchanges the roles of the two images; no pixel data moves.
    pub fn swap(&mut self)
        ensures
            *final(self) == old(self).swapped(),
    {
        let t = self.read_texture;
        self.read_texture = self.write_texture;
        self.write_texture = t;
    }
}

/// Swapping twice restores the initial assignment of roles.
pub proof fn lemma_swap_twice(p: GameOfLifeImage)
    ensures
        p.swapped().swapped() == p,
{
}

/// Swapping keeps both images present, distinct and of one size and format.
pub proof fn lemma_swap_keeps_shape(p: GameOfLifeImage, store: &ImageStore)
    requires
        p.wf_in(store),
    ensures
        p.swapped().wf_in(store),
{
}

/// The seeded `write` image differs from `read` in the bytes of one texel of
/// the first row, which is full-intensity white; every other texel is opaque black.
pub proof fn lemma_seed_is_single_texel(width: u32, height: u32)
    requires
        width >= 1,
    ensures
        seed_column(width) < width,
        initial_read(width, height).len() == initial_write(width, height).len(),
        forall|j: int|
            #![trigger initial_write(width, height)[j]]
            0 <= j < initial_write(width, height).len() ==> {
                let t = j / 4;
                &&& initial_read(width, height)[j] == background()[j % 4]
                &&& initial_write(width, height)[j] == if t == seed_column(width) {
                    foreground()[j % 4]
                } else {
                    background()[j % 4]
                }
            },
{
    assert forall|j: int|
        #![trigger initial_write(width, height)[j]]
        0 <= j < initial_write(width, height).len() implies {
        let t = j / 4;
        initial_write(width, height)[j] == if t == seed_column(width) {
            foreground()[j % 4]
        } else {
            background()[j % 4]
        }
    } by {
        let s = seed_column(width) as int;
        assert((s * 4 <= j < s * 4 + 4) == (j / 4 == s)) by (nonlinear_arith)
            requires
                j >= 0,
        ;
        if j / 4 == s {
            assert(j - s * 4 == j % 4) by (nonlinear_arith)
                requires
                    j / 4 == s,
                    j >= 0,
            ;
        }
    }
}

/// Creates the two images of a `width` by `height` simulation in `store`:
/// `read` filled with the background colour, `write` the same but for one
/// foreground texel in the first row. Both are RGBA8 storage textures.
pub fn setup_textures(store: &mut ImageStore, width: u32, height: u32, max_dimension: u32) -> (r:
    Result<SimulationSetup, ConfigError>)
    requires
        old(store)@.len() + 2 <= usize::MAX,
    ensures
        match config_error(width, height, max_dimension) {
            Some(e) => r == Err::<SimulationSetup, ConfigError>(e) && final(store)@ == old(store)@,
            None => r is Ok && {
                let s = r->Ok_0;
                &&& final(store)@.len() == old(store)@.len() + 2
                &&& final(store)@.subrange(0, old(store)@.len() as int) == old(store)@
                &&& s.images.read_texture.id == old(store)@.len()
                &&& s.images.write_texture.id == old(store)@.len() + 1
                &&& s.images.wf_in(final(store))
                &&& s.images.is_seeded(final(store), width, height)
                &&& s.sprite == Sprite { image: s.images.read_texture, width, height }
            },
        },
{
    if width == 0 || height == 0 {
        return Err(ConfigError::ZeroDimension);
    }
    if width > max_dimension || height > max_dimension {
        return Err(ConfigError::ExceedsLimit);
    }
    let texels: Option<usize> = (width as usize).checked_mul(height as usize);
    let bytes: Option<usize> = match texels {
        Some(t) => t.checked_mul(BYTES_PER_TEXEL),
        None => None,
    };
    if bytes.is_none() {
        assert(width as int * height as int * 4 > usize::MAX) by (nonlinear_arith)
            requires
                texels is None ==> width as int * height as int > usize::MAX,
                texels is Some ==> texels->Some_0 == width as int * height as int
                    && texels->Some_0 * 4 > usize::MAX,
                width >= 1,
                height >= 1,
        ;
        return Err(ConfigError::ExceedsLimit);
    }
    let usage = TextureUsages::simulation_target();
    let bg: [u8; 4] = [0, 0, 0, 255];
    let fg: [u8; 4] = [255, 255, 255, 255];
    assert(bg@ =~= background());
    assert(fg@ =~= foreground());
    let read_image = SimulationImage::new_fill(width, height, bg, TextureFormat::Rgba8Unorm, usage);
    let mut write_image = SimulationImage::new_fill(
        width,
        height,
        bg,
        TextureFormat::Rgba8Unorm,
        usage,
    );
    let column: u32 = if width / 2 >= 1 {
        width / 2 - 1
    } else {
        0
    };
    assert(column as int * 4 + 4 <= width as int * height as int * 4) by (nonlinear_arith)
        requires
            column < width,
            height >= 1,
    ;
    write_image.set_texel(column as usize, fg);
    let ghost before = store@;
    let read_texture = store.add(read_image);
    let write_texture = store.add(write_image);
    assert(store@.subrange(0, before.len() as int) =~= before);
    let images = GameOfLifeImage { read_texture, write_texture };
    Ok(SimulationSetup { images, sprite: Sprite { image: read_texture, width, height } })
}

/// `sprites` after pointing each one at `image`, and resizing it when `size` is given.
pub open spec fn retargeted(sprites: Seq<Sprite>, image: ImageHandle, size: Option<(u32, u32)>) -> Seq<
    Sprite,
> {
    Seq::new(
        sprites.len(),
        |i: int|
            match size {
                Some(wh) => Sprite { image, width: wh.0, height: wh.1 },
                None => Sprite { image, ..sprites[i] },
            },
    )
}

fn retarget_sprites(sprites: &mut Vec<Sprite>, image: ImageHandle, size: Option<(u32, u32)>)
    ensures
        final(sprites)@ == retargeted(old(sprites)@, image, size),
{
    let n = sprites.len();
    let mut i: usize = 0;
    while i < n
        invariant
            n == sprites@.len(),
            n == old(sprites)@.len(),
            i <= n,
            forall|k: int|
                0 <= k < i ==> #[trigger] sprites@[k] == retargeted(old(sprites)@, image, size)[k],
            forall|k: int| i <= k < n ==> #[trigger] sprites@[k] == old(sprites)@[k],
        decreases n - i,
    {
        let current = sprites[i];
        let next = match size {
            Some(wh) => Sprite { image, width: wh.0, height: wh.1 },
            None => Sprite { image, ..current },
        };
        sprites.set(i, next);
        i = i + 1;
    }
    assert(sprites@ =~= retargeted(old(sprites)@, image, size));
}

/// Starts a new generation step: the image just written becomes the one read
/// and displayed, and the one just displayed receives the next generation.
pub fn flip_textures(textures: &mut GameOfLifeImage, sprites: &mut Vec<Sprite>)
    ensures
        *final(textures) == old(textures).swapped(),
        final(sprites)@ == retargeted(old(sprites)@, old(textures).write_texture, None),
{
    textures.swap();
    let shown = textures.read_texture;
    retarget_sprites(sprites, shown, None);
}

/// Replaces the pair by a freshly seeded one of the new size, drops the old
/// images, and points every sprite at the new `read` image at the new size.
/// On a configuration error nothing changes.
pub fn reinitialize(
    store: &mut ImageStore,
    textures: &mut GameOfLifeImage,
    sprites: &mut Vec<Sprite>,
    width: u32,
    height: u32,
    max_dimension: u32,
) -> (r: Result<(), ConfigError>)
    requires
        old(store)@.len() + 2 <= usize::MAX,
        old(textures).wf_in(old(store)),
    ensures
        match config_error(width, height, max_dimension) {
            Some(e) => {
                &&& r == Err::<(), ConfigError>(e)
                &&& final(store)@ == old(store)@
                &&& *final(textures) == *old(textures)
                &&& final(sprites)@ == old(sprites)@
            },
            None => {
                &&& r is Ok
                &&& final(textures).wf_in(final(store))
                &&& final(textures).is_seeded(final(store), width, height)
                &&& !final(store).contains(old(textures).read_texture)
                &&& !final(store).contains(old(textures).write_texture)
                &&& final(sprites)@ == retargeted(
                    old(sprites)@,
                    final(textures).read_texture,
                    Some((width, height)),
                )
            },
        },
{
    let setup = setup_textures(store, width, height, max_dimension);
    match setup {
        Err(e) => Err(e),
        Ok(s) => {
            store.remove(textures.read_texture);
            store.remove(textures.write_texture);
            *textures = s.images;
            retarget_sprites(sprites, s.images.read_texture, Some((width, height)));
            Ok(())
        },
    }
}

} // verus!
