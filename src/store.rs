//! An arena of images addressed by stable integer handles. A handle is never
//! reused: removing an image leaves its slot empty.
use vstd::prelude::*;
use crate::image::SimulationImage;

verus! {

/// A stable reference to an image held by an [`ImageStore`].
#[derive(Clone, Copy, Debug, PartialEq, Eq, Structural)]
pub struct ImageHandle {
    pub id: usize,
}

/// Owns every image; each slot holds the image added under its handle, or
/// nothing once that image has been removed.
#[derive(Debug)]
pub struct ImageStore {
    slots: Vec<Option<SimulationImage>>,
}

impl View for ImageStore {
    type V = Seq<Option<SimulationImage>>;

    closed spec fn view(&self) -> Seq<Option<SimulationImage>> {
        self.slots@
    }
}

impl ImageStore {
    /// The handle refers to an image currently held.
    pub open spec fn contains(&self, h: ImageHandle) -> bool {
        h.id < self@.len() && self@[h.id as int] is Some
    }

    /// The image behind a handle that the store contains.
    pub open spec fn image(&self, h: ImageHandle) -> SimulationImage
        recommends
            self.contains(h),
    {
        self@[h.id as int]->Some_0
    }

    pub fn new() -> (r: Self)
        ensures
            r@.len() == 0,
    {
        ImageStore { slots: Vec::new() }
    }

    /// The number of handles handed out so far.
    pub fn len(&self) -> (r: usize)
        ensures
            r == self@.len(),
    {
        self.slots.len()
    }

    /// Takes ownership of `image` and hands back a fresh handle to it.
    pub fn add(&mut self, image: SimulationImage) -> (h: ImageHandle)
        requires
            old(self)@.len() < usize::MAX,
        ensures
            h.id == old(self)@.len(),
            final(self)@ == old(self)@.push(Some(image)),
    {
        let id = self.slots.len();
        self.slots.push(Some(image));
        ImageHandle { id }
    }

    /// The image behind `h`, if the store holds one.
    pub fn get(&self, h: ImageHandle) -> (r: Option<&SimulationImage>)
        ensures
            match r {
                Some(img) => self.contains(h) && *img == self.image(h),
                None => !self.contains(h),
            },
    {
        if h.id < self.slots.len() {
            self.slots[h.id].as_ref()
        } else {
            None
        }
    }

    /// Drops the image behind `h`; the handle is not handed out again.
    pub fn remove(&mut self, h: ImageHandle)
        ensures
            h.id < old(self)@.len() ==> final(self)@ == old(self)@.update(h.id as int, None),
            h.id >= old(self)@.len() ==> final(self)@ == old(self)@,
    {
        if h.id < self.slots.len() {
            self.slots.set(h.id, None);
        }
    }
}

} // verus!
