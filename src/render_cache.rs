use vstd::prelude::*;

verus! {

/// Iteration depth used when a view is created without one.
pub const DEFAULT_MAX_DEPTH: u32 = 1024;

/// Iteration count the shader reports for a point caught in a cycle.
pub const CYCLE_DEPTH: u32 = 0xffff_ffff;

/// Width and height of a texture, in pixels.
#[derive(Clone, Copy, Debug, PartialEq, Eq, Structural)]
pub struct TextureSize {
    pub width: u32,
    pub height: u32,
}

impl TextureSize {
    pub fn new(width: u32, height: u32) -> (r: TextureSize)
        ensures
            r.width == width,
            r.height == height,
    {
        TextureSize { width, height }
    }
}

/// The work one frame has to hand to the GPU: draw the fractal at `size`
/// with `max_depth` iterations, after replacing the texture when
/// `resize_texture` is set.
#[derive(Clone, Copy, Debug, PartialEq, Eq, Structural)]
pub struct RenderJob {
    pub size: TextureSize,
    pub max_depth: u32,
    pub resize_texture: bool,
}

/// Abstract state of a [`RenderCache`].
pub struct CacheModel {
    /// Size the view is to be drawn at.
    pub size: TextureSize,
    /// Iteration limit the view is to be drawn with.
    pub max_depth: u32,
    /// Size of the texture that is currently allocated.
    pub texture: TextureSize,
    /// Whether anything changed since the last job was handed out.
    pub needs_update: bool,
}

/// Tracks whether the picture of one fractal view is stale, so that the GPU
/// is only asked to draw when the camera, the size or a parameter changed.
pub struct RenderCache {
    size: TextureSize,
    max_depth: u32,
    texture: TextureSize,
    needs_update: bool,
}

impl View for RenderCache {
    type V = CacheModel;

    closed spec fn view(&self) -> CacheModel {
        CacheModel {
            size: self.size,
            max_depth: self.max_depth,
            texture: self.texture,
            needs_update: self.needs_update,
        }
    }
}

impl RenderCache {
    /// A clean cache has handed out a job for exactly its current state, so
    /// the texture already has the current size.
    pub open spec fn wf(&self) -> bool {
        !self@.needs_update ==> self@.texture == self@.size
    }

    /// A new view whose texture is allocated at `size`; nothing is drawn yet.
    pub fn new(size: TextureSize, max_depth: u32) -> (r: RenderCache)
        ensures
            r.wf(),
            r@.size == size,
            r@.max_depth == max_depth,
            r@.texture == size,
            r@.needs_update,
    {
        RenderCache { size, max_depth, texture: size, needs_update: true }
    }

    pub fn needs_update(&self) -> (r: bool)
        ensures
            r == self@.needs_update,
    {
        self.needs_update
    }

    pub fn size(&self) -> (r: TextureSize)
        ensures
            r == self@.size,
    {
        self.size
    }

    pub fn width(&self) -> (r: u32)
        ensures
            r == self@.size.width,
    {
        self.size.width
    }

    pub fn height(&self) -> (r: u32)
        ensures
            r == self@.size.height,
    {
        self.size.height
    }

    pub fn max_depth(&self) -> (r: u32)
        ensures
            r == self@.max_depth,
    {
        self.max_depth
    }

    /// Size of the texture that is allocated now.
    pub fn texture_size(&self) -> (r: TextureSize)
        ensures
            r == self@.texture,
    {
        self.texture
    }

    /// Records a change the cache cannot see itself (the camera moved, the
    /// point of interest or the escape radius changed).
    pub fn invalidate(&mut self)
        requires
            old(self).wf(),
        ensures
            final(self).wf(),
            final(self)@ == (CacheModel { needs_update: true, ..old(self)@ }),
    {
        self.needs_update = true;
    }

    /// Sets the width; the view becomes stale only if the width changed.
    pub fn set_width(&mut self, width: u32)
        requires
            old(self).wf(),
        ensures
            final(self).wf(),
            final(self)@ == (CacheModel {
                size: TextureSize { width, height: old(self)@.size.height },
                needs_update: old(self)@.needs_update || width != old(self)@.size.width,
                ..old(self)@
            }),
    {
        if self.size.width != width {
            self.size.width = width;
            self.needs_update = true;
        }
    }

    /// Sets the height; the view becomes stale only if the height changed.
    pub fn set_height(&mut self, height: u32)
        requires
            old(self).wf(),
        ensures
            final(self).wf(),
            final(self)@ == (CacheModel {
                size: TextureSize { width: old(self)@.size.width, height },
                needs_update: old(self)@.needs_update || height != old(self)@.size.height,
                ..old(self)@
            }),
    {
        if self.size.height != height {
            self.size.height = height;
            self.needs_update = true;
        }
    }

    /// Sets both dimensions; the view becomes stale only if the size changed.
    pub fn set_size(&mut self, size: TextureSize)
        requires
            old(self).wf(),
        ensures
            final(self).wf(),
            final(self)@ == (CacheModel {
                size,
                needs_update: old(self)@.needs_update || size != old(self)@.size,
                ..old(self)@
            }),
    {
        self.set_width(size.width);
        self.set_height(size.height);
    }

    /// Sets the iteration limit; the view becomes stale only if it changed.
    pub fn set_max_depth(&mut self, max_depth: u32)
        requires
            old(self).wf(),
        ensures
            final(self).wf(),
            final(self)@ == (CacheModel {
                max_depth,
                needs_update: old(self)@.needs_update || max_depth != old(self)@.max_depth,
                ..old(self)@
            }),
    {
        if self.max_depth != max_depth {
            self.max_depth = max_depth;
            self.needs_update = true;
        }
    }

    /// Hands out the frame's work, if any. A stale view yields a job for its
    /// current state, asking for a new texture when the allocated one has
    /// another size, and is clean afterwards; a clean view yields nothing.
    pub fn begin_render(&mut self) -> (job: Option<RenderJob>)
        requires
            old(self).wf(),
        ensures
            final(self).wf(),
            !old(self)@.needs_update ==> job.is_none() && final(self)@ == old(self)@,
            old(self)@.needs_update ==> job == Some(
                RenderJob {
                    size: old(self)@.size,
                    max_depth: old(self)@.max_depth,
                    resize_texture: old(self)@.texture != old(self)@.size,
                },
            ),
            old(self)@.needs_update ==> final(self)@ == (CacheModel {
                texture: old(self)@.size,
                needs_update: false,
                ..old(self)@
            }),
    {
        if !self.needs_update {
            return None;
        }
        self.needs_update = false;
        let resize_texture = self.texture != self.size;
        self.texture = self.size;
        Some(RenderJob { size: self.size, max_depth: self.max_depth, resize_texture })
    }
}

impl Default for RenderCache {
    /// A one-pixel view drawn with [`DEFAULT_MAX_DEPTH`] iterations.
    fn default() -> (r: RenderCache)
        ensures
            r.wf(),
            r@.size == (TextureSize { width: 1, height: 1 }),
            r@.max_depth == DEFAULT_MAX_DEPTH,
            r@.texture == r@.size,
            r@.needs_update,
    {
        RenderCache::new(TextureSize::new(1, 1), DEFAULT_MAX_DEPTH)
    }
}

} // verus!
