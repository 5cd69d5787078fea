use vstd::prelude::*;
use crate::animation::{
    full_viewport, Viewport, ViewportBounce, ViewportPulse, MAX_WINDOW_SIDE,
};
use crate::drawfunc::DrawFunc;
use crate::error::OglError;
use crate::texture2d::{CubeMapView, Texture2D, Texture2DCubeMap, TextureView};

verus! {

/// Number of buffer-object handles the context keeps.
pub const BUFFER_SLOTS: usize = 16;

/// Number of uniform-location slots the context keeps.
pub const LOCATION_SLOTS: usize = 256;

/// Number of 2D textures, and of cube maps, the context keeps.
pub const TEXTURE_SLOTS: usize = 8;

/// The per-run state that the demo routines share: the window size, which demo the GPU
/// resources were set up for, the resource handles, the textures and the demos' animation
/// state. A buffer handle of 0 marks an empty slot: no GPU object has that name.
pub struct DrawContext {
    width: i32,
    height: i32,
    initialized: bool,
    draw_func: DrawFunc,
    vbo: Vec<u32>,
    locations: Vec<i32>,
    vao: Option<u32>,
    vertex_number: u32,
    textures: Vec<Texture2D>,
    cube_maps: Vec<Texture2DCubeMap>,
    pulse: ViewportPulse,
    bounce: ViewportBounce,
}

/// What a render context holds.
pub struct ContextView {
    pub width: i32,
    pub height: i32,
    pub initialized: bool,
    pub selected: DrawFunc,
    pub buffers: Seq<u32>,
    pub locations: Seq<i32>,
    pub vertex_array: Option<u32>,
    pub vertex_count: u32,
    pub textures: Seq<TextureView>,
    pub cube_maps: Seq<CubeMapView>,
    pub pulse: ViewportPulse,
    pub bounce: ViewportBounce,
}

impl View for DrawContext {
    type V = ContextView;

    closed spec fn view(&self) -> ContextView {
        ContextView {
            width: self.width,
            height: self.height,
            initialized: self.initialized,
            selected: self.draw_func,
            buffers: self.vbo@,
            locations: self.locations@,
            vertex_array: self.vao,
            vertex_count: self.vertex_number,
            textures: self.textures@.map_values(|t: Texture2D| t@),
            cube_maps: self.cube_maps@.map_values(|t: Texture2DCubeMap| t@),
            pulse: ViewportPulse {
                w: self.pulse.w,
                h: self.pulse.h,
                turn_small: self.pulse.turn_small,
            },
            bounce: ViewportBounce {
                width: self.bounce.width,
                width_step: self.bounce.width_step,
                height: self.bounce.height,
                height_step: self.bounce.height_step,
            },
        }
    }
}

/// Whether a demo must set its resources up before drawing: nothing was set up yet, or it
/// was set up for another demo.
pub open spec fn needs_setup_for(v: ContextView, demo: DrawFunc) -> bool {
    !v.initialized || v.selected != demo
}

/// The context once the resources of `demo` exist: set up, and for that demo.
pub open spec fn set_up_for(v: ContextView, demo: DrawFunc) -> ContextView {
    ContextView { initialized: true, selected: demo, ..v }
}

/// The flags of the context after a frame of `demo` succeeded: when the demo needed setup,
/// its setup ran and was recorded; otherwise nothing changed.
pub open spec fn invoked(v: ContextView, demo: DrawFunc) -> ContextView {
    if needs_setup_for(v, demo) {
        set_up_for(v, demo)
    } else {
        v
    }
}

/// After demo `a` and then another demo `b` run, the context is set up for `b`; running `a`
/// again then sets it up for `a` afresh.
pub proof fn lemma_demo_switch(v: ContextView, a: DrawFunc, b: DrawFunc)
    requires
        a != b,
    ensures
        invoked(invoked(v, a), b).initialized,
        invoked(invoked(v, a), b).selected == b,
        needs_setup_for(invoked(invoked(v, a), b), a),
        invoked(invoked(invoked(v, a), b), a).initialized,
        invoked(invoked(invoked(v, a), b), a).selected == a,
{
}

/// Running the same demo again needs no new setup.
pub proof fn lemma_demo_repeat(v: ContextView, a: DrawFunc)
    ensures
        !needs_setup_for(invoked(v, a), a),
        invoked(invoked(v, a), a) == invoked(v, a),
{
}

impl DrawContext {
    /// Slot counts as fixed, a window size the animations can step in, and animation
    /// states inside that window.
    pub closed spec fn wf(&self) -> bool {
        &&& self.vbo@.len() == BUFFER_SLOTS
        &&& self.locations@.len() == LOCATION_SLOTS
        &&& self.textures@.len() == TEXTURE_SLOTS
        &&& self.cube_maps@.len() == TEXTURE_SLOTS
        &&& forall|i: int| 0 <= i < TEXTURE_SLOTS ==> (#[trigger] self.cube_maps@[i]).wf()
        &&& 0 < self.width <= MAX_WINDOW_SIDE
        &&& 0 < self.height <= MAX_WINDOW_SIDE
        &&& self.pulse.wf(self.width as int, self.height as int)
        &&& self.bounce.wf(self.width as int, self.height as int)
    }

    /// A context for a window of `width` by `height`, with nothing set up: every slot
    /// empty, no vertex array, no vertex count, empty textures.
    pub fn new(width: i32, height: i32) -> (r: DrawContext)
        requires
            0 < width <= MAX_WINDOW_SIDE,
            0 < height <= MAX_WINDOW_SIDE,
        ensures
            r.wf(),
            r@.width == width,
            r@.height == height,
            !r@.initialized,
            r@.selected == DrawFunc::DrawVbo,
            r@.buffers == Seq::new(BUFFER_SLOTS as nat, |i: int| 0u32),
            r@.locations == Seq::new(LOCATION_SLOTS as nat, |i: int| 0i32),
            r@.vertex_array is None,
            r@.vertex_count == 0,
            r@.textures.len() == TEXTURE_SLOTS,
            forall|i: int| 0 <= i < TEXTURE_SLOTS ==> (#[trigger] r@.textures[i]).id == 0,
            r@.cube_maps.len() == TEXTURE_SLOTS,
            forall|i: int| 0 <= i < TEXTURE_SLOTS ==> (#[trigger] r@.cube_maps[i]).id == 0,
            r@.pulse == (ViewportPulse { w: 0, h: 0, turn_small: false }),
            r@.bounce == (ViewportBounce { width: 0, width_step: 5, height: 0, height_step: 5 }),
    {
        let mut vbo: Vec<u32> = Vec::new();
        let mut i: usize = 0;
        while i < BUFFER_SLOTS
            invariant
                i <= BUFFER_SLOTS,
                vbo@ == Seq::new(i as nat, |k: int| 0u32),
            decreases BUFFER_SLOTS - i,
        {
            vbo.push(0);
            i = i + 1;
            assert(vbo@ =~= Seq::new(i as nat, |k: int| 0u32));
        }
        let mut locations: Vec<i32> = Vec::new();
        let mut i: usize = 0;
        while i < LOCATION_SLOTS
            invariant
                i <= LOCATION_SLOTS,
                locations@ == Seq::new(i as nat, |k: int| 0i32),
            decreases LOCATION_SLOTS - i,
        {
            locations.push(0);
            i = i + 1;
            assert(locations@ =~= Seq::new(i as nat, |k: int| 0i32));
        }
        let mut textures: Vec<Texture2D> = Vec::new();
        let mut cube_maps: Vec<Texture2DCubeMap> = Vec::new();
        let mut i: usize = 0;
        while i < TEXTURE_SLOTS
            invariant
                i <= TEXTURE_SLOTS,
                textures@.len() == i,
                cube_maps@.len() == i,
                forall|k: int| 0 <= k < i ==> (#[trigger] textures@[k])@.id == 0,
                forall|k: int| 0 <= k < i ==> (#[trigger] cube_maps@[k]).wf(),
                forall|k: int| 0 <= k < i ==> (#[trigger] cube_maps@[k])@.id == 0,
            decreases TEXTURE_SLOTS - i,
        {
            textures.push(Texture2D::new());
            cube_maps.push(Texture2DCubeMap::new());
            i = i + 1;
        }
        DrawContext {
            width,
            height,
            initialized: false,
            draw_func: DrawFunc::DrawVbo,
            vbo,
            locations,
            vao: None,
            vertex_number: 0,
            textures,
            cube_maps,
            pulse: ViewportPulse::new(),
            bounce: ViewportBounce::new(),
        }
    }

    pub fn width(&self) -> (r: i32)
        ensures
            r == self@.width,
    {
        self.width
    }

    pub fn height(&self) -> (r: i32)
        ensures
            r == self@.height,
    {
        self.height
    }

    /// Whether the GPU resources are set up for the selected demo.
    pub fn is_initialized(&self) -> (r: bool)
        ensures
            r == self@.initialized,
    {
        self.initialized
    }

    /// The demo the GPU resources were last set up for.
    pub fn selected(&self) -> (r: DrawFunc)
        ensures
            r == self@.selected,
    {
        self.draw_func
    }

    /// Whether `demo` must set its resources up before drawing.
    pub fn needs_setup(&self, demo: DrawFunc) -> (r: bool)
        ensures
            r == needs_setup_for(self@, demo),
    {
        !self.initialized || self.draw_func != demo
    }

    /// Records that the resources of `demo` now exist: to be called once its setup has
    /// succeeded, so that a failed setup leaves the context as it was and is tried again.
    pub fn finish_setup(&mut self, demo: DrawFunc)
        requires
            old(self).wf(),
        ensures
            final(self).wf(),
            final(self)@ == set_up_for(old(self)@, demo),
    {
        self.initialized = true;
        self.draw_func = demo;
    }

    /// The buffer handle in slot `i` (0 when the slot is empty); slots past
    /// `BUFFER_SLOTS` fail with `InvalidData`.
    pub fn buffer(&self, i: usize) -> (r: Result<u32, OglError>)
        requires
            self.wf(),
        ensures
            i < BUFFER_SLOTS ==> r == Ok::<u32, OglError>(self@.buffers[i as int]),
            i >= BUFFER_SLOTS ==> r == Err::<u32, OglError>(OglError::InvalidData),
    {
        if i < BUFFER_SLOTS {
            Ok(self.vbo[i])
        } else {
            Err(OglError::InvalidData)
        }
    }

    /// Whether slot `i` holds a buffer; slots past `BUFFER_SLOTS` fail with `InvalidData`.
    pub fn is_buffer_allocated(&self, i: usize) -> (r: Result<bool, OglError>)
        requires
            self.wf(),
        ensures
            i < BUFFER_SLOTS ==> r == Ok::<bool, OglError>(self@.buffers[i as int] != 0),
            i >= BUFFER_SLOTS ==> r == Err::<bool, OglError>(OglError::InvalidData),
    {
        match self.buffer(i) {
            Ok(id) => Ok(id != 0),
            Err(e) => Err(e),
        }
    }

    /// Puts the buffer handles `ids` into the first slots, in order. Fails with
    /// `InvalidData`, changing nothing, when there are more handles than slots or one of
    /// them is 0.
    pub fn store_buffers(&mut self, ids: &[u32]) -> (r: Result<(), OglError>)
        requires
            old(self).wf(),
        ensures
            final(self).wf(),
            r is Ok <==> ids@.len() <= BUFFER_SLOTS && forall|k: int|
                0 <= k < ids@.len() ==> #[trigger] ids@[k] != 0,
            r is Ok ==> final(self)@ == (ContextView {
                buffers: ids@ + old(self)@.buffers.skip(ids@.len() as int),
                ..old(self)@
            }),
            r is Err ==> r == Err::<(), OglError>(OglError::InvalidData) && final(self)@ == old(self)@,
    {
        if ids.len() > BUFFER_SLOTS {
            return Err(OglError::InvalidData);
        }
        let mut k: usize = 0;
        while k < ids.len()
            invariant
                self.wf(),
                self@ == old(self)@,
                k <= ids@.len(),
                forall|j: int| 0 <= j < k ==> #[trigger] ids@[j] != 0,
            decreases ids@.len() - k,
        {
            if ids[k] == 0 {
                return Err(OglError::InvalidData);
            }
            k = k + 1;
        }
        let ghost before = self.vbo@;
        let mut k: usize = 0;
        while k < ids.len()
            invariant
                self.wf(),
                ids@.len() <= BUFFER_SLOTS,
                k <= ids@.len(),
                self@ == (ContextView { buffers: self@.buffers, ..old(self)@ }),
                self.vbo@ == ids@.subrange(0, k as int) + before.skip(k as int),
                before == old(self)@.buffers,
                before.len() == BUFFER_SLOTS,
            decreases ids@.len() - k,
        {
            self.vbo.set(k, ids[k]);
            k = k + 1;
            assert(self.vbo@ =~= ids@.subrange(0, k as int) + before.skip(k as int));
        }
        assert(ids@.subrange(0, ids@.len() as int) =~= ids@);
        Ok(())
    }

    /// The uniform location cached in slot `i`; slots past `LOCATION_SLOTS` fail with
    /// `InvalidData`.
    pub fn uniform_location(&self, i: usize) -> (r: Result<i32, OglError>)
        requires
            self.wf(),
        ensures
            i < LOCATION_SLOTS ==> r == Ok::<i32, OglError>(self@.locations[i as int]),
            i >= LOCATION_SLOTS ==> r == Err::<i32, OglError>(OglError::InvalidData),
    {
        if i < LOCATION_SLOTS {
            Ok(self.locations[i])
        } else {
            Err(OglError::InvalidData)
        }
    }

    /// Caches uniform location `loc` in slot `i`; slots past `LOCATION_SLOTS` fail with
    /// `InvalidData` and change nothing.
    pub fn set_uniform_location(&mut self, i: usize, loc: i32) -> (r: Result<(), OglError>)
        requires
            old(self).wf(),
        ensures
            final(self).wf(),
            i < LOCATION_SLOTS ==> r is Ok && final(self)@ == (ContextView {
                locations: old(self)@.locations.update(i as int, loc),
                ..old(self)@
            }),
            i >= LOCATION_SLOTS ==> r == Err::<(), OglError>(OglError::InvalidData) && final(self)@ == old(self)@,
    {
        if i < LOCATION_SLOTS {
            self.locations.set(i, loc);
            Ok(())
        } else {
            Err(OglError::InvalidData)
        }
    }

    /// The vertex array object, once one was set up.
    pub fn vertex_array(&self) -> (r: Option<u32>)
        ensures
            r == self@.vertex_array,
    {
        self.vao
    }

    /// The vertex array object that a demo drawing through one needs; `Unexpected` when
    /// none was set up.
    pub fn require_vertex_array(&self) -> (r: Result<u32, OglError>)
        ensures
            match self@.vertex_array {
                Some(id) => r == Ok::<u32, OglError>(id),
                None => r == Err::<u32, OglError>(OglError::Unexpected),
            },
    {
        match self.vao {
            Some(id) => Ok(id),
            None => Err(OglError::Unexpected),
        }
    }

    /// Records the vertex array object that was set up.
    pub fn set_vertex_array(&mut self, id: u32)
        requires
            old(self).wf(),
        ensures
            final(self).wf(),
            final(self)@ == (ContextView { vertex_array: Some(id), ..old(self)@ }),
    {
        self.vao = Some(id);
    }

    /// The number of indices or vertices the current demo draws.
    pub fn vertex_count(&self) -> (r: u32)
        ensures
            r == self@.vertex_count,
    {
        self.vertex_number
    }

    /// Records the number of indices or vertices the current demo draws.
    pub fn set_vertex_count(&mut self, n: u32)
        requires
            old(self).wf(),
        ensures
            final(self).wf(),
            final(self)@ == (ContextView { vertex_count: n, ..old(self)@ }),
    {
        self.vertex_number = n;
    }

    /// The 2D texture in slot `i`; slots past `TEXTURE_SLOTS` fail with `InvalidData`.
    pub fn texture(&self, i: usize) -> (r: Result<&Texture2D, OglError>)
        requires
            self.wf(),
        ensures
            i < TEXTURE_SLOTS ==> (r matches Ok(t) && t@ == self@.textures[i as int]),
            i >= TEXTURE_SLOTS ==> (r matches Err(e) && e == OglError::InvalidData),
    {
        if i < TEXTURE_SLOTS {
            Ok(&self.textures[i])
        } else {
            Err(OglError::InvalidData)
        }
    }

    /// Puts texture `t` into slot `i`; slots past `TEXTURE_SLOTS` fail with `InvalidData`
    /// and change nothing.
    pub fn set_texture(&mut self, i: usize, t: Texture2D) -> (r: Result<(), OglError>)
        requires
            old(self).wf(),
        ensures
            final(self).wf(),
            i < TEXTURE_SLOTS ==> r is Ok && final(self)@ == (ContextView {
                textures: old(self)@.textures.update(i as int, t@),
                ..old(self)@
            }),
            i >= TEXTURE_SLOTS ==> r == Err::<(), OglError>(OglError::InvalidData) && final(self)@ == old(self)@,
    {
        if i < TEXTURE_SLOTS {
            self.textures.set(i, t);
            assert(self@.textures =~= old(self)@.textures.update(i as int, t@));
            Ok(())
        } else {
            Err(OglError::InvalidData)
        }
    }

    /// The cube map in slot `i`; slots past `TEXTURE_SLOTS` fail with `InvalidData`.
    pub fn cube_map(&self, i: usize) -> (r: Result<&Texture2DCubeMap, OglError>)
        requires
            self.wf(),
        ensures
            i < TEXTURE_SLOTS ==> (r matches Ok(t) && t@ == self@.cube_maps[i as int] && t.wf()),
            i >= TEXTURE_SLOTS ==> (r matches Err(e) && e == OglError::InvalidData),
    {
        if i < TEXTURE_SLOTS {
            Ok(&self.cube_maps[i])
        } else {
            Err(OglError::InvalidData)
        }
    }

    /// Puts cube map `t` into slot `i`; slots past `TEXTURE_SLOTS` fail with
    /// `InvalidData` and change nothing.
    pub fn set_cube_map(&mut self, i: usize, t: Texture2DCubeMap) -> (r: Result<(), OglError>)
        requires
            old(self).wf(),
            t.wf(),
        ensures
            final(self).wf(),
            i < TEXTURE_SLOTS ==> r is Ok && final(self)@ == (ContextView {
                cube_maps: old(self)@.cube_maps.update(i as int, t@),
                ..old(self)@
            }),
            i >= TEXTURE_SLOTS ==> r == Err::<(), OglError>(OglError::InvalidData) && final(self)@ == old(self)@,
    {
        if i < TEXTURE_SLOTS {
            self.cube_maps.set(i, t);
            assert(self@.cube_maps =~= old(self)@.cube_maps.update(i as int, t@));
            Ok(())
        } else {
            Err(OglError::InvalidData)
        }
    }

    /// The viewport covering the whole window.
    pub fn window_viewport(&self) -> (r: Viewport)
        ensures
            r == (Viewport { x: 0, y: 0, width: self@.width, height: self@.height }),
    {
        full_viewport(self.width, self.height)
    }

    /// Advances the pulsing viewport by a frame and returns it.
    pub fn step_pulse(&mut self) -> (r: Viewport)
        requires
            old(self).wf(),
        ensures
            final(self).wf(),
            final(self)@ == (ContextView {
                pulse: crate::animation::pulse_next(
                    old(self)@.pulse,
                    old(self)@.width as int,
                    old(self)@.height as int,
                ),
                ..old(self)@
            }),
            r == (Viewport {
                x: (final(self)@.pulse.w / 2) as i32,
                y: (final(self)@.pulse.h / 2) as i32,
                width: final(self)@.pulse.w,
                height: final(self)@.pulse.h,
            }),
    {
        self.pulse.step(self.width, self.height)
    }

    /// Advances the bouncing viewport by a frame and returns it.
    pub fn step_bounce(&mut self) -> (r: Viewport)
        requires
            old(self).wf(),
        ensures
            final(self).wf(),
            final(self)@ == (ContextView { bounce: final(self)@.bounce, ..old(self)@ }),
            (final(self)@.bounce.width as int, final(self)@.bounce.width_step as int)
                == crate::animation::bounce_axis(
                old(self)@.bounce.width as int,
                old(self)@.bounce.width_step as int,
                old(self)@.width as int,
            ),
            (final(self)@.bounce.height as int, final(self)@.bounce.height_step as int)
                == crate::animation::bounce_axis(
                old(self)@.bounce.height as int,
                old(self)@.bounce.height_step as int,
                old(self)@.height as int,
            ),
            r == (Viewport {
                x: 0,
                y: 0,
                width: final(self)@.bounce.width,
                height: final(self)@.bounce.height,
            }),
    {
        self.bounce.step(self.width, self.height)
    }
}

} // verus!
