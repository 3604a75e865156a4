//! The per-display layer: one compositor surface's size and configuration
//! state, the display's ordered renderables, and the pacing counters that
//! decide when to redraw and when to advance animations.

use vstd::prelude::*;

use crate::renderer::config::OutputConfig;
use crate::renderer::pipeline::{spec_renderable_ticked, Pipelines};

verus! {

/// The compositor-native rate the declared rates are derived against.
pub open spec fn spec_native_rate() -> u32 {
    60
}

/// The counter wraparound bound, so long uptimes never overflow.
pub open spec fn spec_counter_wrap() -> u32 {
    6000
}

/// The divisor a declared rate derives: how many native frames pass between
/// updates. A negative declaration is compositor-driven (zero: every frame
/// callback decides), zero is never-automatic (the largest divisor), a rate
/// at or above the native one updates every frame, and a slower rate skips
/// `native / declared` frames.
pub open spec fn spec_rate_divisor(declared: i32, native: u32) -> u32 {
    if declared < 0 {
        0
    } else if declared == 0 {
        u32::MAX
    } else if declared >= native {
        1
    } else {
        (native as int / declared as int) as u32
    }
}

/// Derives the update divisor from a declared rate against a native rate.
pub fn rate_divisor(declared: i32, native: u32) -> (r: u32)
    ensures
        r == spec_rate_divisor(declared, native),
{
    if declared < 0 {
        0
    } else if declared == 0 {
        u32::MAX
    } else if declared >= 0 && (declared as u32) >= native {
        1
    } else {
        native / (declared as u32)
    }
}

/// What one pacing tick decided: nothing to do, or render this frame,
/// advancing animations by the given elapsed time when asked.
pub enum DrawDecision {
    /// The display is clean or has nothing to draw; the GPU is not touched.
    Skip,
    /// Record and present a frame. When `update_animations` holds, every
    /// renderable was advanced by `dt_ms` of real time first.
    Render {
        /// Whether animations were advanced this tick.
        update_animations: bool,
        /// The real elapsed milliseconds animations were advanced by.
        dt_ms: u64,
    },
}

/// One display's wallpaper state: the surface bookkeeping, the ordered
/// renderables, and the pacing counters.
pub struct WallpaperLayer {
    /// The output's name.
    pub name: String,
    /// Whether the surface must be redrawn.
    pub damaged: bool,
    /// Whether the compositor has supplied an initial size.
    pub configured: bool,
    /// The renderables drawn on this display.
    pub wallpaper: Pipelines,
    /// The surface width in pixels.
    pub width: u32,
    /// The surface height in pixels.
    pub height: u32,
    /// A declared upper redraw rate in frames per second, when one is set.
    pub framerate: Option<u64>,
    /// A declared upper animation rate in ticks per second, when one is set.
    pub tickrate: Option<u64>,
    /// The pacing preset for servicing this output.
    pub config: OutputConfig,
    /// Counts frames modulo the wraparound bound.
    pub frame_counter: u32,
    /// How many frames pass between redraws; zero means compositor-driven.
    pub frames_per_update: u32,
    /// Counts ticks modulo the wraparound bound.
    pub tick_counter: u32,
    /// How many ticks pass between animation updates; zero means
    /// compositor-driven, the maximum means never.
    pub ticks_per_update: u32,
    /// When animations were last advanced, on the caller's clock.
    pub last_animation_update_ms: u64,
}

impl WallpaperLayer {
    /// Declared rates are never zero, the counters stay under the wraparound
    /// bound, and every renderable's state is consistent.
    pub open spec fn wf(self) -> bool {
        &&& (self.framerate matches Some(f) ==> f > 0)
        &&& (self.tickrate matches Some(t) ==> t > 0)
        &&& self.frame_counter < spec_counter_wrap()
        &&& self.tick_counter < spec_counter_wrap()
        &&& self.wallpaper.wf()
    }

    /// A fresh layer for the named output: damaged, unconfigured, empty, and
    /// redrawing every frame until a wallpaper declares its rates.
    pub fn new(name: String) -> (r: Self)
        ensures
            r.wf(),
            r.name@ == name@,
            r.damaged,
            !r.configured,
            r.width == 0,
            r.height == 0,
            r.wallpaper.data@.len() == 0,
            r.framerate is None,
            r.tickrate is None,
            r.frame_counter == 0,
            r.frames_per_update == 1,
            r.tick_counter == 0,
            r.ticks_per_update == 1,
    {
        WallpaperLayer {
            name,
            damaged: true,
            configured: false,
            wallpaper: Pipelines::new(),
            width: 0,
            height: 0,
            framerate: None,
            tickrate: None,
            config: OutputConfig::default(),
            frame_counter: 0,
            frames_per_update: 1,
            tick_counter: 0,
            ticks_per_update: 1,
            last_animation_update_ms: 0,
        }
    }

    /// Marks the layer configured and damaged; the surrounding application
    /// binds the swap surface to the device at the same moment.
    pub fn configure(&mut self)
        requires
            old(self).wf(),
        ensures
            final(self).wf(),
            *final(self) == (WallpaperLayer { configured: true, damaged: true, ..*old(self) }),
    {
        self.configured = true;
        self.damaged = true;
    }

    /// Records a new surface size. An unchanged size is a no-op, so the swap
    /// surface is not reconfigured needlessly; a changed one marks the layer
    /// damaged.
    pub fn set_size(&mut self, width: u32, height: u32) -> (changed: bool)
        requires
            old(self).wf(),
        ensures
            final(self).wf(),
            (old(self).width == width && old(self).height == height) ==> (*final(self) == *old(
                self,
            ) && !changed),
            !(old(self).width == width && old(self).height == height) ==> (changed && *final(self)
                == (WallpaperLayer { width, height, damaged: true, ..*old(self) })),
    {
        if self.width == width && self.height == height {
            return false;
        }
        self.width = width;
        self.height = height;
        self.damaged = true;
        true
    }

    /// Derives how many native frames pass between redraws from the
    /// wallpaper's declared framerate, against the assumed 60 Hz native
    /// rate.
    pub fn set_framerate(&mut self, framerate: i32)
        requires
            old(self).wf(),
        ensures
            final(self).wf(),
            *final(self) == (WallpaperLayer {
                frames_per_update: spec_rate_divisor(framerate, spec_native_rate()),
                ..*old(self)
            }),
    {
        self.frames_per_update = rate_divisor(framerate, 60);
    }

    /// Derives how many native ticks pass between animation updates from
    /// the wallpaper's declared tickrate, against the assumed 60 Hz native
    /// rate.
    pub fn set_tickrate(&mut self, tickrate: i32)
        requires
            old(self).wf(),
        ensures
            final(self).wf(),
            *final(self) == (WallpaperLayer {
                ticks_per_update: spec_rate_divisor(tickrate, spec_native_rate()),
                ..*old(self)
            }),
    {
        self.ticks_per_update = rate_divisor(tickrate, 60);
    }

    /// How often this layer would like to be serviced, in milliseconds: the
    /// shorter of the periods its declared rates ask for, when any is set.
    pub fn get_recommended_update_interval(&self) -> (r: Option<u64>)
        requires
            self.wf(),
        ensures
            match (self.framerate, self.tickrate) {
                (None, None) => r is None,
                (None, Some(t)) => r == Some((1000u64 / t) as u64),
                (Some(f), None) => r == Some((1000u64 / f) as u64),
                (Some(f), Some(t)) => {
                    let ff = (1000u64 / f) as u64;
                    let tt = (1000u64 / t) as u64;
                    r == Some(
                        if ff < tt {
                            ff
                        } else {
                            tt
                        },
                    )
                },
            },
    {
        match (self.framerate, self.tickrate) {
            (None, None) => None,
            (None, Some(t)) => Some(1000 / t),
            (Some(f), None) => Some(1000 / f),
            (Some(f), Some(t)) => {
                let ff = 1000 / f;
                let tt = 1000 / t;
                Some(
                    if ff < tt {
                        ff
                    } else {
                        tt
                    },
                )
            },
        }
    }

    /// Whether this tick must redraw: never when compositor-driven (the
    /// frame callback decides instead), otherwise when the frame counter
    /// lands on the divisor.
    pub open spec fn spec_should_redraw(fpu: u32, counter: u32) -> bool {
        fpu != 0 && counter as int % fpu as int == 0
    }

    /// Whether this tick advances animations: always when compositor-driven,
    /// never when the divisor is the maximum, otherwise when the tick
    /// counter lands on the divisor.
    pub open spec fn spec_update_animations(tpu: u32, counter: u32) -> bool {
        if tpu == 0 {
            true
        } else if tpu == u32::MAX {
            false
        } else {
            counter as int % tpu as int == 0
        }
    }

    /// One pacing tick, at `now_ms` on the caller's monotonic clock. Both
    /// counters advance modulo the wraparound bound; the layer is marked
    /// damaged when a redraw or an animation update is due; a clean or
    /// empty layer is skipped without touching the GPU. Otherwise the layer
    /// is marked clean and, when animations are due, every renderable is
    /// advanced by the real elapsed time since the last animation update.
    /// The caller then records and presents the frame, requests the next
    /// frame callback, and commits whole-surface damage.
    pub fn draw_update(&mut self, now_ms: u64) -> (r: DrawDecision)
        requires
            old(self).wf(),
            old(self).last_animation_update_ms <= now_ms,
        ensures
            final(self).wf(),
            final(self).frame_counter == (old(self).frame_counter + 1) as int % (
            spec_counter_wrap() as int),
            final(self).tick_counter == (old(self).tick_counter + 1) as int % (
            spec_counter_wrap() as int),
            final(self).name == old(self).name,
            final(self).width == old(self).width,
            final(self).height == old(self).height,
            final(self).configured == old(self).configured,
            final(self).frames_per_update == old(self).frames_per_update,
            final(self).ticks_per_update == old(self).ticks_per_update,
            final(self).framerate == old(self).framerate,
            final(self).tickrate == old(self).tickrate,
            ({
                let should_redraw = Self::spec_should_redraw(
                    old(self).frames_per_update,
                    final(self).frame_counter,
                );
                let update_animations = Self::spec_update_animations(
                    old(self).ticks_per_update,
                    final(self).tick_counter,
                );
                let damaged_now = old(self).damaged || should_redraw || (update_animations && old(
                    self,
                ).ticks_per_update < u32::MAX);
                if !damaged_now || old(self).wallpaper.data@.len() == 0 {
                    &&& r is Skip
                    &&& final(self).damaged == damaged_now
                    &&& final(self).wallpaper == old(self).wallpaper
                    &&& final(self).last_animation_update_ms == old(
                        self,
                    ).last_animation_update_ms
                } else {
                    &&& r matches DrawDecision::Render { update_animations: ua, dt_ms } && ua
                        == update_animations && dt_ms == now_ms - old(
                        self,
                    ).last_animation_update_ms
                    &&& !final(self).damaged
                    &&& final(self).wallpaper.data@.len() == old(self).wallpaper.data@.len()
                    &&& (update_animations ==> forall|i: int|
                        0 <= i < final(self).wallpaper.data@.len() ==> spec_renderable_ticked(
                            old(self).wallpaper.data@[i],
                            #[trigger] final(self).wallpaper.data@[i],
                            (now_ms - old(self).last_animation_update_ms) as u64,
                        ))
                    &&& (!update_animations ==> final(self).wallpaper == old(self).wallpaper)
                    &&& final(self).last_animation_update_ms == (if update_animations {
                        now_ms
                    } else {
                        old(self).last_animation_update_ms
                    })
                }
            }),
    {
        self.frame_counter = (self.frame_counter + 1) % 6000;
        self.tick_counter = (self.tick_counter + 1) % 6000;

        let should_redraw = if self.frames_per_update == 0 {
            false
        } else {
            self.frame_counter % self.frames_per_update == 0
        };
        let update_animations = if self.ticks_per_update == 0 {
            true
        } else if self.ticks_per_update == u32::MAX {
            false
        } else {
            self.tick_counter % self.ticks_per_update == 0
        };

        if should_redraw || (update_animations && self.ticks_per_update < u32::MAX) {
            self.damaged = true;
        }
        if !self.damaged || self.wallpaper.empty() {
            return DrawDecision::Skip;
        }
        self.damaged = false;

        let dt_ms = now_ms - self.last_animation_update_ms;
        if update_animations {
            self.wallpaper.pre_render_all(dt_ms);
            self.last_animation_update_ms = now_ms;
        }
        DrawDecision::Render { update_animations, dt_ms }
    }
}

} // verus!
