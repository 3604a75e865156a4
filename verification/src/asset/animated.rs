//! Animated textures: an ordered sequence of frames, each a GPU texture with
//! a display duration, advanced by an accumulator-driven timing state
//! machine. The index only advances when the accumulator covers the current
//! frame's duration; a non-looping animation freezes on its last frame.

use vstd::prelude::*;

use crate::asset::image::{ImageTexture, RawImage};
use crate::gpu;

verus! {

/// A frame duration of at least one millisecond; `u64::MAX` marks a frame
/// that never expires (a static image).
pub open spec fn wf_durations(d: Seq<u64>) -> bool {
    &&& d.len() >= 1
    &&& forall|i: int| 0 <= i < d.len() ==> d[i] >= 1
}

/// The frame index after `i`, wrapping at `n`.
pub open spec fn next_idx(n: int, i: int) -> int {
    if i + 1 == n {
        0
    } else {
        i + 1
    }
}

/// The frame index `k` cyclic steps after `i` among `n` frames.
pub open spec fn idx_add(n: int, i: int, k: nat) -> int
    decreases k,
{
    if k == 0 {
        i
    } else {
        idx_add(n, next_idx(n, i), (k - 1) as nat)
    }
}

/// The summed duration of the `k` frames starting at index `i`, cyclically.
pub open spec fn sum_cyc(d: Seq<u64>, i: int, k: nat) -> nat
    decreases k,
{
    if k == 0 || !(0 <= i < d.len()) {
        0
    } else {
        (d[i] + sum_cyc(d, next_idx(d.len() as int, i), (k - 1) as nat)) as nat
    }
}

/// The timing step of the animation algorithm: while the accumulator covers
/// the current frame's duration, consume it and advance the index modulo the
/// frame count; a non-looping animation that would wrap past the end instead
/// freezes on the last frame with an empty accumulator. Returns the new
/// index and accumulator.
pub open spec fn spec_advance(d: Seq<u64>, i: int, acc: nat, looping: bool) -> (int, nat)
    decreases acc,
{
    if !wf_durations(d) || !(0 <= i < d.len()) {
        (i, acc)
    } else if d.len() <= 1 {
        (i, acc)
    } else if acc < d[i] {
        (i, acc)
    } else {
        let ni = next_idx(d.len() as int, i);
        if !looping && ni == 0 {
            (d.len() - 1, 0)
        } else {
            spec_advance(d, ni, (acc - d[i]) as nat, looping)
        }
    }
}

/// Addition on the millisecond clock saturates instead of wrapping.
pub open spec fn sat_add_u64(a: u64, b: u64) -> u64 {
    if a + b > u64::MAX {
        u64::MAX
    } else {
        (a + b) as u64
    }
}

/// The duration one frame is shown, derived from its encoded delay given as
/// a millisecond fraction `numer / denom`. A zero or invalid delay is
/// replaced by a fixed default of 100 ms, and a pathologically long delay
/// (over ten seconds) is capped at 500 ms.
pub open spec fn spec_frame_duration_ms(numer: u32, denom: u32) -> u64 {
    let ms = numer as int / denom as int;
    if numer == 0 || denom == 0 {
        100
    } else if ms > 10000 {
        500
    } else if ms == 0 {
        100
    } else {
        ms as u64
    }
}

/// Computes a frame's display duration from its encoded delay.
pub fn frame_duration_ms(numer: u32, denom: u32) -> (r: u64)
    ensures
        r == spec_frame_duration_ms(numer, denom),
        1 <= r <= 10000,
{
    if numer == 0 || denom == 0 {
        100
    } else {
        let ms: u64 = (numer as u64) / (denom as u64);
        if ms > 10000 {
            500
        } else if ms == 0 {
            100
        } else {
            ms
        }
    }
}

/// A decoded animation frame as plain data: its pixels and its encoded delay
/// as a millisecond fraction.
pub struct RawFrame {
    pub image: RawImage,
    pub delay_numer: u32,
    pub delay_denom: u32,
}

/// One frame of an animated texture: the GPU texture holding its pixels
/// and a view of it; the display durations live in the animation clock.
pub struct FrameTexture {
    pub texture: wgpu::Texture,
    pub view: wgpu::TextureView,
}

/// The timing state machine of an animation: the frame durations in order,
/// the index of the frame shown now, the elapsed-time accumulator, and the
/// looping flag. It carries no GPU state.
pub struct AnimationClock {
    durations_ms: Vec<u64>,
    current_frame: usize,
    looping: bool,
    time_accumulator_ms: u64,
}

impl AnimationClock {
    /// The display durations of the frames, in order.
    pub closed spec fn spec_durations(self) -> Seq<u64> {
        self.durations_ms@
    }

    /// The index of the frame shown now.
    pub closed spec fn spec_current(self) -> int {
        self.current_frame as int
    }

    /// The timing accumulator, in milliseconds.
    pub closed spec fn spec_acc(self) -> nat {
        self.time_accumulator_ms as nat
    }

    /// Whether the animation starts over after its last frame.
    pub closed spec fn spec_looping(self) -> bool {
        self.looping
    }

    /// There is at least one frame, every duration is at least one
    /// millisecond, and the current index is in range.
    pub open spec fn wf(self) -> bool {
        &&& wf_durations(self.spec_durations())
        &&& 0 <= self.spec_current() < self.spec_durations().len()
    }

    /// A clock over the given frame durations, at the first frame.
    pub fn from_durations(durations_ms: Vec<u64>, looping: bool) -> (r: Self)
        requires
            wf_durations(durations_ms@),
        ensures
            r.wf(),
            r.spec_durations() == durations_ms@,
            r.spec_current() == 0,
            r.spec_acc() == 0,
            r.spec_looping() == looping,
    {
        AnimationClock { durations_ms, current_frame: 0, looping, time_accumulator_ms: 0 }
    }

    /// A clock for a static asset: one never-expiring frame.
    pub fn new_static(looping: bool) -> (r: Self)
        ensures
            r.wf(),
            r.spec_durations() == seq![u64::MAX],
            r.spec_current() == 0,
            r.spec_acc() == 0,
            r.spec_looping() == looping,
    {
        let mut durations_ms: Vec<u64> = Vec::with_capacity(1);
        durations_ms.push(u64::MAX);
        let r = AnimationClock { durations_ms, current_frame: 0, looping, time_accumulator_ms: 0 };
        proof {
            assert(r.spec_durations() =~= seq![u64::MAX]);
        }
        r
    }

    /// The index of the frame shown now.
    pub fn current_frame(&self) -> (r: usize)
        ensures
            r == self.spec_current(),
    {
        self.current_frame
    }

    /// How many frames the animation has.
    pub fn frame_count(&self) -> (r: usize)
        ensures
            r == self.spec_durations().len(),
    {
        self.durations_ms.len()
    }

    /// Whether the asset has more than one frame.
    pub open spec fn spec_is_animated(self) -> bool {
        self.spec_durations().len() > 1
    }

    /// Whether the asset is animated (has more than one frame).
    pub fn is_animated(&self) -> (r: bool)
        ensures
            r == self.spec_is_animated(),
    {
        self.durations_ms.len() > 1
    }

    /// Whether a non-looping animation rests on its last frame. Always false
    /// for a looping animation.
    pub fn is_finished(&self) -> (r: bool)
        requires
            self.wf(),
        ensures
            r == (!self.spec_looping() && self.spec_current() + 1 == self.spec_durations().len()),
    {
        !self.looping && self.current_frame == self.durations_ms.len() - 1
    }

    /// Sets whether the animation starts over after its last frame.
    pub fn set_looping(&mut self, looping: bool)
        requires
            old(self).wf(),
        ensures
            final(self).wf(),
            final(self).spec_looping() == looping,
            final(self).spec_durations() == old(self).spec_durations(),
            final(self).spec_current() == old(self).spec_current(),
            final(self).spec_acc() == old(self).spec_acc(),
    {
        self.looping = looping;
    }

    /// Returns the animation to its first frame with an empty accumulator.
    /// This is the only way a non-looping animation leaves its last frame.
    pub fn reset(&mut self)
        requires
            old(self).wf(),
        ensures
            final(self).wf(),
            final(self).spec_current() == 0,
            final(self).spec_acc() == 0,
            final(self).spec_durations() == old(self).spec_durations(),
            final(self).spec_looping() == old(self).spec_looping(),
    {
        self.current_frame = 0;
        self.time_accumulator_ms = 0;
    }

    /// Advances the animation by `dt_ms` milliseconds of real time and
    /// reports whether the visible frame changed, so callers can skip
    /// rebuilding their bind set when nothing changed. A single-frame asset
    /// never changes. The index always stays within the frame count; a
    /// non-looping animation never moves backwards and, once on its last
    /// frame, stays there until `reset`.
    pub fn update(&mut self, dt_ms: u64) -> (changed: bool)
        requires
            old(self).wf(),
        ensures
            final(self).wf(),
            final(self).spec_durations() == old(self).spec_durations(),
            final(self).spec_looping() == old(self).spec_looping(),
            old(self).spec_durations().len() <= 1 ==> *final(self) == *old(self) && !changed,
            old(self).spec_durations().len() > 1 ==> {
                let r = spec_advance(
                    old(self).spec_durations(),
                    old(self).spec_current(),
                    sat_add_u64(old(self).spec_acc() as u64, dt_ms) as nat,
                    old(self).spec_looping(),
                );
                &&& final(self).spec_current() == r.0
                &&& final(self).spec_acc() == r.1
            },
            changed == (final(self).spec_current() != old(self).spec_current()),
            0 <= final(self).spec_current() < final(self).spec_durations().len(),
            !old(self).spec_looping() ==> final(self).spec_current() >= old(self).spec_current(),
            (!old(self).spec_looping() && old(self).spec_current() + 1
                == old(self).spec_durations().len()) ==> final(self).spec_current() + 1
                == final(self).spec_durations().len(),
    {
        let n = self.durations_ms.len();
        if n <= 1 {
            return false;
        }
        let old_frame = self.current_frame;
        self.time_accumulator_ms = self.time_accumulator_ms.saturating_add(dt_ms);
        let ghost d = self.spec_durations();
        let ghost i0 = self.spec_current();
        let ghost total = self.spec_acc();
        let ghost l = self.spec_looping();
        let ghost durations0 = self.durations_ms@;
        loop
            invariant
                self.durations_ms@ == durations0,
                d == self.spec_durations(),
                wf_durations(d),
                n == self.durations_ms@.len(),
                n > 1,
                self.looping == l,
                0 <= self.current_frame < n,
                old_frame < n,
                spec_advance(d, self.spec_current(), self.spec_acc(), l) == spec_advance(
                    d,
                    i0,
                    total,
                    l,
                ),
            ensures
                self.durations_ms@ == durations0,
                self.looping == l,
                0 <= self.current_frame < n,
                (self.spec_current(), self.spec_acc()) == spec_advance(d, i0, total, l),
            decreases self.time_accumulator_ms,
        {
            let dur = self.durations_ms[self.current_frame];
            if self.time_accumulator_ms < dur {
                proof {
                    assert(spec_advance(d, self.spec_current(), self.spec_acc(), l) == (
                        self.spec_current(),
                        self.spec_acc(),
                    ));
                }
                break;
            }
            proof {
                assert(d[self.spec_current()] == dur);
                assert(dur >= 1);
            }
            self.time_accumulator_ms = self.time_accumulator_ms - dur;
            if self.current_frame + 1 == n {
                self.current_frame = 0;
            } else {
                self.current_frame = self.current_frame + 1;
            }
            if !self.looping && self.current_frame == 0 {
                self.current_frame = n - 1;
                self.time_accumulator_ms = 0;
                proof {
                    assert(d[n - 1] >= 1);
                    assert(spec_advance(d, n - 1, 0, l) == (n - 1 as int, 0 as nat));
                }
                break;
            }
        }
        let changed = old_frame != self.current_frame;
        proof {
            if !l {
                lemma_advance_monotone(d, i0, total);
                if i0 + 1 == d.len() {
                    lemma_advance_frozen(d, total);
                }
            } else {
                lemma_advance_in_range(d, i0, total, l);
            }
        }
        changed
    }
}

/// An animated texture: its frames in order, the timing state machine that
/// chooses the visible frame, and the sampler shared by all frames.
pub struct AnimatedTexture {
    frames: Vec<FrameTexture>,
    clock: AnimationClock,
    sampler: wgpu::Sampler,
}

impl AnimatedTexture {
    /// The display durations of the frames, in order.
    pub closed spec fn spec_durations(self) -> Seq<u64> {
        self.clock.spec_durations()
    }

    /// The index of the frame shown now.
    pub closed spec fn spec_current(self) -> int {
        self.clock.spec_current()
    }

    /// The timing accumulator, in milliseconds.
    pub closed spec fn spec_acc(self) -> nat {
        self.clock.spec_acc()
    }

    /// Whether the animation starts over after its last frame.
    pub closed spec fn spec_looping(self) -> bool {
        self.clock.spec_looping()
    }

    /// How many frame textures the animation holds.
    pub closed spec fn spec_texture_count(self) -> nat {
        self.frames@.len()
    }

    /// The timing state is well formed and there is one texture per
    /// duration.
    pub open spec fn wf(self) -> bool {
        &&& wf_durations(self.spec_durations())
        &&& 0 <= self.spec_current() < self.spec_durations().len()
        &&& self.spec_texture_count() == self.spec_durations().len()
    }

    /// Builds an animated texture by uploading every decoded frame to its
    /// own GPU texture; all frames share one sampler. Each frame's duration
    /// is derived from its encoded delay with the documented clamps.
    pub fn from_frames(
        device: &wgpu::Device,
        queue: &wgpu::Queue,
        frames: &Vec<RawFrame>,
        label: &str,
        looping: bool,
    ) -> (r: Self)
        requires
            frames@.len() >= 1,
            forall|i: int| 0 <= i < frames@.len() ==> #[trigger] frames@[i].image.wf(),
        ensures
            r.wf(),
            r.spec_durations() == frames@.map(
                |i: int, f: RawFrame| spec_frame_duration_ms(f.delay_numer, f.delay_denom),
            ),
            r.spec_current() == 0,
            r.spec_acc() == 0,
            r.spec_looping() == looping,
    {
        let sampler = gpu::create_clamp_sampler(device);
        let mut frame_textures: Vec<FrameTexture> = Vec::with_capacity(frames.len());
        let mut durations_ms: Vec<u64> = Vec::with_capacity(frames.len());
        let ghost target = frames@.map(
            |i: int, f: RawFrame| spec_frame_duration_ms(f.delay_numer, f.delay_denom),
        );
        let mut i: usize = 0;
        while i < frames.len()
            invariant
                0 <= i <= frames@.len(),
                frame_textures@.len() == i,
                durations_ms@.len() == i,
                forall|j: int| 0 <= j < frames@.len() ==> #[trigger] frames@[j].image.wf(),
                forall|j: int| 0 <= j < i ==> #[trigger] durations_ms@[j] == target[j],
                forall|j: int| 0 <= j < i ==> 1 <= #[trigger] durations_ms@[j] <= 10000,
                target == frames@.map(
                    |k: int, f: RawFrame| spec_frame_duration_ms(f.delay_numer, f.delay_denom),
                ),
            decreases frames@.len() - i,
        {
            let frame = &frames[i];
            proof {
                assert(frames@[i as int].image.wf());
            }
            let duration_ms = frame_duration_ms(frame.delay_numer, frame.delay_denom);
            let texture: wgpu::Texture;
            let usable = 1 <= frame.image.width && frame.image.width <= gpu::MAX_TEXTURE_DIMENSION
                && 1 <= frame.image.height && frame.image.height <= gpu::MAX_TEXTURE_DIMENSION;
            if usable {
                texture = gpu::create_texture_rgba(
                    device,
                    queue,
                    label,
                    frame.image.width,
                    frame.image.height,
                    &frame.image.rgba,
                );
            } else {
                // The GPU refuses zero-size and over-limit textures; such a
                // frame keeps its place and duration but shows one clear
                // pixel.
                let mut clear_pixel: Vec<u8> = Vec::with_capacity(4);
                clear_pixel.push(0);
                clear_pixel.push(0);
                clear_pixel.push(0);
                clear_pixel.push(0);
                texture = gpu::create_texture_rgba(device, queue, label, 1, 1, &clear_pixel);
            }
            let view = gpu::create_default_view(&texture);
            frame_textures.push(FrameTexture { texture, view });
            durations_ms.push(duration_ms);
            i += 1;
        }
        proof {
            assert(durations_ms@ =~= target);
        }
        let clock = AnimationClock::from_durations(durations_ms, looping);
        AnimatedTexture { frames: frame_textures, clock, sampler }
    }

    /// Wraps one static image as a single never-expiring frame, so a static
    /// asset and an animation expose the same interface.
    pub fn from_single_image(
        device: &wgpu::Device,
        queue: &wgpu::Queue,
        image: &RawImage,
        label: &str,
        looping: bool,
    ) -> (r: Self)
        requires
            image.wf(),
            1 <= image.width <= gpu::MAX_TEXTURE_DIMENSION,
            1 <= image.height <= gpu::MAX_TEXTURE_DIMENSION,
        ensures
            r.wf(),
            r.spec_durations() == seq![u64::MAX],
            r.spec_current() == 0,
            r.spec_acc() == 0,
            r.spec_looping() == looping,
            !r.spec_is_animated(),
    {
        let image_texture = ImageTexture::from_image(device, queue, image, label);
        let frame = FrameTexture { texture: image_texture.texture, view: image_texture.view };
        let mut frames: Vec<FrameTexture> = Vec::with_capacity(1);
        frames.push(frame);
        let clock = AnimationClock::new_static(looping);
        AnimatedTexture { frames, clock, sampler: image_texture.sampler }
    }

    /// The current frame's texture view.
    pub fn view(&self) -> (r: &wgpu::TextureView)
        requires
            self.wf(),
    {
        &self.frames[self.clock.current_frame()].view
    }

    /// The sampler shared by all frames.
    pub fn sampler(&self) -> &wgpu::Sampler {
        &self.sampler
    }

    /// How many frames the animation has.
    pub fn frame_count(&self) -> (r: usize)
        ensures
            r == self.spec_durations().len(),
    {
        self.clock.frame_count()
    }

    /// Whether the asset has more than one frame.
    pub open spec fn spec_is_animated(self) -> bool {
        self.spec_durations().len() > 1
    }

    /// Whether the asset is animated (has more than one frame).
    pub fn is_animated(&self) -> (r: bool)
        ensures
            r == self.spec_is_animated(),
    {
        self.clock.is_animated()
    }

    /// Whether a non-looping animation rests on its last frame. Always false
    /// for a looping animation.
    pub fn is_finished(&self) -> (r: bool)
        requires
            self.wf(),
        ensures
            r == (!self.spec_looping() && self.spec_current() + 1 == self.spec_durations().len()),
    {
        self.clock.is_finished()
    }

    /// Sets whether the animation starts over after its last frame.
    pub fn set_looping(&mut self, looping: bool)
        requires
            old(self).wf(),
        ensures
            final(self).wf(),
            final(self).spec_looping() == looping,
            final(self).spec_durations() == old(self).spec_durations(),
            final(self).spec_current() == old(self).spec_current(),
            final(self).spec_acc() == old(self).spec_acc(),
    {
        self.clock.set_looping(looping);
    }

    /// Returns the animation to its first frame with an empty accumulator.
    pub fn reset(&mut self)
        requires
            old(self).wf(),
        ensures
            final(self).wf(),
            final(self).spec_current() == 0,
            final(self).spec_acc() == 0,
            final(self).spec_durations() == old(self).spec_durations(),
            final(self).spec_looping() == old(self).spec_looping(),
    {
        self.clock.reset();
    }

    /// Advances the animation by `dt_ms` milliseconds of real time and
    /// reports whether the visible frame changed.
    pub fn update(&mut self, dt_ms: u64) -> (changed: bool)
        requires
            old(self).wf(),
        ensures
            final(self).wf(),
            final(self).spec_durations() == old(self).spec_durations(),
            final(self).spec_looping() == old(self).spec_looping(),
            old(self).spec_durations().len() <= 1 ==> *final(self) == *old(self) && !changed,
            old(self).spec_durations().len() > 1 ==> {
                let r = spec_advance(
                    old(self).spec_durations(),
                    old(self).spec_current(),
                    sat_add_u64(old(self).spec_acc() as u64, dt_ms) as nat,
                    old(self).spec_looping(),
                );
                &&& final(self).spec_current() == r.0
                &&& final(self).spec_acc() == r.1
            },
            changed == (final(self).spec_current() != old(self).spec_current()),
            0 <= final(self).spec_current() < final(self).spec_durations().len(),
            !old(self).spec_looping() ==> final(self).spec_current() >= old(self).spec_current(),
            (!old(self).spec_looping() && old(self).spec_current() + 1
                == old(self).spec_durations().len()) ==> final(self).spec_current() + 1
                == final(self).spec_durations().len(),
    {
        let changed = self.clock.update(dt_ms);
        changed
    }
}

/// The container formats that can hold a multi-frame animation.
pub enum AnimatedKind {
    Webp,
    Gif,
}

/// The animation frames the bytes decode to for a container kind, as plain
/// data: a WebP stream's frames count only when it declares an animation,
/// and a stream that does not parse completely yields nothing.
pub open spec fn spec_decoded_animation(kind: AnimatedKind, data: Seq<u8>) -> Option<
    Seq<RawFrame>,
> {
    match kind {
        AnimatedKind::Webp => if crate::decode::spec_webp_is_animated(data) {
            crate::decode::spec_webp_decoded(data)
        } else {
            None
        },
        AnimatedKind::Gif => crate::decode::spec_gif_decoded(data),
    }
}

/// How many usable animation frames the bytes decode to for a container
/// kind.
pub open spec fn spec_animation_frames(kind: AnimatedKind, data: Seq<u8>) -> nat {
    match spec_decoded_animation(kind, data) {
        Some(frames) => frames.len(),
        None => 0,
    }
}

/// The display durations the decoded animation frames carry, each derived
/// from its encoded delay with the documented clamps.
pub open spec fn spec_animation_durations(kind: AnimatedKind, data: Seq<u8>) -> Seq<u64> {
    match spec_decoded_animation(kind, data) {
        Some(frames) => frames.map(
            |i: int, f: RawFrame| spec_frame_duration_ms(f.delay_numer, f.delay_denom),
        ),
        None => Seq::empty(),
    }
}

impl AnimatedTexture {
    /// Builds the texture from whatever the animation decode produced. If
    /// decoding yielded no usable frame, the fallback image becomes a single
    /// never-expiring static frame, so the result is not animated and its
    /// per-frame update is a no-op.
    pub fn from_decoded(
        device: &wgpu::Device,
        queue: &wgpu::Queue,
        frames: &Vec<RawFrame>,
        fallback: &RawImage,
        label: &str,
        looping: bool,
    ) -> (r: Self)
        requires
            fallback.wf(),
            1 <= fallback.width <= gpu::MAX_TEXTURE_DIMENSION,
            1 <= fallback.height <= gpu::MAX_TEXTURE_DIMENSION,
            forall|i: int| 0 <= i < frames@.len() ==> #[trigger] frames@[i].image.wf(),
        ensures
            r.wf(),
            r.spec_current() == 0,
            r.spec_acc() == 0,
            r.spec_looping() == looping,
            frames@.len() == 0 ==> r.spec_durations() == seq![u64::MAX] && !r.spec_is_animated(),
            frames@.len() >= 1 ==> r.spec_durations() == frames@.map(
                |i: int, f: RawFrame| spec_frame_duration_ms(f.delay_numer, f.delay_denom),
            ),
    {
        if frames.len() == 0 {
            Self::from_single_image(device, queue, fallback, label, looping)
        } else {
            Self::from_frames(device, queue, frames, label, looping)
        }
    }

    /// Loads an animation from an encoded file held in memory. The frames
    /// are decoded eagerly; a WebP without an animation header, a stream
    /// that does not parse, or a zero-frame result all fall back to showing
    /// the file as a single static frame. It yields something exactly when
    /// the bytes hold animation frames or decode to a usable still image,
    /// and what it yields shows the frames and delays of the bytes.
    pub fn from_bytes(
        device: &wgpu::Device,
        queue: &wgpu::Queue,
        data: &Vec<u8>,
        kind: AnimatedKind,
        label: &str,
        looping: bool,
    ) -> (r: Option<Self>)
        ensures
            r is Some <==> (spec_animation_frames(kind, data@) >= 1
                || crate::decode::spec_decodes_usable(data@)),
            r matches Some(t) ==> {
                &&& t.wf()
                &&& t.spec_current() == 0
                &&& t.spec_acc() == 0
                &&& t.spec_looping() == looping
            },
            r matches Some(t) ==> (spec_animation_frames(kind, data@) >= 1
                ==> t.spec_durations() == spec_animation_durations(kind, data@)),
            r matches Some(t) ==> (spec_animation_frames(kind, data@) == 0 ==> (t.spec_durations()
                == seq![u64::MAX] && !t.spec_is_animated())),
    {
        let ghost frames_expected = spec_animation_frames(kind, data@);
        let raw_frames: Vec<RawFrame> = match kind {
            AnimatedKind::Webp => {
                if crate::decode::webp_has_animation(data) {
                    match crate::decode::decode_webp_frames(data) {
                        Some(frames) => frames,
                        None => Vec::new(),
                    }
                } else {
                    Vec::new()
                }
            },
            AnimatedKind::Gif => {
                match crate::decode::decode_gif_frames(data) {
                    Some(frames) => frames,
                    None => Vec::new(),
                }
            },
        };
        proof {
            assert(raw_frames@.len() == frames_expected);
            if frames_expected >= 1 {
                assert(raw_frames@ == spec_decoded_animation(kind, data@).unwrap());
            }
        }
        match crate::decode::decode_image(data) {
            Some(fallback) => {
                let usable = 1 <= fallback.width && fallback.width <= gpu::MAX_TEXTURE_DIMENSION
                    && 1 <= fallback.height && fallback.height <= gpu::MAX_TEXTURE_DIMENSION;
                if usable {
                    Some(Self::from_decoded(device, queue, &raw_frames, &fallback, label, looping))
                } else if raw_frames.len() >= 1 {
                    Some(Self::from_frames(device, queue, &raw_frames, label, looping))
                } else {
                    None
                }
            },
            None => {
                if raw_frames.len() >= 1 {
                    Some(Self::from_frames(device, queue, &raw_frames, label, looping))
                } else {
                    None
                }
            },
        }
    }
}

/// The advance step never leaves the frame range.
pub proof fn lemma_advance_in_range(d: Seq<u64>, i: int, acc: nat, looping: bool)
    requires
        wf_durations(d),
        0 <= i < d.len(),
    ensures
        0 <= spec_advance(d, i, acc, looping).0 < d.len(),
    decreases acc,
{
    if d.len() <= 1 || acc < d[i] {
    } else {
        let ni = next_idx(d.len() as int, i);
        if !looping && ni == 0 {
        } else {
            lemma_advance_in_range(d, ni, (acc - d[i]) as nat, looping);
        }
    }
}

/// A non-looping animation never moves backwards: the advance step can only
/// increase the frame index.
pub proof fn lemma_advance_monotone(d: Seq<u64>, i: int, acc: nat)
    requires
        wf_durations(d),
        0 <= i < d.len(),
    ensures
        i <= spec_advance(d, i, acc, false).0 < d.len(),
    decreases acc,
{
    if d.len() <= 1 || acc < d[i] {
    } else {
        let ni = next_idx(d.len() as int, i);
        if ni == 0 {
        } else {
            lemma_advance_monotone(d, ni, (acc - d[i]) as nat);
        }
    }
}

/// Once a non-looping animation rests on its last frame, any further advance
/// leaves it there: the last frame absorbs.
pub proof fn lemma_advance_frozen(d: Seq<u64>, acc: nat)
    requires
        wf_durations(d),
    ensures
        spec_advance(d, d.len() - 1, acc, false).0 == d.len() - 1,
{
}

/// Advancing a looping animation by two amounts of time one after the other
/// reaches the same state as advancing by their sum at once: distinct `dt`
/// deliveries compose.
pub proof fn lemma_advance_additive(d: Seq<u64>, i: int, acc: nat, dt: nat)
    requires
        wf_durations(d),
        0 <= i < d.len(),
    ensures
        ({
            let r = spec_advance(d, i, acc, true);
            spec_advance(d, r.0, (r.1 + dt) as nat, true) == spec_advance(
                d,
                i,
                (acc + dt) as nat,
                true,
            )
        }),
    decreases acc,
{
    if d.len() <= 1 || acc < d[i] {
    } else {
        let ni = next_idx(d.len() as int, i);
        lemma_advance_additive(d, ni, (acc - d[i]) as nat, dt);
    }
}

/// The cyclic step index stays within the frame range.
proof fn lemma_idx_add_range(n: int, i: int, k: nat)
    requires
        n >= 1,
        0 <= i < n,
    ensures
        0 <= idx_add(n, i, k) < n,
    decreases k,
{
    if k > 0 {
        lemma_idx_add_range(n, next_idx(n, i), (k - 1) as nat);
    }
}

/// Taking cyclic steps composes.
proof fn lemma_idx_add_compose(n: int, i: int, k1: nat, k2: nat)
    requires
        n >= 1,
        0 <= i < n,
    ensures
        idx_add(n, i, (k1 + k2) as nat) == idx_add(n, idx_add(n, i, k1), k2),
    decreases k1,
{
    if k1 > 0 {
        lemma_idx_add_compose(n, next_idx(n, i), (k1 - 1) as nat, k2);
    }
}

/// Cyclic steps that stay before the wrap point are plain addition.
proof fn lemma_idx_add_nowrap(n: int, i: int, k: nat)
    requires
        n >= 1,
        0 <= i < n,
        i + k <= n - 1,
    ensures
        idx_add(n, i, k) == i + k,
    decreases k,
{
    if k > 0 {
        lemma_idx_add_nowrap(n, i + 1, (k - 1) as nat);
    }
}

/// Taking as many cyclic steps as there are frames returns to the start.
proof fn lemma_idx_add_full(n: int, i: int)
    requires
        n >= 1,
        0 <= i < n,
    ensures
        idx_add(n, i, n as nat) == i,
{
    let k1 = (n - 1 - i) as nat;
    lemma_idx_add_nowrap(n, i, k1);
    assert(idx_add(n, i, k1) == n - 1);
    lemma_idx_add_compose(n, i, k1, (i + 1) as nat);
    assert(idx_add(n, i, n as nat) == idx_add(n, n - 1, (i + 1) as nat));
    assert(idx_add(n, n - 1, (i + 1) as nat) == idx_add(n, 0, i as nat));
    lemma_idx_add_nowrap(n, 0, i as nat);
}

/// Summing cyclic durations composes.
proof fn lemma_sum_cyc_compose(d: Seq<u64>, i: int, k1: nat, k2: nat)
    requires
        d.len() >= 1,
        0 <= i < d.len(),
    ensures
        sum_cyc(d, i, (k1 + k2) as nat) == sum_cyc(d, i, k1) + sum_cyc(
            d,
            idx_add(d.len() as int, i, k1),
            k2,
        ),
    decreases k1,
{
    let n = d.len() as int;
    lemma_idx_add_range(n, i, k1);
    if k1 > 0 {
        lemma_sum_cyc_compose(d, next_idx(n, i), (k1 - 1) as nat, k2);
    }
}

/// One full cyclic lap sums to the same total from every starting frame.
pub proof fn lemma_sum_cyc_rotation(d: Seq<u64>, i: int)
    requires
        d.len() >= 1,
        0 <= i < d.len(),
    ensures
        sum_cyc(d, i, d.len()) == sum_cyc(d, 0, d.len()),
{
    let n = d.len() as int;
    let k1 = (n - i) as nat;
    // The total from 0 splits at i.
    lemma_sum_cyc_compose(d, 0, i as nat, k1);
    lemma_idx_add_nowrap(n, 0, i as nat);
    // The total from i splits at the wrap point.
    lemma_sum_cyc_compose(d, i, k1, i as nat);
    lemma_idx_add_nowrap(n, i, (n - 1 - i) as nat);
    lemma_idx_add_compose(n, i, (n - 1 - i) as nat, 1);
    assert(idx_add(n, i, k1) == idx_add(n, n - 1, 1));
    assert(idx_add(n, n - 1, 1) == idx_add(n, next_idx(n, n - 1), 0));
    assert(next_idx(n, n - 1) == 0);
    assert(idx_add(n, i, k1) == 0);
}

/// Advancing by the summed duration of the next `k` frames moves the index
/// exactly `k` cyclic steps and leaves the accumulator as it was.
pub proof fn lemma_advance_cycle_k(d: Seq<u64>, i: int, acc: nat, k: nat)
    requires
        wf_durations(d),
        d.len() > 1,
        0 <= i < d.len(),
    ensures
        spec_advance(d, i, (acc + sum_cyc(d, i, k)) as nat, true) == spec_advance(
            d,
            idx_add(d.len() as int, i, k),
            acc,
            true,
        ),
    decreases k,
{
    let n = d.len() as int;
    if k > 0 {
        let ni = next_idx(n, i);
        assert(sum_cyc(d, i, k) == d[i] + sum_cyc(d, ni, (k - 1) as nat));
        assert(acc + sum_cyc(d, i, k) >= d[i]);
        lemma_advance_cycle_k(d, ni, acc, (k - 1) as nat);
    }
}

/// Looping full-cycle law: adding the whole animation's total duration to
/// the accumulator returns the animation to exactly the state it was in, so
/// any sequence of `dt` advances that sums to one full cycle brings the
/// index back to its starting value.
pub proof fn lemma_advance_full_cycle(d: Seq<u64>, i: int, acc: nat)
    requires
        wf_durations(d),
        d.len() > 1,
        0 <= i < d.len(),
    ensures
        spec_advance(d, i, (acc + sum_cyc(d, 0, d.len())) as nat, true) == spec_advance(
            d,
            i,
            acc,
            true,
        ),
{
    lemma_sum_cyc_rotation(d, i);
    lemma_advance_cycle_k(d, i, acc, d.len());
    lemma_idx_add_full(d.len() as int, i);
}

} // verus!
