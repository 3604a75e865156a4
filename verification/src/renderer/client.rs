//! The live set of display layers and the wallpaper-switching and query
//! operations a control request drives. The compositor protocol state and
//! the GPU device live in the surrounding application; every mutation here
//! happens on the single core thread between draws.

use vstd::prelude::*;

use crate::renderer::pipeline::Pipelines;
use crate::renderer::wallpaper_layer::{spec_native_rate, spec_rate_divisor, WallpaperLayer};
use crate::types::{ActiveWallpaperInfo, WallpaperSet};
use crate::utils::str_eq;

verus! {

/// The live display layers, one per connected output.
pub struct Wallpapers(pub Vec<WallpaperLayer>);

/// The service interval a layer asks for, in milliseconds: the shorter of
/// the periods its declared rates name.
pub open spec fn spec_layer_interval(l: WallpaperLayer) -> Option<u64> {
    match (l.framerate, l.tickrate) {
        (None, None) => None,
        (None, Some(t)) => Some((1000int / t as int) as u64),
        (Some(f), None) => Some((1000int / f as int) as u64),
        (Some(f), Some(t)) => {
            let ff = (1000int / f as int) as u64;
            let tt = (1000int / t as int) as u64;
            Some(
                if ff < tt {
                    ff
                } else {
                    tt
                },
            )
        },
    }
}

impl Wallpapers {
    /// Every layer is well formed.
    pub open spec fn wf(self) -> bool {
        forall|i: int| 0 <= i < self.0@.len() ==> (#[trigger] self.0@[i]).wf()
    }

    /// No layers yet.
    pub fn new() -> (r: Self)
        ensures
            r.wf(),
            r.0@.len() == 0,
    {
        Wallpapers(Vec::new())
    }

    /// The longest service interval any layer asks for, so the event loop
    /// can rest that long without starving a display.
    pub fn get_recommended_update_interval(&self) -> (r: Option<u64>)
        requires
            self.wf(),
        ensures
            r is None ==> forall|i: int|
                0 <= i < self.0@.len() ==> spec_layer_interval(#[trigger] self.0@[i]) is None,
            r matches Some(v) ==> (exists|i: int|
                0 <= i < self.0@.len() && spec_layer_interval(#[trigger] self.0@[i]) == Some(v))
                && (forall|i: int|
                0 <= i < self.0@.len() ==> (spec_layer_interval(#[trigger] self.0@[i]) matches Some(
                    w,
                ) ==> w <= v)),
    {
        let mut best: Option<u64> = None;
        let mut i: usize = 0;
        while i < self.0.len()
            invariant
                self.wf(),
                0 <= i <= self.0@.len(),
                best is None ==> forall|j: int|
                    0 <= j < i ==> spec_layer_interval(#[trigger] self.0@[j]) is None,
                best matches Some(v) ==> (exists|j: int|
                    0 <= j < i && spec_layer_interval(#[trigger] self.0@[j]) == Some(v)) && (
                forall|j: int|
                    0 <= j < i ==> (spec_layer_interval(#[trigger] self.0@[j]) matches Some(w)
                        ==> w <= v)),
            decreases self.0@.len() - i,
        {
            let layer = &self.0[i];
            let interval = layer.get_recommended_update_interval();
            proof {
                assert(interval == spec_layer_interval(self.0@[i as int]));
            }
            match interval {
                Some(v) => {
                    best = match best {
                        Some(b) => {
                            if v > b {
                                Some(v)
                            } else {
                                Some(b)
                            }
                        },
                        None => Some(v),
                    };
                },
                None => {},
            }
            i += 1;
        }
        best
    }

    /// The first layer showing on the output with the given name.
    pub fn find_monitor(&self, name: &str) -> (r: Option<usize>)
        ensures
            r matches Some(i) ==> i < self.0@.len() && self.0@[i as int].name@ == name@,
            r is None ==> forall|i: int|
                0 <= i < self.0@.len() ==> (#[trigger] self.0@[i]).name@ != name@,
    {
        let mut i: usize = 0;
        while i < self.0.len()
            invariant
                0 <= i <= self.0@.len(),
                forall|j: int| 0 <= j < i ==> (#[trigger] self.0@[j]).name@ != name@,
            decreases self.0@.len() - i,
        {
            if str_eq(self.0[i].name.as_str(), name) {
                return Some(i);
            }
            i += 1;
        }
        None
    }

    /// Replaces one display's assembly with a freshly built one and rederives
    /// its pacing from the wallpaper's declared rates; the display is marked
    /// damaged so the next draw shows the new wallpaper. Every other display
    /// is left untouched.
    pub fn apply_wallpaper_at(
        &mut self,
        index: usize,
        assembly: Pipelines,
        framerate: i32,
        tickrate: i32,
    )
        requires
            old(self).wf(),
            index < old(self).0@.len(),
            assembly.wf(),
        ensures
            final(self).wf(),
            final(self).0@.len() == old(self).0@.len(),
            forall|i: int|
                0 <= i < final(self).0@.len() && i != index ==> #[trigger] final(self).0@[i]
                    == old(self).0@[i],
            final(self).0@[index as int] == (WallpaperLayer {
                wallpaper: assembly,
                damaged: true,
                frames_per_update: spec_rate_divisor(framerate, spec_native_rate()),
                ticks_per_update: spec_rate_divisor(tickrate, spec_native_rate()),
                ..old(self).0@[index as int]
            }),
    {
        let layer = &mut self.0[index];
        layer.wallpaper = assembly;
        layer.set_framerate(framerate);
        layer.set_tickrate(tickrate);
        layer.damaged = true;
    }

    /// What each display currently shows: the layer's name and its pixel
    /// size, in display order.
    pub fn active_wallpapers(&self) -> (r: Vec<ActiveWallpaperInfo>)
        ensures
            r@.len() == self.0@.len(),
            forall|i: int|
                0 <= i < r@.len() ==> {
                    &&& (#[trigger] r@[i]).name@ == self.0@[i].name@
                    &&& r@[i].output_name@ == self.0@[i].name@
                    &&& r@[i].width == self.0@[i].width
                    &&& r@[i].height == self.0@[i].height
                },
    {
        let mut out: Vec<ActiveWallpaperInfo> = Vec::with_capacity(self.0.len());
        let mut i: usize = 0;
        while i < self.0.len()
            invariant
                0 <= i <= self.0@.len(),
                out@.len() == i,
                forall|j: int|
                    0 <= j < i ==> {
                        &&& (#[trigger] out@[j]).name@ == self.0@[j].name@
                        &&& out@[j].output_name@ == self.0@[j].name@
                        &&& out@[j].width == self.0@[j].width
                        &&& out@[j].height == self.0@[j].height
                    },
            decreases self.0@.len() - i,
        {
            let layer = &self.0[i];
            out.push(
                ActiveWallpaperInfo {
                    name: layer.name.clone(),
                    output_name: layer.name.clone(),
                    width: layer.width,
                    height: layer.height,
                },
            );
            i += 1;
        }
        out
    }
}

/// The displays a wallpaper-set request targets: every display when no
/// monitor is named, the first display with the named output otherwise, and
/// an error naming the monitor when no such display is active.
pub fn set_wallpaper_targets(wallpapers: &Wallpapers, monitor: &Option<String>) -> (r: Result<
    Vec<usize>,
    String,
>)
    ensures
        monitor is None ==> (r matches Ok(ts) && ts@.len() == wallpapers.0@.len() && forall|i: int|
            0 <= i < ts@.len() ==> #[trigger] ts@[i] == i),
        (monitor matches Some(m) && (exists|i: int|
            0 <= i < wallpapers.0@.len() && (#[trigger] wallpapers.0@[i]).name@ == m@)) ==> (
        r matches Ok(ts) && ts@.len() == 1 && ts@[0] < wallpapers.0@.len()
            && wallpapers.0@[ts@[0] as int].name@ == monitor.unwrap()@),
        (monitor matches Some(m) && (forall|i: int|
            0 <= i < wallpapers.0@.len() ==> (#[trigger] wallpapers.0@[i]).name@ != m@)) ==> (
        r matches Err(e) && e@ == "Monitor '"@ + monitor.unwrap()@ + "' not found"@),
{
    match monitor {
        Some(m) => {
            match wallpapers.find_monitor(m.as_str()) {
                Some(i) => {
                    let mut ts: Vec<usize> = Vec::with_capacity(1);
                    ts.push(i);
                    Ok(ts)
                },
                None => {
                    let head: String = "Monitor '".to_owned();
                    let mid = head.concat(m.as_str());
                    let msg = mid.concat("' not found");
                    Err(msg)
                },
            }
        },
        None => {
            let mut ts: Vec<usize> = Vec::with_capacity(wallpapers.0.len());
            let mut i: usize = 0;
            while i < wallpapers.0.len()
                invariant
                    0 <= i <= wallpapers.0@.len(),
                    ts@.len() == i,
                    forall|j: int| 0 <= j < i ==> #[trigger] ts@[j] == j,
                decreases wallpapers.0@.len() - i,
            {
                ts.push(i);
                i += 1;
            }
            Ok(ts)
        },
    }
}

/// A successful wallpaper-set response.
pub fn wallpaper_set_ok(name: String) -> (r: WallpaperSet)
    ensures
        r.name@ == name@,
        r.success,
        r.error is None,
{
    WallpaperSet { name, success: true, error: None }
}

/// A failed wallpaper-set response carrying the reason.
pub fn wallpaper_set_err(name: String, error: String) -> (r: WallpaperSet)
    ensures
        r.name@ == name@,
        !r.success,
        r.error matches Some(e) && e@ == error@,
{
    WallpaperSet { name, success: false, error: Some(error) }
}

} // verus!
