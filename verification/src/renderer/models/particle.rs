//! The particle field render model: a fixed-capacity pool of particle
//! records in CPU memory, mirrored into a GPU buffer by the surrounding
//! application after each update. The behavior that moves, spawns and
//! expires particles is pluggable and hands the host a list of commands; the
//! host enforces the pool's capacity bounds regardless of what the behavior
//! requests.

use std::sync::Arc;
use vstd::prelude::*;

use crate::asset::image::{ImageTexture, RawImage};
use crate::gpu;
use crate::renderer::manager::Manager;

verus! {

/// One slot of the particle pool: whether it holds a live particle, and the
/// particle's kinematic state as the bytes the behavior computed.
pub struct ParticleRecord {
    /// Whether the slot holds a live particle.
    pub alive: bool,
    /// The particle's kinematic state, encoded by the behavior.
    pub payload: Vec<u8>,
}

/// What a behavior step asks the host to do with the pool.
pub enum ParticleCommand {
    /// Put a new particle into the first dead slot, if one is free.
    Spawn {
        /// The new particle's state.
        payload: Vec<u8>,
    },
    /// Replace the record in an existing slot; out-of-range slots are
    /// ignored.
    Update {
        /// The slot to replace.
        index: usize,
        /// Whether the slot stays alive.
        alive: bool,
        /// The slot's new state.
        payload: Vec<u8>,
    },
    /// Mark a slot dead; out-of-range slots are ignored.
    Kill {
        /// The slot to clear.
        index: usize,
    },
}

/// The index of the first dead slot, if any.
pub open spec fn spec_first_dead(s: Seq<ParticleRecord>) -> Option<int>
    decreases s.len(),
{
    if s.len() == 0 {
        None
    } else if !s[0].alive {
        Some(0)
    } else {
        match spec_first_dead(s.skip(1)) {
            Some(i) => Some(i + 1),
            None => None,
        }
    }
}

/// The pool after one command: a spawn fills the first dead slot and is
/// dropped when every slot is live; an update or kill touches only a slot
/// that exists. The pool's length never changes.
pub open spec fn spec_apply_one(s: Seq<ParticleRecord>, c: ParticleCommand) -> Seq<ParticleRecord> {
    match c {
        ParticleCommand::Spawn { payload } => {
            match spec_first_dead(s) {
                Some(i) => s.update(i, ParticleRecord { alive: true, payload }),
                None => s,
            }
        },
        ParticleCommand::Update { index, alive, payload } => {
            if index < s.len() {
                s.update(index as int, ParticleRecord { alive, payload })
            } else {
                s
            }
        },
        ParticleCommand::Kill { index } => {
            if index < s.len() {
                s.update(
                    index as int,
                    ParticleRecord { alive: false, payload: s[index as int].payload },
                )
            } else {
                s
            }
        },
    }
}

/// The pool after a whole list of commands, applied in order.
pub open spec fn spec_apply_commands(
    s: Seq<ParticleRecord>,
    cmds: Seq<ParticleCommand>,
) -> Seq<ParticleRecord>
    decreases cmds.len(),
{
    if cmds.len() == 0 {
        s
    } else {
        spec_apply_commands(spec_apply_one(s, cmds[0]), cmds.skip(1))
    }
}

/// Applying commands never changes the pool's size.
pub proof fn lemma_apply_commands_len(s: Seq<ParticleRecord>, cmds: Seq<ParticleCommand>)
    ensures
        spec_apply_commands(s, cmds).len() == s.len(),
    decreases cmds.len(),
{
    if cmds.len() > 0 {
        lemma_apply_one_len(s, cmds[0]);
        lemma_apply_commands_len(spec_apply_one(s, cmds[0]), cmds.skip(1));
    }
}

/// One command never changes the pool's size.
pub proof fn lemma_apply_one_len(s: Seq<ParticleRecord>, c: ParticleCommand)
    ensures
        spec_apply_one(s, c).len() == s.len(),
{
    match c {
        ParticleCommand::Spawn { payload } => {
            if spec_first_dead(s) is Some {
                lemma_first_dead_in_range(s);
            }
        },
        _ => {},
    }
}

/// The first dead slot, when there is one, lies inside the pool and is dead.
pub proof fn lemma_first_dead_in_range(s: Seq<ParticleRecord>)
    requires
        spec_first_dead(s) is Some,
    ensures
        0 <= spec_first_dead(s).unwrap() < s.len(),
        !s[spec_first_dead(s).unwrap()].alive,
    decreases s.len(),
{
    if s.len() > 0 && s[0].alive {
        lemma_first_dead_in_range(s.skip(1));
    }
}

/// How many slots hold live particles.
pub open spec fn spec_alive_count(s: Seq<ParticleRecord>) -> nat
    decreases s.len(),
{
    if s.len() == 0 {
        0
    } else {
        spec_alive_count(s.drop_last()) + (if s.last().alive {
            1nat
        } else {
            0nat
        })
    }
}

/// The largest particle pool a model may hold: 48 bytes per slot keeps the
/// GPU mirror buffer well inside the device's buffer-size limit.
pub const MAX_POOL_CAPACITY: u32 = 65536;

/// A renderable particle field: the particle texture, the shared pipeline
/// and bind set, the GPU mirror buffer, and the capacity-bounded pool.
pub struct ParticleModel {
    /// The texture each particle is drawn with.
    pub texture: ImageTexture,
    /// The shared compiled pipeline.
    pub render_pipeline: Arc<wgpu::RenderPipeline>,
    /// The bind set referencing the texture and the pool mirror.
    pub bind_group: Arc<wgpu::BindGroup>,
    /// The GPU buffer the pool is mirrored into by the application.
    pub particle_buffer: wgpu::Buffer,
    /// The pool capacity; the pool never holds more records than this.
    pub max_particles: u32,
    /// How many slots currently hold live particles.
    pub active_particles: u32,
    /// The behavior script path, when the behavior is scripted.
    pub update_script: Option<String>,
    /// The pool's slots; always exactly `max_particles` of them.
    pub records: Vec<ParticleRecord>,
}

impl ParticleModel {
    /// The pool's slots.
    pub open spec fn spec_records(self) -> Seq<ParticleRecord> {
        self.records@
    }

    /// The pool always holds exactly its capacity in slots, and the live
    /// count matches the records.
    pub open spec fn wf(self) -> bool {
        &&& self.spec_records().len() == self.max_particles
        &&& self.active_particles == spec_alive_count(self.spec_records())
    }

    /// A fresh pool of dead slots at full capacity.
    pub fn new(
        texture: ImageTexture,
        render_pipeline: Arc<wgpu::RenderPipeline>,
        bind_group: Arc<wgpu::BindGroup>,
        particle_buffer: wgpu::Buffer,
        max_particles: u32,
        update_script: Option<String>,
    ) -> (r: Self)
        ensures
            r.wf(),
            r.max_particles == max_particles,
            r.active_particles == 0,
            r.render_pipeline == render_pipeline,
            r.bind_group == bind_group,
            forall|i: int| 0 <= i < r.spec_records().len() ==> !(#[trigger] r.spec_records()[i]).alive,
    {
        let mut records: Vec<ParticleRecord> = Vec::with_capacity(max_particles as usize);
        let mut i: u32 = 0;
        while i < max_particles
            invariant
                0 <= i <= max_particles,
                records@.len() == i,
                forall|j: int| 0 <= j < i ==> !(#[trigger] records@[j]).alive,
                spec_alive_count(records@) == 0,
            decreases max_particles - i,
        {
            let ghost before = records@;
            records.push(ParticleRecord { alive: false, payload: Vec::new() });
            proof {
                assert(records@.drop_last() =~= before);
            }
            i += 1;
        }
        ParticleModel {
            texture,
            render_pipeline,
            bind_group,
            particle_buffer,
            max_particles,
            active_particles: 0,
            update_script,
            records,
        }
    }

    /// The record at a slot, so the application can mirror the pool into the
    /// GPU buffer.
    pub fn record(&self, index: usize) -> (r: Option<&ParticleRecord>)
        ensures
            index < self.spec_records().len() ==> (r matches Some(p) && *p == self.spec_records()[index as int]),
            index >= self.spec_records().len() ==> r is None,
    {
        if index < self.records.len() {
            Some(&self.records[index])
        } else {
            None
        }
    }

    /// Finds the first dead slot.
    fn first_dead(&self) -> (r: Option<usize>)
        ensures
            match r {
                Some(i) => spec_first_dead(self.spec_records()) == Some(i as int),
                None => spec_first_dead(self.spec_records()) is None,
            },
    {
        proof {
            assert(self.records@.skip(0) =~= self.records@);
        }
        let mut i: usize = 0;
        while i < self.records.len()
            invariant
                0 <= i <= self.records@.len(),
                spec_first_dead(self.records@) == (match spec_first_dead(
                    self.records@.skip(i as int),
                ) {
                    Some(j) => Some(i + j),
                    None => None::<int>,
                }),
            decreases self.records@.len() - i,
        {
            proof {
                assert(self.records@.skip(i as int)[0] == self.records@[i as int]);
                assert(self.records@.skip(i as int).skip(1) =~= self.records@.skip(i as int + 1));
            }
            if !self.records[i].alive {
                proof {
                    assert(spec_first_dead(self.records@.skip(i as int)) == Some(0int));
                }
                return Some(i);
            }
            i += 1;
        }
        proof {
            assert(self.records@.skip(i as int).len() == 0);
        }
        None
    }

    /// Applies one behavior command to the pool, enforcing the capacity
    /// bound: the pool never grows, a spawn goes into the first dead slot or
    /// nowhere, and a slot index past the capacity is ignored.
    fn apply_one(&mut self, command: ParticleCommand)
        ensures
            final(self).spec_records() == spec_apply_one(
                old(self).spec_records(),
                command,
            ),
            final(self).max_particles == old(self).max_particles,
            final(self).active_particles == old(self).active_particles,
            final(self).texture == old(self).texture,
            final(self).render_pipeline == old(self).render_pipeline,
            final(self).bind_group == old(self).bind_group,
            final(self).particle_buffer == old(self).particle_buffer,
            final(self).update_script == old(self).update_script,
    {
        match command {
            ParticleCommand::Spawn { payload } => {
                match self.first_dead() {
                    Some(i) => {
                        proof {
                            lemma_first_dead_in_range(self.records@);
                        }
                        let slot = &mut self.records[i];
                        *slot = ParticleRecord { alive: true, payload };
                    },
                    None => {},
                }
            },
            ParticleCommand::Update { index, alive, payload } => {
                if index < self.records.len() {
                    let slot = &mut self.records[index];
                    *slot = ParticleRecord { alive, payload };
                }
            },
            ParticleCommand::Kill { index } => {
                if index < self.records.len() {
                    let slot = &mut self.records[index];
                    slot.alive = false;
                }
            },
        }
    }

    /// Recounts the live slots.
    fn recount(&mut self)
        requires
            old(self).spec_records().len() <= u32::MAX,
        ensures
            *final(self) == (ParticleModel {
                active_particles: spec_alive_count(old(self).spec_records()) as u32,
                ..*old(self)
            }),
            final(self).active_particles == spec_alive_count(final(self).spec_records()),
    {
        let mut count: u32 = 0;
        let mut i: usize = 0;
        proof {
            assert(self.records@.take(0) =~= Seq::<ParticleRecord>::empty());
        }
        while i < self.records.len()
            invariant
                0 <= i <= self.records@.len(),
                self.records@.len() <= u32::MAX,
                count == spec_alive_count(self.records@.take(i as int)),
                count <= i,
            decreases self.records@.len() - i,
        {
            proof {
                assert(self.records@.take(i as int + 1).drop_last() =~= self.records@.take(
                    i as int,
                ));
                assert(self.records@.take(i as int + 1).last() == self.records@[i as int]);
            }
            if self.records[i].alive {
                count += 1;
            }
            i += 1;
        }
        proof {
            assert(self.records@.take(self.records@.len() as int) =~= self.records@);
        }
        self.active_particles = count;
    }

    /// Runs one behavior step's commands against the pool, in order, then
    /// refreshes the live count. However many commands the behavior hands
    /// over, the pool keeps exactly its capacity in slots.
    pub fn apply_commands(&mut self, commands: Vec<ParticleCommand>)
        requires
            old(self).wf(),
        ensures
            final(self).wf(),
            final(self).spec_records() == spec_apply_commands(
                old(self).spec_records(),
                commands@,
            ),
            final(self).max_particles == old(self).max_particles,
            final(self).spec_records().len() == old(self).spec_records().len(),
    {
        let ghost start = self.spec_records();
        let ghost all = commands@;
        let mut commands = commands;
        while commands.len() > 0
            invariant
                spec_apply_commands(start, all) == spec_apply_commands(
                    self.spec_records(),
                    commands@,
                ),
                self.max_particles == old(self).max_particles,
                self.texture == old(self).texture,
                self.render_pipeline == old(self).render_pipeline,
                self.bind_group == old(self).bind_group,
                self.particle_buffer == old(self).particle_buffer,
                self.update_script == old(self).update_script,
                self.spec_records().len() <= u32::MAX,
            decreases commands@.len(),
        {
            let ghost before = commands@;
            let command = commands.remove(0);
            proof {
                assert(commands@ =~= before.skip(1));
                lemma_apply_one_len(self.spec_records(), before[0]);
            }
            self.apply_one(command);
        }
        self.recount();
        proof {
            lemma_apply_commands_len(start, all);
        }
    }
}

/// Builds a particle field render model.
pub struct ParticleModelBuilder {
    /// The decoded image each particle is drawn with.
    pub particle_image: RawImage,
    /// The pool capacity.
    pub max_particles: u32,
    /// The behavior script path, when the behavior is scripted.
    pub script_path: Option<String>,
    /// A debugging label for the GPU objects.
    pub label: String,
}

impl ParticleModelBuilder {
    /// A builder over the given particle image and capacity.
    pub fn new(
        particle_image: RawImage,
        max_particles: u32,
        script_path: Option<String>,
        label: String,
    ) -> (r: Self)
        ensures
            r.particle_image == particle_image,
            r.max_particles == max_particles,
            r.script_path == script_path,
            r.label@ == label@,
    {
        ParticleModelBuilder { particle_image, max_particles, script_path, label }
    }

    /// Builds the model: uploads the particle texture, allocates the pool
    /// mirror buffer (48 bytes per slot), fetches or creates the shared
    /// layout and pipeline under their stable labels, and starts with every
    /// slot dead.
    pub fn build<F: FnOnce() -> Arc<wgpu::BindGroupLayout>, G: FnOnce() -> Arc<
        wgpu::RenderPipeline,
    >>(
        &self,
        device: &wgpu::Device,
        queue: &wgpu::Queue,
        layouts: &mut Manager<wgpu::BindGroupLayout>,
        pipelines: &mut Manager<wgpu::RenderPipeline>,
        layout_factory: F,
        pipeline_factory: G,
    ) -> (r: ParticleModel)
        requires
            old(layouts).wf(),
            old(pipelines).wf(),
            self.particle_image.wf(),
            1 <= self.particle_image.width <= crate::gpu::MAX_TEXTURE_DIMENSION,
            1 <= self.particle_image.height <= crate::gpu::MAX_TEXTURE_DIMENSION,
            self.max_particles <= MAX_POOL_CAPACITY,
            call_requires(layout_factory, ()),
            call_requires(pipeline_factory, ()),
        ensures
            final(layouts).wf(),
            final(pipelines).wf(),
            r.wf(),
            r.max_particles == self.max_particles,
            r.active_particles == 0,
            final(layouts).spec_has("particle_bind_group_layout"@),
            final(pipelines).spec_has("particle_render_pipeline"@),
            final(pipelines).spec_get("particle_render_pipeline"@) == Some(r.render_pipeline),
            old(layouts).spec_has("particle_bind_group_layout"@) ==> *final(layouts) == *old(
                layouts,
            ),
            old(pipelines).spec_has("particle_render_pipeline"@) ==> *final(pipelines) == *old(
                pipelines,
            ),
            forall|k: Seq<char>|
                k != "particle_bind_group_layout"@ ==> final(layouts).spec_get(k) == old(
                    layouts,
                ).spec_get(k),
            forall|k: Seq<char>|
                k != "particle_render_pipeline"@ ==> final(pipelines).spec_get(k) == old(
                    pipelines,
                ).spec_get(k),
    {
        let texture = ImageTexture::from_image(device, queue, &self.particle_image, self.label.as_str());
        let buffer_size: u64 = 48u64 * (self.max_particles as u64);
        let particle_buffer = gpu::create_particle_buffer(
            device,
            self.label.as_str(),
            buffer_size,
        );
        let layout = layouts.get_or_init("particle_bind_group_layout", layout_factory);
        let pipeline = pipelines.get_or_init("particle_render_pipeline", pipeline_factory);
        let bind_group = Arc::new(
            gpu::create_texture_buffer_bind_group(
                device,
                &layout,
                &texture.view,
                &texture.sampler,
                &particle_buffer,
                self.label.as_str(),
            ),
        );
        let script: Option<String> = match &self.script_path {
            Some(s) => Some(s.clone()),
            None => None,
        };
        ParticleModel::new(
            texture,
            pipeline,
            bind_group,
            particle_buffer,
            self.max_particles,
            script,
        )
    }
}

} // verus!
