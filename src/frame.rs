use vstd::prelude::*;

use crate::canvas::DrawCommand;

verus! {

/// The most draws a single frame paints; later draws of the frame are dropped.
pub const MAX_INSTANCES: usize = 1000;

/// The size of one instance's slice of the uniform buffer: the uniform block
/// size rounded up to the next multiple of the device's offset alignment.
pub open spec fn padded_size(uniform_size: int, alignment: int) -> int {
    ((uniform_size + alignment - 1) / alignment) * alignment
}

/// Rounds `uniform_size` up to a multiple of `alignment`.
pub fn padded_uniform_size(uniform_size: u64, alignment: u64) -> (r: u64)
    requires
        alignment > 0,
        uniform_size + alignment - 1 <= u64::MAX,
    ensures
        r == padded_size(uniform_size as int, alignment as int),
        r % alignment == 0,
        uniform_size <= r < uniform_size + alignment,
{
    let q: u64 = (uniform_size + (alignment - 1)) / alignment;
    proof {
        let s: int = uniform_size + alignment - 1;
        let a: int = alignment as int;
        assert(q * a <= s && s < q * a + a) by (nonlinear_arith)
            requires
                q == s / a,
                a > 0,
        ;
        assert((q * alignment) % (alignment as int) == 0) by (nonlinear_arith)
            requires
                alignment > 0,
        ;
    }
    q * alignment
}

/// The size of the surface for a window of the given size: at least one
/// pixel in each direction.
pub fn surface_size(width: u32, height: u32) -> (r: (u32, u32))
    ensures
        r.0 == if width == 0 { 1 } else { width },
        r.1 == if height == 0 { 1 } else { height },
{
    let w: u32 = if width == 0 { 1 } else { width };
    let h: u32 = if height == 0 { 1 } else { height };
    (w, h)
}

/// The identities of the images that have been uploaded as textures, each
/// once, in the order of their first use. A texture's slot is its place in
/// this list; entries are never removed.
#[derive(Debug)]
pub struct TextureCache {
    paths: Vec<String>,
}

impl View for TextureCache {
    type V = Seq<Seq<char>>;

    closed spec fn view(&self) -> Seq<Seq<char>> {
        self.paths@.map_values(|p: String| p@)
    }
}

impl TextureCache {
    /// No identity is listed twice.
    pub open spec fn wf(&self) -> bool {
        self@.no_duplicates()
    }

    pub fn new() -> (r: Self)
        ensures
            r@ == Seq::<Seq<char>>::empty(),
            r.wf(),
    {
        let r = TextureCache { paths: Vec::new() };
        assert(r@ =~= Seq::<Seq<char>>::empty());
        r
    }

    /// The number of cached textures.
    pub fn len(&self) -> (r: usize)
        ensures
            r == self@.len(),
    {
        self.paths.len()
    }

    /// The slot of the texture of the image known as `path`, if it is cached.
    pub fn slot_of(&self, path: &String) -> (r: Option<usize>)
        requires
            self.wf(),
        ensures
            match r {
                Some(slot) => slot < self@.len() && self@[slot as int] == path@,
                None => !self@.contains(path@),
            },
    {
        let mut i: usize = 0;
        while i < self.paths.len()
            invariant
                i <= self.paths@.len(),
                self@.len() == self.paths@.len(),
                forall|j: int| 0 <= j < i ==> self@[j] != path@,
            decreases self.paths@.len() - i,
        {
            if self.paths[i] == *path {
                return Some(i);
            }
            i = i + 1;
        }
        None
    }

    /// The slot of the image known as `path`, after listing it if it was not
    /// yet listed; `true` alongside where it was added.
    pub fn register(&mut self, path: &String) -> (r: (usize, bool))
        requires
            old(self).wf(),
        ensures
            final(self).wf(),
            final(self)@ == register_path(old(self)@, Some(path@)),
            r.1 == !old(self)@.contains(path@),
            r.0 < final(self)@.len(),
            final(self)@[r.0 as int] == path@,
    {
        match self.slot_of(path) {
            Some(slot) => (slot, false),
            None => {
                let slot = self.paths.len();
                self.paths.push(path.clone());
                assert(self@ =~= old(self)@.push(path@));
                (slot, true)
            },
        }
    }
}

/// `cache` after an image identity (or none) was used.
pub open spec fn register_path(cache: Seq<Seq<char>>, p: Option<Seq<char>>) -> Seq<Seq<char>> {
    match p {
        Some(q) => if cache.contains(q) {
            cache
        } else {
            cache.push(q)
        },
        None => cache,
    }
}

/// `cache` after the images of the first `n` draws of `cmds` were used.
pub open spec fn cache_after<V, M, T, C>(
    cache: Seq<Seq<char>>,
    cmds: Seq<DrawCommand<V, M, T, C>>,
    n: nat,
) -> Seq<Seq<char>>
    decreases n,
{
    if n == 0 {
        cache
    } else {
        register_path(cache_after(cache, cmds, (n - 1) as nat), cmds[n - 1].image_path())
    }
}

/// The number of draws of a frame of `n` draws that are painted.
pub open spec fn instances_drawn(n: nat) -> nat {
    if n <= MAX_INSTANCES {
        n
    } else {
        MAX_INSTANCES as nat
    }
}

/// Which texture a draw samples.
#[derive(Clone, Copy, Debug, PartialEq, Eq, Structural)]
pub enum TextureBinding {
    /// The one-pixel white texture, for draws without an image.
    DefaultWhite,
    /// The cached texture in `slot`; `upload` where the draw is the first use
    /// of its image, so that the texture is to be made and put in that slot
    /// first.
    Cached { slot: usize, upload: bool },
}

/// What the renderer does for one draw of a frame.
#[derive(Clone, Copy, Debug, PartialEq, Eq, Structural)]
pub struct DrawStep {
    /// The draw's place in the frame.
    pub command: usize,
    /// Where in the uniform buffer the draw's matrices and flag go.
    pub uniform_offset: u32,
    /// Whether the shader samples the draw's own image.
    pub use_texture: bool,
    pub texture: TextureBinding,
    /// How many indices the indexed draw call reads.
    pub index_count: usize,
}

/// `step` is what the renderer does for draw `cmd`, the `i`-th of its frame,
/// where `before` and `after` are the cached identities before and after the
/// draw's image was used.
pub open spec fn step_for<V, M, T, C>(
    step: DrawStep,
    i: int,
    cmd: DrawCommand<V, M, T, C>,
    padded: int,
    before: Seq<Seq<char>>,
    after: Seq<Seq<char>>,
) -> bool {
    &&& step.command == i
    &&& step.uniform_offset == i * padded
    &&& step.index_count == cmd.index_count()
    &&& match cmd.image_path() {
        None => !step.use_texture && step.texture == TextureBinding::DefaultWhite,
        Some(p) => step.use_texture && match step.texture {
            TextureBinding::Cached { slot, upload } => slot < after.len() && after[slot as int]
                == p && upload == !before.contains(p),
            TextureBinding::DefaultWhite => false,
        },
    }
}

/// The state the renderer keeps from frame to frame that is not on the GPU:
/// the size of an instance's slice of the uniform buffer and the texture
/// cache.
#[derive(Debug)]
pub struct FramePlanner {
    padded_uniform_size: u32,
    textures: TextureCache,
}

impl FramePlanner {
    pub closed spec fn padded(&self) -> nat {
        self.padded_uniform_size as nat
    }

    /// The identities of the cached textures, by slot.
    pub closed spec fn cached(&self) -> Seq<Seq<char>> {
        self.textures@
    }

    pub closed spec fn wf(&self) -> bool {
        &&& self.textures.wf()
        &&& self.padded_uniform_size * MAX_INSTANCES <= u32::MAX
    }

    /// A planner for a device with the given offset alignment and a uniform
    /// block of `uniform_size` bytes, with an empty texture cache. There is
    /// none where the alignment is zero, or where the uniform buffer for
    /// `MAX_INSTANCES` draws would not be addressable by 32-bit offsets.
    pub fn new(uniform_size: u64, alignment: u64) -> (r: Option<Self>)
        ensures
            r is Some <==> alignment > 0 && uniform_size + alignment - 1 <= u64::MAX && padded_size(
                uniform_size as int,
                alignment as int,
            ) * MAX_INSTANCES <= u32::MAX,
            r matches Some(p) ==> p.wf() && p.padded() == padded_size(
                uniform_size as int,
                alignment as int,
            ) && p.cached() == Seq::<Seq<char>>::empty(),
    {
        if alignment == 0 || uniform_size > u64::MAX - (alignment - 1) {
            return None;
        }
        let padded = padded_uniform_size(uniform_size, alignment);
        if padded > (u32::MAX as u64) / (MAX_INSTANCES as u64) {
            return None;
        }
        let padded_uniform_size: u32 = padded as u32;
        Some(FramePlanner { padded_uniform_size, textures: TextureCache::new() })
    }

    /// The size of one instance's slice of the uniform buffer.
    pub fn padded_uniform_size(&self) -> (r: u32)
        ensures
            r == self.padded(),
    {
        self.padded_uniform_size
    }

    /// The size of the uniform buffer: one slice for each of `MAX_INSTANCES` draws.
    pub fn uniform_buffer_size(&self) -> (r: u64)
        requires
            self.wf(),
        ensures
            r == self.padded() * MAX_INSTANCES,
    {
        self.padded_uniform_size as u64 * MAX_INSTANCES as u64
    }

    /// The number of cached textures.
    pub fn texture_count(&self) -> (r: usize)
        ensures
            r == self.cached().len(),
    {
        self.textures.len()
    }

    /// Plans a frame: one step for each of the first `MAX_INSTANCES` draws,
    /// in order, each with its own slice of the uniform buffer. A draw with
    /// an image samples the cached texture of that image's identity, which
    /// is listed at its first use; a draw without one samples the default
    /// white texture. Draws past `MAX_INSTANCES` are dropped.
    pub fn plan_frame<V, M, T, C>(&mut self, commands: &[DrawCommand<V, M, T, C>]) -> (r: Vec<
        DrawStep,
    >)
        requires
            old(self).wf(),
        ensures
            final(self).wf(),
            final(self).padded() == old(self).padded(),
            r@.len() == instances_drawn(commands@.len()),
            forall|i: int|
                0 <= i < r@.len() ==> step_for(
                    #[trigger] r@[i],
                    i,
                    commands@[i],
                    old(self).padded() as int,
                    cache_after(old(self).cached(), commands@, i as nat),
                    cache_after(old(self).cached(), commands@, (i + 1) as nat),
                ),
            final(self).cached() == cache_after(
                old(self).cached(),
                commands@,
                instances_drawn(commands@.len()),
            ),
    {
        let n: usize = if commands.len() < MAX_INSTANCES {
            commands.len()
        } else {
            MAX_INSTANCES
        };
        let ghost start = self.textures@;
        let mut steps: Vec<DrawStep> = Vec::with_capacity(n);
        let mut i: usize = 0;
        while i < n
            invariant
                n == instances_drawn(commands@.len()),
                n <= commands@.len(),
                i <= n,
                self.wf(),
                self.padded_uniform_size == old(self).padded_uniform_size,
                start == old(self).cached(),
                self.textures@ == cache_after(start, commands@, i as nat),
                steps@.len() == i,
                forall|j: int|
                    0 <= j < i ==> step_for(
                        #[trigger] steps@[j],
                        j,
                        commands@[j],
                        old(self).padded() as int,
                        cache_after(start, commands@, j as nat),
                        cache_after(start, commands@, (j + 1) as nat),
                    ),
            decreases n - i,
        {
            proof {
                assert(i * self.padded_uniform_size <= MAX_INSTANCES * self.padded_uniform_size)
                    by (nonlinear_arith)
                    requires
                        i < MAX_INSTANCES,
                ;
            }
            let uniform_offset: u32 = i as u32 * self.padded_uniform_size;
            let step = match &commands[i] {
                DrawCommand::DrawMesh2D { mesh, style, .. } => {
                    let index_count = mesh.indices.len();
                    match &style.image {
                        Some(img) => {
                            let (slot, upload) = self.textures.register(&img.path);
                            DrawStep {
                                command: i,
                                uniform_offset,
                                use_texture: true,
                                texture: TextureBinding::Cached { slot, upload },
                                index_count,
                            }
                        },
                        None => DrawStep {
                            command: i,
                            uniform_offset,
                            use_texture: false,
                            texture: TextureBinding::DefaultWhite,
                            index_count,
                        },
                    }
                },
            };
            steps.push(step);
            i = i + 1;
        }
        steps
    }
}

} // verus!
