//! A program made current: texture-unit allocation and the uploads that
//! binds have queued for the driver.
use vstd::prelude::*;

use crate::program::Shader;
use crate::uniform::{upload_views, BindUniform, Upload, UploadValue};

verus! {

/// A session on a program that the caller has made current. Binds queue
/// uploads; the caller takes them and performs them on the driver.
pub struct ActiveShader<'a> {
    shader: &'a Shader,
    num_textures: u32,
    uploads: Vec<Upload>,
}

impl<'a> ActiveShader<'a> {
    /// The next free texture unit.
    pub closed spec fn textures(&self) -> nat {
        self.num_textures as nat
    }

    /// The uploads queued and not yet taken, as (name, value) pairs.
    pub closed spec fn pending(&self) -> Seq<(Seq<char>, UploadValue)> {
        upload_views(self.uploads@)
    }

    /// The driver handle of the program this session is bound to.
    pub closed spec fn program(&self) -> u32 {
        self.shader.handle()
    }

    /// A session on `shader` with no texture unit handed out and nothing queued.
    pub fn new(shader: &'a Shader) -> (r: Self)
        ensures
            r.textures() == 0,
            r.pending().len() == 0,
            r.program() == shader.handle(),
    {
        ActiveShader { shader, num_textures: 0, uploads: Vec::new() }
    }

    /// Hands out the next free texture unit.
    pub fn new_texture_slot(&mut self) -> (r: u32)
        requires
            old(self).textures() < u32::MAX,
        ensures
            r == old(self).textures(),
            final(self).textures() == old(self).textures() + 1,
            final(self).pending() == old(self).pending(),
            final(self).program() == old(self).program(),
    {
        let slot = self.num_textures;
        self.num_textures = self.num_textures + 1;
        slot
    }

    /// The next free texture unit, without handing it out.
    pub fn texture_count(&self) -> (r: u32)
        ensures
            r == self.textures(),
    {
        self.num_textures
    }

    /// Starts texture-unit allocation over from unit zero.
    pub fn reset_textures(&mut self)
        ensures
            final(self).textures() == 0,
            final(self).pending() == old(self).pending(),
            final(self).program() == old(self).program(),
    {
        self.num_textures = 0;
    }

    /// The driver handle of the program this session is bound to.
    pub fn program_id(&self) -> (r: u32)
        ensures
            r == self.program(),
    {
        self.shader.id()
    }

    /// Binds `value` to the uniform `name`: queues exactly the uploads that
    /// its type prescribes for that name and hands out the texture units it takes.
    pub fn bind_uniform<T: BindUniform>(&mut self, name: &str, value: &T)
        requires
            old(self).textures() + value.slots() <= u32::MAX,
        ensures
            final(self).pending() == old(self).pending() + value.uploads(name@),
            final(self).textures() == old(self).textures() + value.slots(),
            final(self).program() == old(self).program(),
    {
        value.bind_uniform(self, name);
    }

    /// Queues one upload of `value` to the uniform `name`.
    pub fn queue_upload(&mut self, name: String, value: UploadValue)
        ensures
            final(self).pending() == old(self).pending().push((name@, value)),
            final(self).textures() == old(self).textures(),
            final(self).program() == old(self).program(),
    {
        let ghost before = self.uploads@;
        self.uploads.push(Upload { name, value });
        assert(upload_views(self.uploads@) =~= upload_views(before).push((name@, value)));
    }

    /// Takes the queued uploads, in the order they were queued.
    pub fn take_uploads(&mut self) -> (r: Vec<Upload>)
        ensures
            upload_views(r@) == old(self).pending(),
            final(self).pending().len() == 0,
            final(self).textures() == old(self).textures(),
            final(self).program() == old(self).program(),
    {
        let mut taken: Vec<Upload> = Vec::new();
        std::mem::swap(&mut self.uploads, &mut taken);
        assert(upload_views(self.uploads@) =~= Seq::empty());
        taken
    }
}

proof fn counter_at(counters: Seq<nat>, slots: Seq<nat>, k: int)
    requires
        counters.len() == slots.len() + 1,
        counters[0] == 0,
        forall|i: int|
            0 <= i < slots.len() ==> #[trigger] slots[i] == counters[i] && counters[i + 1] == counters[i] + 1,
        0 <= k < counters.len(),
    ensures
        counters[k] == k,
    decreases k,
{
    if k > 0 {
        counter_at(counters, slots, k - 1);
        assert(slots[k - 1] == counters[k - 1]);
    }
}

/// Texture units handed out one after another from a fresh or reset session
/// count up from zero with no repeats. `counters[k]` is the session's next
/// free unit before step `k`; each step hands that unit out as `slots[k]` and
/// advances it by one, as `new_texture_slot` does.
pub proof fn texture_slots_count_up(counters: Seq<nat>, slots: Seq<nat>)
    requires
        counters.len() == slots.len() + 1,
        counters[0] == 0,
        forall|k: int|
            0 <= k < slots.len() ==> #[trigger] slots[k] == counters[k] && counters[k + 1] == counters[k] + 1,
    ensures
        forall|k: int| 0 <= k < slots.len() ==> #[trigger] slots[k] == k,
        forall|j: int, k: int| 0 <= j < k < slots.len() ==> slots[j] != slots[k],
{
    assert forall|k: int| 0 <= k < counters.len() implies #[trigger] counters[k] == k by {
        counter_at(counters, slots, k);
    }
    assert forall|k: int| 0 <= k < slots.len() implies #[trigger] slots[k] == k by {
        assert(counters[k] == k);
    }
}

} // verus!
