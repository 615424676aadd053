use vstd::prelude::*;

verus! {

/// Immutable parameters of one simulated device: the identity it registers,
/// the fixed message it publishes, and its timing budget. A clone is handed
/// to each spawned worker, so no descriptor is ever shared mutably.
pub struct SimulationDescriptor {
    /// Display name of the device.
    pub thing_name: String,
    /// Serial number: the join key used against both the registrar and the
    /// message channel.
    pub thing_sn: String,
    /// Device-type identifier, carried as the 128-bit value of its UUID.
    pub thing_type: u128,
    /// Topic of the fixed message published on every tick.
    pub msg_topic: String,
    /// Content of the fixed message.
    pub msg_content: String,
    /// Milliseconds between two publish attempts.
    pub period_ms: u64,
    /// Wall-clock budget of the publish loop, in milliseconds.
    pub duration_ms: u64,
}

impl SimulationDescriptor {
    /// A descriptor a worker can run: the serial number is non-empty, the
    /// period is positive, and the attempt count the timing implies fits in
    /// a machine word.
    pub open spec fn wf(self) -> bool {
        &&& self.thing_sn@.len() > 0
        &&& self.period_ms >= 1
        &&& (self.duration_ms as int) / (self.period_ms as int) < u64::MAX
    }
}

impl Clone for SimulationDescriptor {
    fn clone(&self) -> (r: Self)
        ensures
            r == *self,
    {
        SimulationDescriptor {
            thing_name: self.thing_name.clone(),
            thing_sn: self.thing_sn.clone(),
            thing_type: self.thing_type,
            msg_topic: self.msg_topic.clone(),
            msg_content: self.msg_content.clone(),
            period_ms: self.period_ms,
            duration_ms: self.duration_ms,
        }
    }
}

/// A set fit for one run: non-empty, every descriptor well formed, and no
/// two descriptors sharing a serial number — two workers aimed at the same
/// remote identity would make publish and poll results ambiguous.
pub open spec fn descriptor_set_wf(s: Seq<SimulationDescriptor>) -> bool {
    &&& s.len() > 0
    &&& forall|i: int| 0 <= i < s.len() ==> s[i].wf()
    &&& forall|i: int, j: int| 0 <= i < j < s.len() ==> s[i].thing_sn@ != s[j].thing_sn@
}

/// Decides whether a loaded descriptor set may be handed to the
/// orchestrator: accepts exactly the well-formed sets.
pub fn validate_descriptor_set(descs: &Vec<SimulationDescriptor>) -> (r: bool)
    ensures
        r == descriptor_set_wf(descs@),
{
    let n: usize = descs.len();
    if n == 0 {
        return false;
    }
    let mut i: usize = 0;
    while i < n
        invariant
            n == descs@.len(),
            i <= n,
            forall|k: int| 0 <= k < i ==> descs@[k].wf(),
        decreases n - i,
    {
        let d = &descs[i];
        if d.thing_sn.as_str().unicode_len() == 0 {
            return false;
        }
        if d.period_ms < 1 {
            return false;
        }
        if d.duration_ms / d.period_ms == u64::MAX {
            return false;
        }
        i = i + 1;
    }
    let mut a: usize = 0;
    while a < n
        invariant
            n == descs@.len(),
            a <= n,
            forall|k: int| 0 <= k < n ==> descs@[k].wf(),
            forall|k: int, l: int| 0 <= k < l < n && k < a ==> descs@[k].thing_sn@ != descs@[l].thing_sn@,
        decreases n - a,
    {
        let mut b: usize = a + 1;
        while b < n
            invariant
                n == descs@.len(),
                a < b,
                a < n,
                b <= n,
                forall|l: int| a < l < b ==> descs@[a as int].thing_sn@ != descs@[l].thing_sn@,
            decreases n - b,
        {
            if descs[a].thing_sn == descs[b].thing_sn {
                return false;
            }
            b = b + 1;
        }
        a = a + 1;
    }
    true
}

} // verus!
