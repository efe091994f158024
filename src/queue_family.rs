use vstd::prelude::*;

use crate::error::EngineError;

verus! {

/// Capability bit of a queue family that can record graphics commands.
pub const QUEUE_GRAPHICS: u32 = 1;

/// Capability bit of a queue family that can record compute commands.
pub const QUEUE_COMPUTE: u32 = 2;

/// Capability bit of a queue family that can record transfer commands.
pub const QUEUE_TRANSFER: u32 = 4;

/// True when every bit of `bit` is set in `flags`.
pub open spec fn has_flag(flags: u32, bit: u32) -> bool {
    flags & bit == bit
}

/// Graphics and compute families may always take transfer work, whether or
/// not they advertise the transfer bit.
pub open spec fn supports_transfer(flags: u32) -> bool {
    has_flag(flags, QUEUE_TRANSFER) || has_flag(flags, QUEUE_GRAPHICS) || has_flag(
        flags,
        QUEUE_COMPUTE,
    )
}

/// One queue family of a physical device: its index and capability bits.
#[derive(Clone, Copy, Debug, PartialEq, Eq, Structural)]
pub struct QueueFamily {
    pub index: u32,
    pub queue_flags: u32,
    pub queue_count: u32,
}

impl QueueFamily {
    pub open spec fn is_combined(self) -> bool {
        has_flag(self.queue_flags, QUEUE_GRAPHICS) && has_flag(self.queue_flags, QUEUE_COMPUTE)
    }

    /// Whether this family takes both graphics and compute work.
    pub fn supports_graphics_and_compute(&self) -> (r: bool)
        ensures
            r == self.is_combined(),
    {
        self.queue_flags & QUEUE_GRAPHICS == QUEUE_GRAPHICS && self.queue_flags & QUEUE_COMPUTE
            == QUEUE_COMPUTE
    }
}

/// A physical device as enumerated: its raw handle and its queue families.
#[derive(Debug)]
pub struct PhysicalDevice {
    pub handle: u64,
    pub queue_families: Vec<QueueFamily>,
}

/// The queue family chosen for each role.
#[derive(Clone, Copy, Debug, PartialEq, Eq, Structural)]
pub struct QueueFamilies {
    pub graphics: u32,
    pub present: u32,
    pub transfer: u32,
    pub compute: u32,
}

/// Whether some family of `families` has index `index` and the flags that `ok` asks for.
pub open spec fn has_family_with(
    families: Seq<QueueFamily>,
    index: u32,
    ok: spec_fn(u32) -> bool,
) -> bool {
    exists|k: int| 0 <= k < families.len() && #[trigger] families[k].index == index && ok(families[k].queue_flags)
}

/// Each role names a family of the device that can do that role's work.
pub open spec fn families_valid_for(device: PhysicalDevice, q: QueueFamilies) -> bool {
    let fams = device.queue_families@;
    &&& has_family_with(fams, q.graphics, |f: u32| has_flag(f, QUEUE_GRAPHICS))
    &&& has_family_with(fams, q.compute, |f: u32| has_flag(f, QUEUE_COMPUTE))
    &&& has_family_with(fams, q.transfer, |f: u32| supports_transfer(f))
    &&& has_family_with(fams, q.present, |f: u32| true)
}

pub open spec fn has_combined_family(device: PhysicalDevice) -> bool {
    exists|k: int| 0 <= k < device.queue_families@.len() && #[trigger] device.queue_families@[k].is_combined()
}

/// Position of the first family of `fams` that takes graphics and compute work.
pub open spec fn is_first_combined(fams: Seq<QueueFamily>, k: int) -> bool {
    &&& 0 <= k < fams.len()
    &&& fams[k].is_combined()
    &&& forall|m: int| 0 <= m < k ==> !(#[trigger] fams[m]).is_combined()
}

/// Position of the first device of `devices` with such a family.
pub open spec fn is_first_suitable(devices: Seq<PhysicalDevice>, i: int) -> bool {
    &&& 0 <= i < devices.len()
    &&& has_combined_family(devices[i])
    &&& forall|j: int| 0 <= j < i ==> !has_combined_family(#[trigger] devices[j])
}

pub open spec fn all_roles(index: u32) -> QueueFamilies {
    QueueFamilies { graphics: index, present: index, transfer: index, compute: index }
}

/// `d` is the first device of `devices` with a family that takes graphics
/// and compute work, and `q` gives the first such family of `d` every role.
pub open spec fn is_single_family_choice(
    devices: Seq<PhysicalDevice>,
    d: PhysicalDevice,
    q: QueueFamilies,
) -> bool {
    exists|i: int, k: int|
        is_first_suitable(devices, i) && d == devices[i] && is_first_combined(d.queue_families@, k)
            && q == all_roles(d.queue_families@[k].index)
}

/// The first family of `families` that takes both graphics and compute work.
fn find_combined_family(families: &Vec<QueueFamily>) -> (r: Option<usize>)
    ensures
        match r {
            Some(k) => is_first_combined(families@, k as int),
            None => forall|k: int| 0 <= k < families@.len() ==> !(#[trigger] families@[k]).is_combined(),
        },
{
    let mut k: usize = 0;
    while k < families.len()
        invariant
            k <= families@.len(),
            forall|m: int| 0 <= m < k ==> !(#[trigger] families@[m]).is_combined(),
        decreases families@.len() - k,
    {
        if families[k].supports_graphics_and_compute() {
            return Some(k);
        }
        k = k + 1;
    }
    None
}

/// Baseline selection: the first device with one family that takes both
/// graphics and compute work, with that family serving every role.
pub fn single_queue_family(physical_devices: Vec<PhysicalDevice>) -> (r: Result<
    (PhysicalDevice, QueueFamilies),
    EngineError,
>)
    ensures
        r is Err <==> forall|i: int|
            0 <= i < physical_devices@.len() ==> !has_combined_family(
                #[trigger] physical_devices@[i],
            ),
        r is Err ==> r == Err::<(PhysicalDevice, QueueFamilies), EngineError>(
            EngineError::NoSuitableDevice,
        ),
        r matches Ok((d, q)) ==> is_single_family_choice(physical_devices@, d, q),
        r matches Ok((d, q)) ==> families_valid_for(d, q),
{
    let mut devices = physical_devices;
    let ghost all = physical_devices@;
    let mut i: usize = 0;
    while i < devices.len()
        invariant
            devices@ == all,
            all == physical_devices@,
            i <= all.len(),
            forall|j: int| 0 <= j < i ==> !has_combined_family(#[trigger] all[j]),
        decreases all.len() - i,
    {
        match find_combined_family(&devices[i].queue_families) {
            Some(k) => {
                let index = devices[i].queue_families[k].index;
                let device = devices.remove(i);
                let families = QueueFamilies {
                    graphics: index,
                    compute: index,
                    present: index,
                    transfer: index,
                };
                proof {
                    let fams = device.queue_families@;
                    assert(device == all[i as int]);
                    assert(fams[k as int].is_combined());
                    assert(has_combined_family(device));
                    assert(is_first_suitable(all, i as int));
                    assert(is_first_combined(fams, k as int));
                    assert(!(forall|j: int|
                        0 <= j < all.len() ==> !has_combined_family(#[trigger] all[j])));
                    assert(fams[k as int].index == index);
                    assert(has_flag(fams[k as int].queue_flags, QUEUE_GRAPHICS));
                    assert(has_family_with(fams, index, |f: u32| has_flag(f, QUEUE_GRAPHICS)));
                    assert(has_family_with(fams, index, |f: u32| has_flag(f, QUEUE_COMPUTE)));
                    assert(has_family_with(fams, index, |f: u32| supports_transfer(f)));
                    assert(has_family_with(fams, index, |f: u32| true));
                    assert(families == all_roles(fams[k as int].index));
                    assert(is_first_suitable(all, i as int) && device == all[i as int]
                        && is_first_combined(fams, k as int) && families == all_roles(
                        fams[k as int].index,
                    ));
                    assert(is_single_family_choice(physical_devices@, device, families));
                }
                return Ok((device, families));
            },
            None => {
                proof {
                    let fams = all[i as int].queue_families@;
                    assert forall|k: int| 0 <= k < fams.len() implies !(#[trigger] fams[k]).is_combined() by {}
                }
            },
        }
        i = i + 1;
    }
    Err(EngineError::NoSuitableDevice)
}

/// A pluggable policy that picks a device and assigns a queue family to each role.
pub trait QueueFamilySelection {
    fn select(&self, physical_devices: Vec<PhysicalDevice>) -> (r: Result<
        (PhysicalDevice, QueueFamilies),
        EngineError,
    >)
        ensures
            r matches Ok((d, q)) ==> physical_devices@.contains(d) && families_valid_for(d, q),
    ;
}

/// The baseline policy of `single_queue_family`.
pub struct SingleQueueFamily;

impl QueueFamilySelection for SingleQueueFamily {
    fn select(&self, physical_devices: Vec<PhysicalDevice>) -> (r: Result<
        (PhysicalDevice, QueueFamilies),
        EngineError,
    >)
        ensures
            r is Err <==> forall|i: int|
                0 <= i < physical_devices@.len() ==> !has_combined_family(
                    #[trigger] physical_devices@[i],
                ),
            r is Err ==> r == Err::<(PhysicalDevice, QueueFamilies), EngineError>(
                EngineError::NoSuitableDevice,
            ),
            r matches Ok((d, q)) ==> is_single_family_choice(physical_devices@, d, q),
    {
        let ghost all = physical_devices@;
        let r = single_queue_family(physical_devices);
        proof {
            if let Ok((d, q)) = &r {
                let (i, k) = choose|i: int, k: int|
                    is_first_suitable(all, i) && d == all[i] && is_first_combined(
                        d.queue_families@,
                        k,
                    ) && q == all_roles(d.queue_families@[k].index);
                assert(all[i] == d);
            }
        }
        r
    }
}

/// The devices of `devices` whose entry in `supported` is true, in order.
pub open spec fn presentable(devices: Seq<PhysicalDevice>, supported: Seq<bool>) -> Seq<
    PhysicalDevice,
>
    decreases devices.len(),
{
    if devices.len() == 0 {
        Seq::empty()
    } else {
        let rest = presentable(devices.drop_last(), supported.drop_last());
        if supported.last() {
            rest.push(devices.last())
        } else {
            rest
        }
    }
}

/// Keeps the devices that can present to the probe surface; `surface_support[i]`
/// tells whether `physical_devices[i]` can.
pub fn retain_presentable(physical_devices: Vec<PhysicalDevice>, surface_support: &Vec<bool>) -> (r:
    Vec<PhysicalDevice>)
    requires
        surface_support@.len() == physical_devices@.len(),
    ensures
        r@ == presentable(physical_devices@, surface_support@),
{
    let ghost all = physical_devices@;
    let ghost sup = surface_support@;
    let mut rest = physical_devices;
    let mut kept: Vec<PhysicalDevice> = Vec::new();
    let mut i: usize = 0;
    proof {
        assert(all.take(0) =~= Seq::<PhysicalDevice>::empty());
        assert(all.skip(0) =~= all);
    }
    while i < surface_support.len()
        invariant
            sup == surface_support@,
            sup.len() == all.len(),
            i <= all.len(),
            rest@ == all.skip(i as int),
            kept@ == presentable(all.take(i as int), sup.take(i as int)),
        decreases all.len() - i,
    {
        let device = rest.remove(0);
        proof {
            assert(device == all[i as int]);
            assert(all.take(i + 1).drop_last() =~= all.take(i as int));
            assert(sup.take(i + 1).drop_last() =~= sup.take(i as int));
            assert(all.skip(i + 1) =~= all.skip(i as int).drop_first());
        }
        if surface_support[i] {
            kept.push(device);
        }
        i = i + 1;
    }
    proof {
        assert(all.take(all.len() as int) =~= all);
        assert(sup.take(sup.len() as int) =~= sup);
    }
    kept
}

proof fn lemma_push_distinct(s: Seq<u32>, y: u32, t: Seq<u32>)
    requires
        t == (if s.contains(y) {
            s
        } else {
            s.push(y)
        }),
    ensures
        forall|x: u32| t.contains(x) <==> (s.contains(x) || x == y),
        s.no_duplicates() ==> t.no_duplicates(),
{
    if !s.contains(y) {
        assert forall|x: u32| t.contains(x) <==> (s.contains(x) || x == y) by {
            if x == y {
                assert(t[s.len() as int] == y);
            }
            if s.contains(x) {
                let j = choose|j: int| 0 <= j < s.len() && s[j] == x;
                assert(t[j] == x);
            }
            if t.contains(x) {
                let j = choose|j: int| 0 <= j < t.len() && t[j] == x;
                if j < s.len() {
                    assert(s[j] == x);
                }
            }
        }
        if s.no_duplicates() {
            assert forall|i: int, j: int| 0 <= i < t.len() && 0 <= j < t.len() && i != j implies t[i]
                != t[j] by {
                if i == s.len() {
                    assert(s[j] == t[j]);
                } else if j == s.len() {
                    assert(s[i] == t[i]);
                }
            }
        }
    }
}

/// Appends `x` unless `v` already holds it.
fn push_distinct(v: &mut Vec<u32>, x: u32)
    ensures
        final(v)@ == (if old(v)@.contains(x) {
            old(v)@
        } else {
            old(v)@.push(x)
        }),
{
    let mut k: usize = 0;
    while k < v.len()
        invariant
            k <= v@.len(),
            forall|m: int| 0 <= m < k ==> v@[m] != x,
        decreases v@.len() - k,
    {
        if v[k] == x {
            return;
        }
        k = k + 1;
    }
    v.push(x);
}

/// The family indices that the roles of `q` use, each once: one queue is
/// created per distinct family.
pub fn distinct_queue_family_indices(q: &QueueFamilies) -> (r: Vec<u32>)
    ensures
        r@.no_duplicates(),
        forall|x: u32|
            r@.contains(x) <==> (x == q.graphics || x == q.present || x == q.transfer || x
                == q.compute),
{
    let mut v: Vec<u32> = Vec::new();
    v.push(q.graphics);
    let ghost s0 = v@;
    proof {
        assert(s0 =~= seq![q.graphics]);
        assert forall|x: u32| s0.contains(x) <==> x == q.graphics by {
            if x == q.graphics {
                assert(s0[0] == x);
            }
        }
    }
    push_distinct(&mut v, q.present);
    let ghost s1 = v@;
    proof {
        lemma_push_distinct(s0, q.present, s1);
    }
    push_distinct(&mut v, q.transfer);
    let ghost s2 = v@;
    proof {
        lemma_push_distinct(s1, q.transfer, s2);
    }
    push_distinct(&mut v, q.compute);
    proof {
        lemma_push_distinct(s2, q.compute, v@);
    }
    v
}

} // verus!
