//! Device selection: which features to enable and which queue families to
//! use, from what the physical devices report.

use vstd::prelude::*;
use crate::defs::render::FeatureDeclaration;

verus! {

/// Physical device features that the renderer enables or that a device
/// supports.
#[derive(Copy, Clone, Debug, PartialEq, Eq, Structural)]
pub struct PhysicalDeviceFeatures {
    /// Clip distances in shaders.
    pub shader_clip_distance: bool,
}

impl PhysicalDeviceFeatures {
    /// No features.
    pub fn none() -> (r: PhysicalDeviceFeatures)
        ensures
            r == (PhysicalDeviceFeatures { shader_clip_distance: false }),
    {
        PhysicalDeviceFeatures { shader_clip_distance: false }
    }
}

/// Whether the declarations ask for clip planes.
pub open spec fn declares_clip_planes(features: Seq<FeatureDeclaration>) -> bool {
    exists|i: int| 0 <= i < features.len() && features[i] == FeatureDeclaration::ClipPlanes
}

/// The features to enable at device creation for the declared features:
/// `None` when the device does not support all of them.
pub open spec fn feature_set_to_enable(
    features: Seq<FeatureDeclaration>,
    supported: PhysicalDeviceFeatures,
) -> Option<PhysicalDeviceFeatures> {
    if declares_clip_planes(features) && !supported.shader_clip_distance {
        None
    } else {
        Some(PhysicalDeviceFeatures { shader_clip_distance: declares_clip_planes(features) })
    }
}

/// The set of features to enable during device creation, knowing that all
/// of them are supported by the physical device; `None` when they are not
/// all supported.
pub fn make_feature_set_to_enable(
    features: &Vec<FeatureDeclaration>,
    supported_features: &PhysicalDeviceFeatures,
) -> (r: Option<PhysicalDeviceFeatures>)
    ensures
        r == feature_set_to_enable(features@, *supported_features),
{
    let mut features_to_enable = PhysicalDeviceFeatures::none();
    let mut i: usize = 0;
    while i < features.len()
        invariant
            0 <= i <= features@.len(),
            features_to_enable.shader_clip_distance == declares_clip_planes(
                features@.take(i as int),
            ),
            declares_clip_planes(features@.take(i as int)) ==> supported_features.shader_clip_distance,
        decreases features@.len() - i,
    {
        assert(features@.take(i + 1) =~= features@.take(i as int).push(features@[i as int]));
        match features[i] {
            FeatureDeclaration::ClipPlanes => {
                if supported_features.shader_clip_distance {
                    features_to_enable.shader_clip_distance = true;
                } else {
                    assert(features@[i as int] == FeatureDeclaration::ClipPlanes);
                    return None;
                }
            },
        }
        assert(declares_clip_planes(features@.take(i + 1))) by {
            assert(features@.take(i + 1)[i as int] == FeatureDeclaration::ClipPlanes);
        }
        i = i + 1;
    }
    assert(features@.take(features@.len() as int) =~= features@);
    Some(features_to_enable)
}

/// What a queue family offers, as the device reports it.
#[derive(Copy, Clone, Debug, PartialEq, Eq, Structural)]
pub struct QueueFamilyProperties {
    pub queue_count: u32,
    pub graphics: bool,
    pub transfer: bool,
}

/// The graphics and transfer queue families among `fams`: graphics is the
/// last family with queues and graphics support; transfer is the first
/// family with queues and transfer support, replaced by any later one
/// without graphics support (ideally the two differ, but they may not).
pub open spec fn queue_families_for_device(fams: Seq<QueueFamilyProperties>) -> (
    Option<int>,
    Option<int>,
)
    decreases fams.len(),
{
    if fams.len() == 0 {
        (None, None)
    } else {
        let (g, t) = queue_families_for_device(fams.drop_last());
        let i = fams.len() - 1;
        let f = fams[i];
        (
            if f.queue_count > 0 && f.graphics {
                Some(i)
            } else {
                g
            },
            if f.queue_count > 0 && f.transfer && (t is None || !f.graphics) {
                Some(i)
            } else {
                t
            },
        )
    }
}

/// The graphics and transfer queue family indices for a device (see
/// [`queue_families_for_device`]); `None` when it lacks either.
pub fn choose_queue_family_indices(queue_families: &Vec<QueueFamilyProperties>) -> (r: Option<
    (u32, u32),
>)
    requires
        queue_families@.len() <= u32::MAX,
    ensures
        match queue_families_for_device(queue_families@) {
            (Some(g), Some(t)) => r == Some((g as u32, t as u32)),
            _ => r is None,
        },
        r matches Some((g, t)) ==> {
            &&& g < queue_families@.len()
            &&& queue_families@[g as int].queue_count > 0 && queue_families@[g as int].graphics
            &&& t < queue_families@.len()
            &&& queue_families@[t as int].queue_count > 0 && queue_families@[t as int].transfer
        },
{
    proof {
        lemma_device_families_fit(queue_families@);
    }
    let ghost fams = queue_families@;
    let mut graphics: Option<u32> = None;
    let mut transfer: Option<u32> = None;
    let mut i: usize = 0;
    while i < queue_families.len()
        invariant
            fams == queue_families@,
            fams.len() <= u32::MAX,
            0 <= i <= fams.len(),
            ({
                let (g, t) = queue_families_for_device(fams.take(i as int));
                &&& match g {
                    Some(gi) => graphics == Some(gi as u32) && 0 <= gi < i,
                    None => graphics is None,
                }
                &&& match t {
                    Some(ti) => transfer == Some(ti as u32) && 0 <= ti < i,
                    None => transfer is None,
                }
            }),
        decreases fams.len() - i,
    {
        assert(fams.take(i + 1).drop_last() =~= fams.take(i as int));
        let f = queue_families[i];
        if f.queue_count > 0 && f.graphics {
            graphics = Some(i as u32);
        }
        if f.queue_count > 0 && f.transfer {
            if transfer.is_none() || !f.graphics {
                transfer = Some(i as u32);
            }
        }
        i = i + 1;
    }
    assert(fams.take(fams.len() as int) =~= fams);
    match (graphics, transfer) {
        (Some(g), Some(t)) => Some((g, t)),
        _ => None,
    }
}

/// What a queue family of a candidate device supports.
#[derive(Copy, Clone, Debug, PartialEq, Eq, Structural)]
pub struct QueueFamilySupport {
    pub graphics: bool,
    pub transfer: bool,
    /// Presentation to the window's surface.
    pub surface: bool,
}

/// What a physical device reports.
pub struct DeviceCandidate {
    pub queue_families: Vec<QueueFamilySupport>,
    pub supported_features: PhysicalDeviceFeatures,
}

/// A chosen physical device, with the queue families and features to use.
#[derive(Copy, Clone, Debug, PartialEq, Eq, Structural)]
pub struct SelectedDevice {
    pub device_index: usize,
    pub graphics_queue_family_index: u32,
    pub transfer_queue_family_index: u32,
    pub required_features: PhysicalDeviceFeatures,
}

/// The graphics and transfer families of a candidate: graphics is the last
/// family supporting both graphics and the surface; transfer is the first
/// family supporting transfer, replaced by any later one that is not such a
/// graphics family.
pub open spec fn candidate_queue_families(fams: Seq<QueueFamilySupport>) -> (
    Option<int>,
    Option<int>,
)
    decreases fams.len(),
{
    if fams.len() == 0 {
        (None, None)
    } else {
        let (g, t) = candidate_queue_families(fams.drop_last());
        let i = fams.len() - 1;
        let f = fams[i];
        let graphics_and_surface = f.graphics && f.surface;
        (
            if graphics_and_surface {
                Some(i)
            } else {
                g
            },
            if f.transfer && (t is None || !graphics_and_surface) {
                Some(i)
            } else {
                t
            },
        )
    }
}

/// What a candidate device offers for the declared features: its graphics
/// and transfer families and the features to enable, or `None` when it does
/// not support the features or lacks either family.
pub open spec fn candidate_choice(
    fams: Seq<QueueFamilySupport>,
    supported: PhysicalDeviceFeatures,
    features: Seq<FeatureDeclaration>,
) -> Option<(int, int, PhysicalDeviceFeatures)> {
    match feature_set_to_enable(features, supported) {
        None => None,
        Some(fs) => match candidate_queue_families(fams) {
            (Some(g), Some(t)) => Some((g, t, fs)),
            _ => None,
        },
    }
}

/// The choice for the `k`-th candidate.
pub open spec fn device_choice(
    devices: Seq<DeviceCandidate>,
    features: Seq<FeatureDeclaration>,
    k: int,
) -> Option<(int, int, PhysicalDeviceFeatures)> {
    candidate_choice(devices[k].queue_families@, devices[k].supported_features, features)
}

/// The first suitable candidate from index `k` on.
pub open spec fn first_suitable_device(
    devices: Seq<DeviceCandidate>,
    features: Seq<FeatureDeclaration>,
    k: int,
) -> Option<int>
    decreases devices.len() - k,
{
    if k < 0 || k >= devices.len() {
        None
    } else if device_choice(devices, features, k) is Some {
        Some(k)
    } else {
        first_suitable_device(devices, features, k + 1)
    }
}

/// The queue families and features of one candidate (see
/// [`candidate_choice`]).
fn choose_for_candidate(device: &DeviceCandidate, features: &Vec<FeatureDeclaration>) -> (r: Option<
    (u32, u32, PhysicalDeviceFeatures),
>)
    requires
        device.queue_families@.len() <= u32::MAX,
    ensures
        match candidate_choice(device.queue_families@, device.supported_features, features@) {
            Some((g, t, fs)) => r == Some((g as u32, t as u32, fs)),
            None => r is None,
        },
{
    let fs = match make_feature_set_to_enable(features, &device.supported_features) {
        Some(fs) => fs,
        None => {
            return None;
        },
    };
    let ghost fams = device.queue_families@;
    let mut graphics: Option<u32> = None;
    let mut transfer: Option<u32> = None;
    let mut i: usize = 0;
    while i < device.queue_families.len()
        invariant
            fams == device.queue_families@,
            fams.len() <= u32::MAX,
            0 <= i <= fams.len(),
            ({
                let (g, t) = candidate_queue_families(fams.take(i as int));
                &&& match g {
                    Some(gi) => graphics == Some(gi as u32) && 0 <= gi < i,
                    None => graphics is None,
                }
                &&& match t {
                    Some(ti) => transfer == Some(ti as u32) && 0 <= ti < i,
                    None => transfer is None,
                }
            }),
        decreases fams.len() - i,
    {
        assert(fams.take(i + 1).drop_last() =~= fams.take(i as int));
        let f = device.queue_families[i];
        let graphics_and_surface = f.graphics && f.surface;
        if graphics_and_surface {
            graphics = Some(i as u32);
        }
        if f.transfer && (transfer.is_none() || !graphics_and_surface) {
            transfer = Some(i as u32);
        }
        i = i + 1;
    }
    assert(fams.take(fams.len() as int) =~= fams);
    match (graphics, transfer) {
        (Some(g), Some(t)) => Some((g, t, fs)),
        _ => None,
    }
}

/// Choose the first physical device that supports the declared features
/// and has a queue family for graphics with presentation to the surface and
/// one for transfer.
pub fn select_physical_device(
    devices: &Vec<DeviceCandidate>,
    features: &Vec<FeatureDeclaration>,
) -> (r: Result<SelectedDevice, String>)
    requires
        forall|k: int| 0 <= k < devices@.len() ==> #[trigger] devices@[k].queue_families@.len() <= u32::MAX,
    ensures
        devices@.len() == 0 ==> (r matches Err(m) && m@ == "No physical devices found"@),
        devices@.len() > 0 ==> match first_suitable_device(devices@, features@, 0) {
            Some(k) => {
                let (g, t, fs) = device_choice(devices@, features@, k).unwrap();
                r == Ok::<SelectedDevice, String>(
                    SelectedDevice {
                        device_index: k as usize,
                        graphics_queue_family_index: g as u32,
                        transfer_queue_family_index: t as u32,
                        required_features: fs,
                    },
                )
            },
            None => r matches Err(m) && m@ == "Could not find a suitable physical device"@,
        },
        r matches Ok(d) ==> {
            let fams = devices@[d.device_index as int].queue_families@;
            &&& d.device_index < devices@.len()
            &&& d.graphics_queue_family_index < fams.len()
            &&& fams[d.graphics_queue_family_index as int].graphics
            &&& fams[d.graphics_queue_family_index as int].surface
            &&& d.transfer_queue_family_index < fams.len()
            &&& fams[d.transfer_queue_family_index as int].transfer
            &&& d.required_features.shader_clip_distance == declares_clip_planes(features@)
            &&& d.required_features.shader_clip_distance
                ==> devices@[d.device_index as int].supported_features.shader_clip_distance
        },
{
    if devices.len() == 0 {
        return Err(String::from_str("No physical devices found"));
    }
    let ghost ds = devices@;
    let mut k: usize = 0;
    while k < devices.len()
        invariant
            ds == devices@,
            forall|j: int| 0 <= j < ds.len() ==> #[trigger] ds[j].queue_families@.len() <= u32::MAX,
            0 <= k <= ds.len(),
            first_suitable_device(ds, features@, 0) == first_suitable_device(ds, features@, k as int),
        decreases ds.len() - k,
    {
        assert(ds[k as int].queue_families@.len() <= u32::MAX);
        proof {
            lemma_candidate_choice_fits(
                ds[k as int].queue_families@,
                ds[k as int].supported_features,
                features@,
            );
        }
        match choose_for_candidate(&devices[k], features) {
            Some((g, t, fs)) => {
                return Ok(
                    SelectedDevice {
                        device_index: k,
                        graphics_queue_family_index: g,
                        transfer_queue_family_index: t,
                        required_features: fs,
                    },
                );
            },
            None => {},
        }
        k = k + 1;
    }
    Err(String::from_str("Could not find a suitable physical device"))
}

/// The features enabled for a device are exactly the declared ones: a
/// feature is enabled only when declared, and a declared feature is enabled
/// only on a device that supports it; otherwise the device is refused.
pub proof fn lemma_enabled_features_are_declared(
    features: Seq<FeatureDeclaration>,
    supported: PhysicalDeviceFeatures,
)
    ensures
        feature_set_to_enable(features, supported) matches Some(fs) ==> {
            &&& fs.shader_clip_distance == declares_clip_planes(features)
            &&& fs.shader_clip_distance ==> supported.shader_clip_distance
        },
        feature_set_to_enable(features, supported) is None ==> declares_clip_planes(features)
            && !supported.shader_clip_distance,
{
}

/// The graphics family that a candidate offers supports graphics and
/// presentation to the surface, and no later family does; the transfer
/// family supports transfer; and a family is found whenever one exists.
pub proof fn lemma_candidate_families_fit(fams: Seq<QueueFamilySupport>)
    ensures
        candidate_queue_families(fams).0 matches Some(g) ==> {
            &&& 0 <= g < fams.len()
            &&& fams[g].graphics && fams[g].surface
            &&& forall|j: int| g < j < fams.len() ==> !(#[trigger] fams[j].graphics && fams[j].surface)
        },
        candidate_queue_families(fams).0 is None ==> forall|j: int|
            0 <= j < fams.len() ==> !(#[trigger] fams[j].graphics && fams[j].surface),
        candidate_queue_families(fams).1 matches Some(t) ==> 0 <= t < fams.len()
            && fams[t].transfer,
        candidate_queue_families(fams).1 is None ==> forall|j: int|
            0 <= j < fams.len() ==> !(#[trigger] fams[j].transfer),
    decreases fams.len(),
{
    if fams.len() > 0 {
        let p = fams.drop_last();
        lemma_candidate_families_fit(p);
        assert forall|j: int| 0 <= j < p.len() implies p[j] == fams[j] by {}
    }
}

/// What a candidate device is chosen with: the graphics family supports
/// graphics and the surface, the transfer family supports transfer, and the
/// features to enable are exactly the declared ones, all supported by the
/// device.
pub proof fn lemma_candidate_choice_fits(
    fams: Seq<QueueFamilySupport>,
    supported: PhysicalDeviceFeatures,
    features: Seq<FeatureDeclaration>,
)
    ensures
        candidate_choice(fams, supported, features) matches Some((g, t, fs)) ==> {
            &&& 0 <= g < fams.len() && fams[g].graphics && fams[g].surface
            &&& 0 <= t < fams.len() && fams[t].transfer
            &&& fs.shader_clip_distance == declares_clip_planes(features)
            &&& fs.shader_clip_distance ==> supported.shader_clip_distance
        },
{
    lemma_enabled_features_are_declared(features, supported);
    lemma_candidate_families_fit(fams);
}

/// The graphics family chosen for a device has queues and supports
/// graphics, and no later family does; the transfer family has queues and
/// supports transfer, and when it also supports graphics, no later family
/// with queues supports transfer without graphics.
pub proof fn lemma_device_families_fit(fams: Seq<QueueFamilyProperties>)
    ensures
        queue_families_for_device(fams).0 matches Some(g) ==> {
            &&& 0 <= g < fams.len()
            &&& fams[g].queue_count > 0 && fams[g].graphics
            &&& forall|j: int| g < j < fams.len() ==> !(#[trigger] fams[j].queue_count > 0 && fams[j].graphics)
        },
        queue_families_for_device(fams).0 is None ==> forall|j: int|
            0 <= j < fams.len() ==> !(#[trigger] fams[j].queue_count > 0 && fams[j].graphics),
        queue_families_for_device(fams).1 matches Some(t) ==> {
            &&& 0 <= t < fams.len()
            &&& fams[t].queue_count > 0 && fams[t].transfer
            &&& forall|j: int| t < j < fams.len() ==> !(#[trigger] fams[j].queue_count > 0
                && fams[j].transfer && !fams[j].graphics)
        },
        queue_families_for_device(fams).1 is None ==> forall|j: int|
            0 <= j < fams.len() ==> !(#[trigger] fams[j].queue_count > 0 && fams[j].transfer),
    decreases fams.len(),
{
    if fams.len() > 0 {
        let p = fams.drop_last();
        lemma_device_families_fit(p);
        assert forall|j: int| 0 <= j < p.len() implies p[j] == fams[j] by {}
    }
}

} // verus!
