//! Choosing the physical device, its queue family, and the memory type of
//! the uniform buffers, from what the graphics API reports.

use vstd::prelude::*;
use crate::error::StartupError;
use crate::flags::{has_all, memory_flags_contain, queue_flags_contain};

verus! {

/// Queue flag bit of a family that takes graphics commands.
pub const QUEUE_GRAPHICS: u32 = 0x1;

/// Number of memory types a device can report, and of bits in a type filter.
pub const MAX_MEMORY_TYPES: u32 = 32;

/// The answer to whether a queue family can present to the surface.
#[derive(Clone, Copy, Debug, PartialEq, Eq)]
pub enum PresentSupport {
    Supported,
    Unsupported,
    /// The query itself failed, with this result code.
    QueryFailed { code: i32 },
}

/// What is known of one queue family of a physical device.
#[derive(Clone, Copy, Debug, PartialEq, Eq)]
pub struct QueueFamily {
    /// The family's raw queue flags.
    pub queue_flags: u32,
    pub present: PresentSupport,
}

/// What is known of one physical device: its queue families, in the order
/// of their indices.
#[derive(Debug, PartialEq, Eq)]
pub struct DeviceReport {
    pub queue_families: Vec<QueueFamily>,
}

impl QueueFamily {
    /// Whether the family takes graphics commands.
    pub open spec fn draws(self) -> bool {
        has_all(self.queue_flags, QUEUE_GRAPHICS)
    }

    /// Whether the family both draws and presents.
    pub open spec fn suitable(self) -> bool {
        self.draws() && self.present is Supported
    }

    /// Whether the search for a family passes over this one: it cannot
    /// draw, or it is known not to present.
    pub open spec fn passed_over(self) -> bool {
        !self.draws() || self.present is Unsupported
    }
}

/// The outcome of searching `families` from index `start` on: the index of
/// the first family that draws and presents, unless a drawing family before
/// it has a failed query, which ends the search with that failure.
pub open spec fn queue_family_search(families: Seq<QueueFamily>, start: int) -> Result<
    usize,
    StartupError,
>
    decreases families.len() - start,
{
    if start < 0 || start >= families.len() {
        Err(StartupError::NoSuitableQueueFamily)
    } else if families[start].passed_over() {
        queue_family_search(families, start + 1)
    } else {
        match families[start].present {
            PresentSupport::QueryFailed { code } => Err(StartupError::SurfaceSupportQuery { code }),
            _ => Ok(start as usize),
        }
    }
}

/// Whether a device with these families can be used: it has a family that
/// draws and presents. A failed query met on the way is passed on.
pub open spec fn device_suitability(families: Seq<QueueFamily>) -> Result<bool, StartupError> {
    match queue_family_search(families, 0) {
        Ok(_) => Ok(true),
        Err(StartupError::NoSuitableQueueFamily) => Ok(false),
        Err(error) => Err(error),
    }
}

/// The outcome of searching `devices` from index `start` on: the index of
/// the first suitable device, unless a failed query is met before it.
pub open spec fn device_search(devices: Seq<DeviceReport>, start: int) -> Result<
    usize,
    StartupError,
>
    decreases devices.len() - start,
{
    if start < 0 || start >= devices.len() {
        Err(StartupError::NoSuitableDevice)
    } else {
        match device_suitability(devices[start].queue_families@) {
            Ok(true) => Ok(start as usize),
            Ok(false) => device_search(devices, start + 1),
            Err(error) => Err(error),
        }
    }
}

/// Whether memory type `index` is allowed by `type_filter` and has all of
/// `properties`.
pub open spec fn memory_type_fits(
    type_filter: u32,
    properties: u32,
    memory_types: Seq<u32>,
    index: int,
) -> bool {
    &&& 0 <= index < memory_types.len()
    &&& index < MAX_MEMORY_TYPES
    &&& type_filter & (1u32 << (index as u32)) != 0
    &&& has_all(memory_types[index], properties)
}

/// Finds the first queue family that can both draw and present.
///
/// The families are examined in order. One that cannot draw is passed
/// over without regard to its present support.
pub fn find_queue_family_index(families: &Vec<QueueFamily>) -> (result: Result<usize, StartupError>)
    ensures
        result == queue_family_search(families@, 0),
{
    let mut i: usize = 0;
    while i < families.len()
        invariant
            i <= families.len(),
            queue_family_search(families@, 0) == queue_family_search(families@, i as int),
        decreases families.len() - i,
    {
        let family = families[i];
        if queue_flags_contain(family.queue_flags, QUEUE_GRAPHICS) {
            match family.present {
                PresentSupport::Supported => {
                    return Ok(i);
                },
                PresentSupport::QueryFailed { code } => {
                    return Err(StartupError::SurfaceSupportQuery { code });
                },
                PresentSupport::Unsupported => {},
            }
        }
        i += 1;
    }
    Err(StartupError::NoSuitableQueueFamily)
}

/// Whether a device with these queue families can be used.
pub fn is_device_suitable(families: &Vec<QueueFamily>) -> (result: Result<bool, StartupError>)
    ensures
        result == device_suitability(families@),
{
    match find_queue_family_index(families) {
        Ok(_) => Ok(true),
        Err(StartupError::NoSuitableQueueFamily) => Ok(false),
        Err(error) => Err(error),
    }
}

/// Picks the first device that can be used.
pub fn pick_physical_device(devices: &Vec<DeviceReport>) -> (result: Result<usize, StartupError>)
    ensures
        result == device_search(devices@, 0),
{
    let mut i: usize = 0;
    while i < devices.len()
        invariant
            i <= devices.len(),
            device_search(devices@, 0) == device_search(devices@, i as int),
        decreases devices.len() - i,
    {
        match is_device_suitable(&devices[i].queue_families) {
            Ok(true) => {
                return Ok(i);
            },
            Ok(false) => {},
            Err(error) => {
                return Err(error);
            },
        }
        i += 1;
    }
    Err(StartupError::NoSuitableDevice)
}

/// Finds the first memory type that `type_filter` allows and that has all
/// of `properties`. `memory_types` holds the raw property flags of the
/// device's memory types, in the order of their indices.
pub fn find_memory_type(type_filter: u32, properties: u32, memory_types: &Vec<u32>) -> (result:
    Result<u32, StartupError>)
    ensures
        match result {
            Ok(index) => {
                &&& memory_type_fits(type_filter, properties, memory_types@, index as int)
                &&& forall|j: int|
                    0 <= j < index ==> !memory_type_fits(type_filter, properties, memory_types@, j)
            },
            Err(error) => {
                &&& error == StartupError::NoSuitableMemoryType
                &&& forall|j: int| !memory_type_fits(type_filter, properties, memory_types@, j)
            },
        },
{
    let mut i: u32 = 0;
    while i < MAX_MEMORY_TYPES && (i as usize) < memory_types.len()
        invariant
            i <= MAX_MEMORY_TYPES,
            i <= memory_types.len(),
            forall|j: int| 0 <= j < i ==> !memory_type_fits(type_filter, properties, memory_types@, j),
        decreases MAX_MEMORY_TYPES - i,
    {
        if (type_filter & (1u32 << i)) != 0 && memory_flags_contain(
            memory_types[i as usize],
            properties,
        ) {
            return Ok(i);
        }
        i += 1;
    }
    Err(StartupError::NoSuitableMemoryType)
}

/// The search for a queue family finds the first family that both draws
/// and presents: every family before it was passed over. It finds none
/// only where every family is passed over, and it fails only on the query
/// of a drawing family before which every family was passed over.
pub proof fn lemma_queue_family_search_finds_first(families: Seq<QueueFamily>, start: int)
    requires
        0 <= start <= families.len() <= usize::MAX,
    ensures
        match queue_family_search(families, start) {
            Ok(index) => {
                &&& start <= index < families.len()
                &&& families[index as int].suitable()
                &&& forall|j: int| start <= j < index ==> families[j].passed_over()
            },
            Err(StartupError::NoSuitableQueueFamily) => forall|j: int|
                start <= j < families.len() ==> families[j].passed_over(),
            Err(StartupError::SurfaceSupportQuery { code }) => exists|i: int|
                {
                    &&& start <= i < families.len()
                    &&& families[i].draws()
                    &&& #[trigger] families[i].present == (PresentSupport::QueryFailed { code })
                    &&& forall|j: int| start <= j < i ==> families[j].passed_over()
                },
            Err(_) => false,
        },
    decreases families.len() - start,
{
    if start < families.len() {
        if families[start].passed_over() {
            lemma_queue_family_search_finds_first(families, start + 1);
            match queue_family_search(families, start + 1) {
                Err(StartupError::SurfaceSupportQuery { code }) => {
                    let i = choose|i: int|
                        {
                            &&& start + 1 <= i < families.len()
                            &&& families[i].draws()
                            &&& #[trigger] families[i].present == (PresentSupport::QueryFailed {
                                code,
                            })
                            &&& forall|j: int| start + 1 <= j < i ==> families[j].passed_over()
                        };
                    assert(forall|j: int| start <= j < i ==> families[j].passed_over());
                },
                _ => {},
            }
        } else {
            match families[start].present {
                PresentSupport::QueryFailed { code } => {
                    assert(families[start].present == (PresentSupport::QueryFailed { code }));
                },
                _ => {},
            }
        }
    }
}

/// The search for a device finds the first suitable one: every device
/// before it is known to be unsuitable. It finds none only where every
/// device is known to be unsuitable. It fails only with the failed query
/// that the search of some device's families ended on, every device
/// before that one being known to be unsuitable.
pub proof fn lemma_device_search_finds_first(devices: Seq<DeviceReport>, start: int)
    requires
        0 <= start <= devices.len() <= usize::MAX,
    ensures
        match device_search(devices, start) {
            Ok(index) => {
                &&& start <= index < devices.len()
                &&& device_suitability(devices[index as int].queue_families@) == Ok::<
                    bool,
                    StartupError,
                >(true)
                &&& forall|j: int|
                    start <= j < index ==> device_suitability(
                        (#[trigger] devices[j]).queue_families@,
                    ) == Ok::<bool, StartupError>(false)
            },
            Err(StartupError::NoSuitableDevice) => forall|j: int|
                start <= j < devices.len() ==> device_suitability(
                    (#[trigger] devices[j]).queue_families@,
                ) == Ok::<bool, StartupError>(false),
            Err(error) => exists|i: int|
                {
                    &&& start <= i < devices.len()
                    &&& error is SurfaceSupportQuery
                    &&& queue_family_search((#[trigger] devices[i]).queue_families@, 0) == Err::<
                        usize,
                        StartupError,
                    >(error)
                    &&& forall|j: int|
                        start <= j < i ==> device_suitability(
                            (#[trigger] devices[j]).queue_families@,
                        ) == Ok::<bool, StartupError>(false)
                },
        },
    decreases devices.len() - start,
{
    if start < devices.len() {
        let families = devices[start].queue_families;
        assert(families.len() == families@.len());
        lemma_queue_family_search_finds_first(families@, 0);
        match device_suitability(devices[start].queue_families@) {
            Ok(false) => {
                lemma_device_search_finds_first(devices, start + 1);
                match device_search(devices, start + 1) {
                    Err(StartupError::NoSuitableDevice) => {},
                    Err(error) => {
                        let i = choose|i: int|
                            {
                                &&& start + 1 <= i < devices.len()
                                &&& error is SurfaceSupportQuery
                                &&& queue_family_search(
                                    (#[trigger] devices[i]).queue_families@,
                                    0,
                                ) == Err::<usize, StartupError>(error)
                                &&& forall|j: int|
                                    start + 1 <= j < i ==> device_suitability(
                                        (#[trigger] devices[j]).queue_families@,
                                    ) == Ok::<bool, StartupError>(false)
                            };
                        assert(forall|j: int|
                            start <= j < i ==> device_suitability(
                                (#[trigger] devices[j]).queue_families@,
                            ) == Ok::<bool, StartupError>(false));
                    },
                    Ok(_) => {},
                }
            },
            Err(error) => {
                assert(queue_family_search(devices[start].queue_families@, 0) == Err::<
                    usize,
                    StartupError,
                >(error));
            },
            Ok(true) => {},
        }
    }
}

} // verus!
