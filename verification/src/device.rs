//! Choosing a GPU, a queue family on it, and the kind of memory to allocate from.

use vstd::prelude::*;

verus! {

/// The bit of a queue family's flags that says that it can draw.
pub const GRAPHICS: u32 = 1;

/// Memory that the CPU can map.
pub const HOST_VISIBLE: u32 = 2;

/// Memory in which the GPU sees what the CPU writes without a flush.
pub const HOST_COHERENT: u32 = 4;

/// Memory that is fast for the GPU.
pub const DEVICE_LOCAL: u32 = 1;

/// All bits of `wanted` are set in `flags`.
pub open spec fn has_flags(flags: u32, wanted: u32) -> bool {
    flags & wanted == wanted
}

/// Calls `ash::vk::MemoryPropertyFlags::contains`: whether every bit of the second operand is set
/// in the first one.
#[verifier::external_body]
fn memory_flags_contain(flags: u32, wanted: u32) -> (r: bool)
    ensures
        r == has_flags(flags, wanted),
{
    ash::vk::MemoryPropertyFlags::from_raw(flags).contains(
        ash::vk::MemoryPropertyFlags::from_raw(wanted),
    )
}

/// Calls `ash::vk::QueueFlags::contains`: whether every bit of the second operand is set in the
/// first one.
#[verifier::external_body]
fn queue_flags_contain(flags: u32, wanted: u32) -> (r: bool)
    ensures
        r == has_flags(flags, wanted),
{
    ash::vk::QueueFlags::from_raw(flags).contains(ash::vk::QueueFlags::from_raw(wanted))
}

/// Memory type `i` is among those that `type_filter` allows, and has the properties `props`.
pub open spec fn memory_type_fits(types: Seq<u32>, type_filter: u32, props: u32, i: int) -> bool {
    &&& type_filter & (1u32 << (i as u32)) != 0
    &&& has_flags(types[i], props)
}

/// The first memory type that `type_filter` allows and that has the properties `props`. A
/// device's memory types are given by their property flags.
pub fn find_memory_type(types: &Vec<u32>, type_filter: u32, props: u32) -> (found: Option<u32>)
    requires
        types@.len() <= 32,
    ensures
        match found {
            Some(i) => {
                &&& i < types@.len()
                &&& memory_type_fits(types@, type_filter, props, i as int)
                &&& forall|j: int|
                    0 <= j < i ==> !memory_type_fits(types@, type_filter, props, j)
            },
            None => forall|j: int|
                0 <= j < types@.len() ==> !memory_type_fits(types@, type_filter, props, j),
        },
{
    let mut i: usize = 0;
    while i < types.len()
        invariant
            i <= types@.len() <= 32,
            forall|j: int| 0 <= j < i ==> !memory_type_fits(types@, type_filter, props, j),
        decreases types@.len() - i,
    {
        if type_filter & (1u32 << (i as u32)) != 0 && memory_flags_contain(types[i], props) {
            return Some(i as u32);
        }
        i = i + 1;
    }
    None
}

/// Where a search for a GPU stands.
#[derive(Clone, Copy, Debug, PartialEq, Eq, Structural)]
pub enum SearchState {
    /// It needs to know how many devices there are.
    ListDevices,
    /// It needs the flags of the queue families of `device`.
    ListFamilies { device: usize },
    /// It needs to know whether `family` of `device` can present to the window.
    AskSupport { device: usize, family: usize },
    /// `family` of `device` draws and presents.
    Found { device: usize, family: usize },
    /// No device has such a queue family.
    NoGpu,
}

/// A search for the first queue family that both draws and presents to the window.
pub struct DeviceSearch {
    pub state: SearchState,
    pub device_count: usize,
    /// The flags of the queue families of the device that is looked at.
    pub families: Vec<u32>,
}

/// The first family at or after `from` that can draw, or the number of families.
pub open spec fn next_graphics(families: Seq<u32>, from: int) -> int
    decreases families.len() - from,
{
    if from >= families.len() || has_flags(families[from], GRAPHICS) {
        from
    } else {
        next_graphics(families, from + 1)
    }
}

/// The state that looks at the families of `device` from number `from` on.
pub open spec fn search_from(
    families: Seq<u32>,
    device_count: usize,
    device: usize,
    from: int,
) -> SearchState {
    let next = next_graphics(families, from);
    if next < families.len() {
        SearchState::AskSupport { device, family: next as usize }
    } else if device + 1 < device_count {
        SearchState::ListFamilies { device: (device + 1) as usize }
    } else {
        SearchState::NoGpu
    }
}

impl DeviceSearch {
    /// The device that is looked at exists, and so does the family.
    pub open spec fn wf(self) -> bool {
        match self.state {
            SearchState::ListFamilies { device } => device < self.device_count,
            SearchState::AskSupport { device, family } => {
                &&& device < self.device_count
                &&& family < self.families@.len()
                &&& has_flags(self.families@[family as int], GRAPHICS)
            },
            SearchState::Found { device, family } => {
                &&& device < self.device_count
                &&& family < self.families@.len()
            },
            _ => true,
        }
    }

    pub fn new() -> (search: DeviceSearch)
        ensures
            search.wf(),
            search.state == SearchState::ListDevices,
            search.device_count == 0,
            search.families@ == Seq::<u32>::empty(),
    {
        DeviceSearch { state: SearchState::ListDevices, device_count: 0, families: Vec::new() }
    }

    /// Takes the number of devices.
    pub fn devices(&mut self, count: usize)
        requires
            old(self).state == SearchState::ListDevices,
        ensures
            final(self).wf(),
            final(self).device_count == count,
            final(self).families@ == old(self).families@,
            final(self).state == (if count == 0 {
                SearchState::NoGpu
            } else {
                SearchState::ListFamilies { device: 0 }
            }),
    {
        self.device_count = count;
        self.state = if count == 0 {
            SearchState::NoGpu
        } else {
            SearchState::ListFamilies { device: 0 }
        };
    }

    /// Takes the flags of the queue families of the device that was asked about.
    pub fn device_families(&mut self, families: Vec<u32>)
        requires
            old(self).wf(),
            old(self).state is ListFamilies,
        ensures
            final(self).wf(),
            final(self).device_count == old(self).device_count,
            final(self).families@ == families@,
            final(self).state == search_from(
                families@,
                old(self).device_count,
                old(self).state->ListFamilies_device,
                0,
            ),
    {
        self.families = families;
        if let SearchState::ListFamilies { device } = self.state {
            self.look_from(device, 0);
        }
    }

    /// Takes the answer whether the family that was asked about presents to the window. A query
    /// that failed counts as no.
    pub fn support(&mut self, answer: Option<bool>)
        requires
            old(self).wf(),
            old(self).state is AskSupport,
        ensures
            final(self).wf(),
            final(self).device_count == old(self).device_count,
            final(self).families@ == old(self).families@,
            final(self).state == (if answer == Some(true) {
                SearchState::Found {
                    device: old(self).state->AskSupport_device,
                    family: old(self).state->AskSupport_family,
                }
            } else {
                search_from(
                    old(self).families@,
                    old(self).device_count,
                    old(self).state->AskSupport_device,
                    old(self).state->AskSupport_family + 1,
                )
            }),
    {
        if let SearchState::AskSupport { device, family } = self.state {
            if answer.unwrap_or(false) {
                self.state = SearchState::Found { device, family };
            } else {
                assert(family < self.families.len());
                self.look_from(device, family + 1);
            }
        }
    }

    fn look_from(&mut self, device: usize, from: usize)
        requires
            device < old(self).device_count,
            from <= old(self).families@.len(),
        ensures
            final(self).wf(),
            final(self).device_count == old(self).device_count,
            final(self).families@ == old(self).families@,
            final(self).state == search_from(
                old(self).families@,
                old(self).device_count,
                device,
                from as int,
            ),
    {
        let mut family: usize = from;
        while family < self.families.len() && !queue_flags_contain(self.families[family], GRAPHICS)
            invariant
                family <= self.families@.len(),
                next_graphics(self.families@, family as int) == next_graphics(
                    self.families@,
                    from as int,
                ),
            decreases self.families@.len() - family,
        {
            family = family + 1;
        }
        self.state = if family < self.families.len() {
            SearchState::AskSupport { device, family }
        } else if device + 1 < self.device_count {
            SearchState::ListFamilies { device: device + 1 }
        } else {
            SearchState::NoGpu
        };
    }
}

/// What the driver answers: the flags of each device's queue families, and whether each of them
/// presents to the window, where the query succeeds.
pub struct Gpus {
    pub families: Seq<Seq<u32>>,
    pub presents: Seq<Seq<Option<bool>>>,
}

impl Gpus {
    pub open spec fn suitable(self, device: int, family: int) -> bool {
        &&& 0 <= device < self.families.len()
        &&& 0 <= family < self.families[device].len()
        &&& has_flags(self.families[device][family], GRAPHICS)
        &&& self.presents[device][family] == Some(true)
    }

    /// No suitable family comes before `family` of `device`.
    pub open spec fn none_before(self, device: int, family: int) -> bool {
        forall|d: int, f: int|
            d < device || (d == device && f < family) ==> !self.suitable(d, f)
    }

    /// The numbers of devices and of families are numbers that a machine can count to.
    pub open spec fn countable(self) -> bool {
        &&& self.families.len() <= usize::MAX
        &&& forall|d: int|
            0 <= d < self.families.len() ==> (#[trigger] self.families[d]).len() <= usize::MAX
    }

    /// A state of a search among these devices: the device that it looks at exists, and so does
    /// the family.
    pub open spec fn in_range(self, state: SearchState) -> bool {
        match state {
            SearchState::ListFamilies { device } => device < self.families.len(),
            SearchState::AskSupport { device, family } => {
                &&& device < self.families.len()
                &&& family < self.families[device as int].len()
            },
            _ => true,
        }
    }

    /// How many devices a search at `state` can still look at.
    pub open spec fn devices_left(self, state: SearchState) -> int {
        match state {
            SearchState::ListDevices => 1 + self.families.len() as int,
            SearchState::ListFamilies { device } => self.families.len() - device as int,
            SearchState::AskSupport { device, .. } => self.families.len() - device as int,
            _ => 0,
        }
    }

    /// How many questions about its device a search at `state` can still ask.
    pub open spec fn families_left(self, state: SearchState) -> int {
        match state {
            SearchState::ListFamilies { device } => 1 + self.families[device as int].len() as int,
            SearchState::AskSupport { device, family } => self.families[device as int].len()
                - family as int,
            _ => 0,
        }
    }

    /// Where a search that stands at `state` ends when every question is answered. What the
    /// recursion unfolds is what `DeviceSearch` does with each answer.
    pub open spec fn outcome(self, state: SearchState) -> SearchState
        decreases self.devices_left(state), self.families_left(state),
        when self.countable() && self.in_range(state)
        via Self::outcome_ends
    {
        match state {
            SearchState::ListDevices => if self.families.len() == 0 {
                SearchState::NoGpu
            } else {
                self.outcome(SearchState::ListFamilies { device: 0 })
            },
            SearchState::ListFamilies { device } => self.outcome(
                search_from(
                    self.families[device as int],
                    self.families.len() as usize,
                    device,
                    0,
                ),
            ),
            SearchState::AskSupport { device, family } => if self.presents[device as int][family as int]
                == Some(true) {
                SearchState::Found { device, family }
            } else {
                self.outcome(
                    search_from(
                        self.families[device as int],
                        self.families.len() as usize,
                        device,
                        family + 1,
                    ),
                )
            },
            _ => state,
        }
    }

    #[via_fn]
    proof fn outcome_ends(self, state: SearchState) {
        match state {
            SearchState::ListFamilies { device } => {
                lemma_next_graphics(self.families[device as int], 0);
            },
            SearchState::AskSupport { device, family } => {
                lemma_next_graphics(self.families[device as int], family + 1);
            },
            _ => {},
        }
    }
}

/// `next_graphics` goes forward, stops where a family draws, and passes none that does.
pub(crate) proof fn lemma_next_graphics(families: Seq<u32>, from: int)
    requires
        0 <= from <= families.len(),
    ensures
        from <= next_graphics(families, from) <= families.len(),
        forall|f: int|
            from <= f < next_graphics(families, from) ==> !has_flags(families[f], GRAPHICS),
        next_graphics(families, from) < families.len() ==> has_flags(
            families[next_graphics(families, from)],
            GRAPHICS,
        ),
    decreases families.len() - from,
{
    if from < families.len() && !has_flags(families[from], GRAPHICS) {
        lemma_next_graphics(families, from + 1);
    }
}

/// A search ends at the first queue family, by device and then by number, that draws and
/// presents, and says that there is no GPU exactly if there is none.
pub proof fn law_search_finds_first(gpus: Gpus)
    requires
        gpus.countable(),
    ensures
        match gpus.outcome(SearchState::ListDevices) {
            SearchState::Found { device, family } => {
                &&& gpus.suitable(device as int, family as int)
                &&& gpus.none_before(device as int, family as int)
            },
            SearchState::NoGpu => forall|d: int, f: int| !gpus.suitable(d, f),
            _ => false,
        },
{
    if gpus.families.len() > 0 {
        lemma_outcome(gpus, SearchState::ListFamilies { device: 0 });
    }
}

proof fn lemma_outcome(gpus: Gpus, state: SearchState)
    requires
        gpus.countable(),
        gpus.in_range(state),
        match state {
            SearchState::ListFamilies { device } => gpus.none_before(device as int, 0),
            SearchState::AskSupport { device, family } => {
                &&& gpus.none_before(device as int, family as int)
                &&& has_flags(gpus.families[device as int][family as int], GRAPHICS)
            },
            SearchState::NoGpu => forall|d: int, f: int| !gpus.suitable(d, f),
            _ => false,
        },
    ensures
        match gpus.outcome(state) {
            SearchState::Found { device, family } => {
                &&& gpus.suitable(device as int, family as int)
                &&& gpus.none_before(device as int, family as int)
            },
            SearchState::NoGpu => forall|d: int, f: int| !gpus.suitable(d, f),
            _ => false,
        },
    decreases gpus.devices_left(state), gpus.families_left(state),
{
    match state {
        SearchState::ListFamilies { device } => {
            lemma_next_graphics(gpus.families[device as int], 0);
            lemma_outcome(
                gpus,
                search_from(
                    gpus.families[device as int],
                    gpus.families.len() as usize,
                    device,
                    0,
                ),
            );
        },
        SearchState::AskSupport { device, family } => {
            if gpus.presents[device as int][family as int] != Some(true) {
                lemma_next_graphics(gpus.families[device as int], family + 1);
                lemma_outcome(
                    gpus,
                    search_from(
                        gpus.families[device as int],
                        gpus.families.len() as usize,
                        device,
                        family + 1,
                    ),
                );
            }
        },
        _ => {},
    }
}

/// Flags have others if setting those changes nothing.
pub proof fn law_flags_that_are_set(flags: u32, wanted: u32)
    ensures
        has_flags(flags, wanted) <==> flags | wanted == flags,
        has_flags(flags | wanted, wanted),
{
    assert((flags & wanted == wanted) <==> (flags | wanted == flags)) by (bit_vector);
    assert((flags | wanted) & wanted == wanted) by (bit_vector);
}

/// A kind of memory is taken only if its own bit of the filter is set and it has every property that
/// is wanted.
pub proof fn law_memory_type_fits(types: Seq<u32>, type_filter: u32, props: u32, i: int)
    requires
        0 <= i < types.len() <= 32,
    ensures
        memory_type_fits(types, type_filter, props, i) <==> {
            &&& (type_filter >> (i as u32)) & 1 == 1
            &&& types[i] | props == types[i]
        },
{
    let bit = i as u32;
    assert((type_filter & (1u32 << bit) != 0) <==> ((type_filter >> bit) & 1 == 1)) by (bit_vector)
        requires
            bit < 32,
    ;
    law_flags_that_are_set(types[i], props);
}

/// The queue family that a search ends with has the lowest bit of its flags set and presents to the
/// window, and none before it, by device and then by number, does both. Where no family does both,
/// the search says that there is no GPU.
pub proof fn law_search_result_draws_and_presents(gpus: Gpus, device: int, family: int)
    requires
        gpus.countable(),
        0 <= device < gpus.families.len(),
        0 <= family < gpus.families[device].len(),
    ensures
        ({
            let drawn = gpus.families[device][family] & 1 == 1;
            let both = drawn && gpus.presents[device][family] == Some(true);
            match gpus.outcome(SearchState::ListDevices) {
                SearchState::Found { device: d, family: f } => {
                    &&& d < gpus.families.len()
                    &&& f < gpus.families[d as int].len()
                    &&& device == d && family == f ==> both
                    &&& device < d || (device == d && family < f) ==> !both
                },
                SearchState::NoGpu => !both,
                _ => false,
            }
        }),
{
    law_search_finds_first(gpus);
    match gpus.outcome(SearchState::ListDevices) {
        SearchState::Found { device: d, family: f } => {
            assert(gpus.suitable(d as int, f as int));
            if device < d || (device == d && family < f) {
                assert(!gpus.suitable(device, family));
            }
        },
        _ => {
            assert(!gpus.suitable(device, family));
        },
    }
}

/// One step of a search: it asks about the first family from there on that draws, whatever lies
/// between; where there is none it goes on to the next device, and after the last one it gives up.
pub proof fn law_search_skips_what_cannot_draw(
    families: Seq<u32>,
    device_count: usize,
    device: usize,
    from: int,
    family: int,
)
    requires
        0 <= from <= family < families.len() <= usize::MAX,
        device < device_count,
    ensures
        match search_from(families, device_count, device, from) {
            SearchState::AskSupport { device: d, family: f } => {
                &&& d == device
                &&& from <= f < families.len()
                &&& families[f as int] & 1 == 1
                &&& family < f ==> families[family] & 1 != 1
            },
            SearchState::ListFamilies { device: d } => {
                &&& d == device + 1
                &&& d < device_count
                &&& families[family] & 1 != 1
            },
            SearchState::NoGpu => {
                &&& device + 1 == device_count
                &&& families[family] & 1 != 1
            },
            _ => false,
        },
{
    lemma_next_graphics(families, from);
    assert(has_flags(families[family], GRAPHICS) <==> families[family] & 1 == 1);
}

} // verus!
