use ash::vk;
use rviv::device::{
    find_memory_type, DeviceSearch, SearchState, DEVICE_LOCAL, GRAPHICS, HOST_COHERENT,
    HOST_VISIBLE,
};

#[test]
fn flags_have_the_values_of_vulkan() {
    assert_eq!(GRAPHICS, vk::QueueFlags::GRAPHICS.as_raw());
    assert_eq!(HOST_VISIBLE, vk::MemoryPropertyFlags::HOST_VISIBLE.as_raw());
    assert_eq!(HOST_COHERENT, vk::MemoryPropertyFlags::HOST_COHERENT.as_raw());
    assert_eq!(DEVICE_LOCAL, vk::MemoryPropertyFlags::DEVICE_LOCAL.as_raw());
}

#[test]
fn the_first_memory_type_with_all_properties_is_found() {
    let types = vec![DEVICE_LOCAL, HOST_VISIBLE, HOST_VISIBLE | HOST_COHERENT, 7];
    let wanted = HOST_VISIBLE | HOST_COHERENT;
    assert_eq!(find_memory_type(&types, 0xffff_ffff, wanted), Some(2));
    assert_eq!(find_memory_type(&types, 0b1000, wanted), Some(3));
    assert_eq!(find_memory_type(&types, 0b1011, wanted), Some(3));
    assert_eq!(find_memory_type(&types, 0xffff_ffff, DEVICE_LOCAL), Some(0));
    assert_eq!(find_memory_type(&types, 0xffff_ffff, 0), Some(0));
}

#[test]
fn a_memory_type_that_is_filtered_out_is_not_found() {
    let types = vec![DEVICE_LOCAL, HOST_VISIBLE];
    assert_eq!(find_memory_type(&types, 0b10, DEVICE_LOCAL), None);
    assert_eq!(find_memory_type(&types, 0, DEVICE_LOCAL), None);
    assert_eq!(find_memory_type(&types, 0b11, DEVICE_LOCAL | HOST_VISIBLE), None);
    assert_eq!(find_memory_type(&Vec::new(), 0xffff_ffff, 0), None);
}

#[test]
fn thirty_two_memory_types_are_searched() {
    let mut types = vec![0; 32];
    types[31] = DEVICE_LOCAL;
    assert_eq!(find_memory_type(&types, 1 << 31, DEVICE_LOCAL), Some(31));
}

#[test]
fn the_first_family_that_draws_and_presents_is_found() {
    let mut search = DeviceSearch::new();
    assert_eq!(search.state, SearchState::ListDevices);
    search.devices(2);
    assert_eq!(search.state, SearchState::ListFamilies { device: 0 });
    search.device_families(vec![2, 4]);
    assert_eq!(search.state, SearchState::ListFamilies { device: 1 });
    search.device_families(vec![6, 7, 1, 15]);
    assert_eq!(search.state, SearchState::AskSupport { device: 1, family: 1 });
    search.support(Some(false));
    assert_eq!(search.state, SearchState::AskSupport { device: 1, family: 2 });
    search.support(None);
    assert_eq!(search.state, SearchState::AskSupport { device: 1, family: 3 });
    search.support(Some(true));
    assert_eq!(search.state, SearchState::Found { device: 1, family: 3 });
}

#[test]
fn without_a_suitable_family_there_is_no_gpu() {
    let mut search = DeviceSearch::new();
    search.devices(1);
    search.device_families(vec![1, 2]);
    assert_eq!(search.state, SearchState::AskSupport { device: 0, family: 0 });
    search.support(Some(false));
    assert_eq!(search.state, SearchState::NoGpu);
    let mut none = DeviceSearch::new();
    none.devices(0);
    assert_eq!(none.state, SearchState::NoGpu);
}

#[test]
fn a_later_device_is_asked_when_an_earlier_one_does_not_present() {
    let mut search = DeviceSearch::new();
    search.devices(2);
    search.device_families(vec![GRAPHICS]);
    search.support(Some(false));
    assert_eq!(search.state, SearchState::ListFamilies { device: 1 });
    search.device_families(vec![GRAPHICS]);
    search.support(Some(true));
    assert_eq!(search.state, SearchState::Found { device: 1, family: 0 });
}
