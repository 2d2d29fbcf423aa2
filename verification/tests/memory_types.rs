use vulkan_opengl_demo::memory::{find_memory_type, MemoryProperties};

fn table(flags: &[u32]) -> MemoryProperties {
    let mut property_flags = [0u32; 32];
    let mut index = 0;
    while index < flags.len() {
        property_flags[index] = flags[index];
        index += 1;
    }
    MemoryProperties { memory_type_count: flags.len() as u32, property_flags }
}

#[test]
fn lowest_allowed_device_local_type_is_found() {
    // Type 0 is not device-local, type 1 is not allowed, types 2 and 3 are both.
    assert_eq!(find_memory_type(0b1101, &table(&[0b10, 0b1, 0b1, 0b1])), Some(2));
}

#[test]
fn other_property_bits_do_not_matter() {
    assert_eq!(find_memory_type(0b11, &table(&[0b1110, 0b1111])), Some(1));
}

#[test]
fn nothing_is_found_where_nothing_fits() {
    assert_eq!(find_memory_type(0b01, &table(&[0b10, 0b1])), None);
    assert_eq!(find_memory_type(0, &table(&[0b1, 0b1])), None);
    assert_eq!(find_memory_type(0xFFFF_FFFF, &table(&[])), None);
}

#[test]
fn entries_beyond_the_count_are_ignored() {
    let mut properties = table(&[0b1, 0b1]);
    properties.memory_type_count = 1;
    assert_eq!(find_memory_type(0b10, &properties), None);
}

#[test]
fn last_entry_of_the_table_can_be_found() {
    let mut properties = table(&[0u32; 32]);
    properties.property_flags[31] = 1;
    assert_eq!(find_memory_type(0x8000_0000, &properties), Some(31));
    properties.memory_type_count = 40;
    assert_eq!(find_memory_type(0x8000_0000, &properties), Some(31));
    assert_eq!(find_memory_type(0x7FFF_FFFF, &properties), None);
}
