use gl_native::descriptor::{DescriptorPool, DescriptorSetLayoutBinding, DescriptorType};
use gl_native::handles::Fence;
use gl_native::memory::{
    Memory, Properties, CPU_CACHED, CPU_VISIBLE, DEVICE_LOCAL, MAP_READ_BIT, MAP_WRITE_BIT,
};
use gl_native::remap::{BindingTypes, DescRemapData};
use gl_native::renderpass::SubpassDesc;

fn mem(bits: u32) -> Memory {
    Memory { properties: Properties { bits }, first_bound_buffer: 0, size: 64 }
}

#[test]
fn overflow_slots_grow_one_per_call_in_order() {
    let mut d = DescRemapData::new();
    let s1 = d.insert_missing_binding_into_spare(BindingTypes::Images, 0, 1);
    assert_eq!(s1, vec![0]);
    let s2 = d.insert_missing_binding_into_spare(BindingTypes::Images, 0, 1);
    assert_eq!(s2, vec![0, 1]);
    let s3 = d.insert_missing_binding_into_spare(BindingTypes::Images, 0, 1);
    assert_eq!(s3, vec![0, 1, 2]);
}

#[test]
fn overflow_slots_never_repeat_within_a_kind() {
    let mut d = DescRemapData::new();
    let mut seen = Vec::new();
    for (set, binding) in [(0, 1), (0, 1), (2, 7), (3, 7), (0, 1)] {
        let slots = d.insert_missing_binding_into_spare(BindingTypes::Images, set, binding);
        let new_slot = *slots.last().unwrap();
        assert!(!seen.contains(&new_slot));
        seen.push(new_slot);
    }
}

#[test]
fn reserve_then_explicit_registers_that_slot() {
    let mut d = DescRemapData::new();
    let nb = d.reserve_binding(BindingTypes::UniformBuffers);
    assert_eq!(nb, 0);
    let slots = d.insert_missing_binding(nb, BindingTypes::UniformBuffers, 1, 4);
    assert_eq!(slots, vec![0]);
    let looked = d.get_binding(BindingTypes::UniformBuffers, 1, 4);
    assert_eq!(looked, Some(vec![0]));
}

#[test]
fn explicit_slots_keep_registration_order() {
    let mut d = DescRemapData::new();
    let first = d.reserve_binding(BindingTypes::Images);
    let second = d.reserve_binding(BindingTypes::Images);
    assert_eq!((first, second), (0, 1));
    d.insert_missing_binding(second, BindingTypes::Images, 2, 3);
    let slots = d.insert_missing_binding(first, BindingTypes::Images, 2, 3);
    assert_eq!(slots, vec![1, 0]);
}

#[test]
fn lookup_on_never_registered_key_is_absent() {
    let d = DescRemapData::new();
    for btype in [BindingTypes::Images, BindingTypes::UniformBuffers] {
        for set in 0..3 {
            for binding in 0..3 {
                assert_eq!(d.get_binding(btype, set, binding), None);
            }
        }
    }
}

#[test]
fn lookup_on_other_keys_stays_absent_after_assignment() {
    let mut d = DescRemapData::new();
    d.insert_missing_binding_into_spare(BindingTypes::Images, 1, 2);
    assert_eq!(d.get_binding(BindingTypes::Images, 1, 3), None);
    assert_eq!(d.get_binding(BindingTypes::Images, 2, 2), None);
    assert_eq!(d.get_binding(BindingTypes::UniformBuffers, 1, 2), None);
}

#[test]
fn per_kind_counters_are_independent() {
    let mut d = DescRemapData::new();
    for _ in 0..3 {
        d.insert_missing_binding_into_spare(BindingTypes::Images, 0, 0);
    }
    for _ in 0..2 {
        d.insert_missing_binding_into_spare(BindingTypes::UniformBuffers, 0, 0);
    }
    assert_eq!(d.get_binding(BindingTypes::Images, 0, 0), Some(vec![0, 1, 2]));
    assert_eq!(d.get_binding(BindingTypes::UniformBuffers, 0, 0), Some(vec![0, 1]));
    // The uniform-buffer assignments consumed nothing from the image
    // counter: the next image slot continues the image sequence.
    assert_eq!(d.reserve_binding(BindingTypes::Images), 3);
    assert_eq!(d.reserve_binding(BindingTypes::UniformBuffers), 2);
}

#[test]
fn name_lookup_resolves_to_the_mapped_slots() {
    let mut d = DescRemapData::new();
    d.insert_missing_binding_into_spare(BindingTypes::Images, 1, 2);
    d.insert_missing_binding_into_spare(BindingTypes::Images, 1, 2);
    d.insert_name("u_diffuse".to_owned(), BindingTypes::Images, 1, 2);
    assert_eq!(d.get_binding_by_name(&"u_diffuse".to_owned()), Some(vec![0, 1]));
    assert_eq!(d.get_binding_by_name(&"u_missing".to_owned()), None);
}

#[test]
fn later_name_association_supersedes_earlier() {
    let mut d = DescRemapData::new();
    d.insert_missing_binding_into_spare(BindingTypes::Images, 0, 0);
    d.insert_missing_binding_into_spare(BindingTypes::Images, 0, 1);
    d.insert_name("u_tex".to_owned(), BindingTypes::Images, 0, 0);
    d.insert_name("u_tex".to_owned(), BindingTypes::Images, 0, 1);
    assert_eq!(d.get_binding_by_name(&"u_tex".to_owned()), Some(vec![1]));
}

#[test]
fn name_known_but_key_unassigned_is_absent() {
    let mut d = DescRemapData::new();
    d.insert_name("u_orphan".to_owned(), BindingTypes::UniformBuffers, 5, 6);
    assert_eq!(d.get_binding_by_name(&"u_orphan".to_owned()), None);
}

#[test]
fn map_flags_of_host_visible_only_is_write_only() {
    let m = mem(CPU_VISIBLE);
    assert!(m.can_upload());
    assert!(!m.can_download());
    assert_eq!(m.map_flags(), MAP_WRITE_BIT);
}

#[test]
fn map_flags_of_visible_and_cached_is_read_write() {
    let m = mem(CPU_VISIBLE | CPU_CACHED);
    assert!(m.can_upload());
    assert!(m.can_download());
    assert_eq!(m.map_flags(), MAP_READ_BIT | MAP_WRITE_BIT);
}

#[test]
fn map_flags_of_device_local_is_empty() {
    assert_eq!(mem(DEVICE_LOCAL).map_flags(), 0);
    assert_eq!(mem(0).map_flags(), 0);
}

#[test]
fn map_flags_of_cached_but_not_visible_is_empty() {
    let m = mem(CPU_CACHED);
    assert!(!m.can_upload());
    assert!(!m.can_download());
    assert_eq!(m.map_flags(), 0);
}

#[test]
fn is_using_finds_listed_attachments_only() {
    let sp = SubpassDesc { color_attachments: vec![0, 2, 5] };
    assert!(sp.is_using(0));
    assert!(sp.is_using(2));
    assert!(sp.is_using(5));
    assert!(!sp.is_using(1));
    assert!(!sp.is_using(3));
    assert!(!sp.is_using(4));
}

#[test]
fn is_using_on_empty_list_is_false() {
    let sp = SubpassDesc { color_attachments: Vec::new() };
    assert!(!sp.is_using(0));
    assert!(!sp.is_using(7));
}

#[test]
fn allocate_set_always_succeeds_with_empty_bindings() {
    let mut pool = DescriptorPool {};
    let layout = vec![
        DescriptorSetLayoutBinding {
            binding: 0,
            ty: DescriptorType::UniformBuffer,
            count: 1,
            stage_flags: 0x3,
        },
        DescriptorSetLayoutBinding {
            binding: 1,
            ty: DescriptorType::CombinedImageSampler,
            count: 4,
            stage_flags: 0x2,
        },
    ];
    let set = pool.allocate_set(&layout).unwrap();
    assert_eq!(set.layout, layout);
    assert!(set.bindings.is_empty());
}

#[test]
fn pool_free_and_reset_do_nothing_to_remapper_state() {
    let mut pool = DescriptorPool {};
    let layout = Vec::new();
    let mut d = DescRemapData::new();
    d.insert_missing_binding_into_spare(BindingTypes::Images, 0, 0);
    let a = pool.allocate_set(&layout).unwrap();
    let b = pool.allocate_set(&layout).unwrap();
    pool.free_sets(vec![a, b]);
    pool.reset();
    assert_eq!(d.get_binding(BindingTypes::Images, 0, 0), Some(vec![0]));
    assert_eq!(d.reserve_binding(BindingTypes::Images), 1);
}

#[test]
fn fence_wraps_the_given_sync_handle() {
    let f = Fence::new(0xdead);
    assert_eq!(f.0, 0xdead);
}
