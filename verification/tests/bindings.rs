use pso::{
    aa_max, dim_max, AaMode, AccessInfo, ConstantBufferParam, PixelTargetSet, RawBuffer,
    ResourceViewParam, Resources, SamplerParam, UnorderedViewParam, Usage, VertexBufferSet,
    MAX_COLOR_TARGETS, MAX_VERTEX_ATTRIBUTES,
};

#[derive(Clone, Copy, Debug, PartialEq, Eq, Hash)]
struct TestBackend;

impl Resources for TestBackend {
    type Buffer = u32;
    type ShaderResourceView = u32;
    type UnorderedAccessView = u32;
    type RenderTargetView = u32;
    type DepthStencilView = u32;
    type Sampler = u32;
    type Mapping = u64;
}

#[test]
fn vertex_buffer_set_new_is_empty() {
    let set = VertexBufferSet::<TestBackend>::new();
    assert_eq!(set.0.len(), MAX_VERTEX_ATTRIBUTES);
    assert!(set.0.iter().all(|s| s.is_none()));
}

#[test]
fn vertex_buffer_set_add_fills_one_attribute_slot() {
    let mut set = VertexBufferSet::<TestBackend>::new();
    assert!(set.add(2, 7, 64));
    assert!(set.add(5, 7, 128));
    assert_eq!(set.0[2], Some((7, 64)));
    assert_eq!(set.0[5], Some((7, 128)));
    for i in 0..MAX_VERTEX_ATTRIBUTES {
        if i != 2 && i != 5 {
            assert_eq!(set.0[i], None);
        }
    }
}

#[test]
fn vertex_buffer_set_add_rejects_out_of_range() {
    let mut set = VertexBufferSet::<TestBackend>::new();
    assert!(!set.add(MAX_VERTEX_ATTRIBUTES as u8, 7, 0));
    assert!(set.0.iter().all(|s| s.is_none()));
}

#[test]
fn parameter_triples_carry_their_fields() {
    let usage = Usage { vertex: true, geometry: false, pixel: true };
    let cb = ConstantBufferParam::<TestBackend>(10, usage, 1);
    let srv = ResourceViewParam::<TestBackend>(11, usage, 2);
    let uav = UnorderedViewParam::<TestBackend>(12, usage, 3);
    let sam = SamplerParam::<TestBackend>(13, usage, 4);
    assert_eq!((cb.0, cb.1, cb.2), (10, usage, 1));
    assert_eq!((srv.0, srv.1, srv.2), (11, usage, 2));
    assert_eq!((uav.0, uav.1, uav.2), (12, usage, 3));
    assert_eq!((sam.0, sam.1, sam.2), (13, usage, 4));
}

#[test]
fn pixel_target_set_new_has_degenerate_size() {
    let set = PixelTargetSet::<TestBackend>::new();
    assert!(set.colors.iter().all(|s| s.is_none()));
    assert_eq!(set.depth, None);
    assert_eq!(set.stencil, None);
    assert_eq!(set.size, (0, 0, 0, AaMode::Single));
}

#[test]
fn pixel_target_aggregate_size_is_componentwise_max() {
    let mut set = PixelTargetSet::<TestBackend>::new();
    assert!(set.add_color(0, &1, (100, 100, 1, AaMode::Single)));
    assert!(set.add_color(1, &2, (200, 50, 1, AaMode::Single)));
    assert_eq!(set.size, (200, 100, 1, AaMode::Single));
    assert_eq!(set.colors[0], Some(1));
    assert_eq!(set.colors[1], Some(2));
    assert_eq!(set.colors[2], None);
    assert_eq!(set.colors[3], None);
}

#[test]
fn pixel_target_add_color_rejects_out_of_range() {
    let mut set = PixelTargetSet::<TestBackend>::new();
    assert!(set.add_color(0, &1, (100, 100, 1, AaMode::Single)));
    assert!(!set.add_color(MAX_COLOR_TARGETS as u8, &2, (999, 999, 9, AaMode::Multi(4))));
    assert_eq!(set.size, (100, 100, 1, AaMode::Single));
    assert_eq!(set.colors[0], Some(1));
}

#[test]
fn add_depth_stencil_with_depth_alone_leaves_stencil_empty() {
    let mut set = PixelTargetSet::<TestBackend>::new();
    set.add_depth_stencil(&9, true, false, (64, 32, 1, AaMode::Single));
    assert_eq!(set.depth, Some(9));
    assert_eq!(set.stencil, None);
    assert_eq!(set.size, (64, 32, 1, AaMode::Single));
}

#[test]
fn add_depth_stencil_with_stencil_alone_leaves_depth_empty() {
    let mut set = PixelTargetSet::<TestBackend>::new();
    set.add_depth_stencil(&9, false, true, (64, 32, 1, AaMode::Single));
    assert_eq!(set.depth, None);
    assert_eq!(set.stencil, Some(9));
}

#[test]
fn add_depth_stencil_with_both_flags_shares_one_view() {
    let mut set = PixelTargetSet::<TestBackend>::new();
    set.add_depth_stencil(&9, true, true, (64, 32, 1, AaMode::Single));
    assert_eq!(set.depth, Some(9));
    assert_eq!(set.stencil, Some(9));
}

#[test]
fn aa_max_orders_modes() {
    assert_eq!(aa_max(AaMode::Single, AaMode::Multi(2)), AaMode::Multi(2));
    assert_eq!(aa_max(AaMode::Multi(8), AaMode::Multi(2)), AaMode::Multi(8));
    assert_eq!(aa_max(AaMode::Coverage(2, 1), AaMode::Multi(16)), AaMode::Coverage(2, 1));
    assert_eq!(aa_max(AaMode::Coverage(2, 1), AaMode::Coverage(2, 3)), AaMode::Coverage(2, 3));
    assert_eq!(aa_max(AaMode::Single, AaMode::Single), AaMode::Single);
}

#[test]
fn dim_max_takes_each_component() {
    assert_eq!(
        dim_max((1, 200, 3, AaMode::Single), (100, 2, 30, AaMode::Multi(4))),
        (100, 200, 30, AaMode::Multi(4))
    );
}

#[test]
fn buffer_read_on_unmapped_buffer_records_nothing() {
    let mut info = AccessInfo::<TestBackend>::new();
    let buffer = RawBuffer::<TestBackend>::new_unmapped(1);
    info.buffer_read(&buffer);
    info.buffer_write(&buffer);
    assert!(info.mapped_reads().is_empty());
    assert!(info.mapped_writes().is_empty());
}

#[test]
fn buffer_read_on_mapped_buffer_appends_exactly_one_entry() {
    let mut info = AccessInfo::<TestBackend>::new();
    let buffer = RawBuffer::<TestBackend>::new_mapped(1, 77);
    info.buffer_read(&buffer);
    assert_eq!(info.mapped_reads().len(), 1);
    assert_eq!(info.mapped_reads()[0].raw, 77);
    assert!(info.mapped_writes().is_empty());
}

#[test]
fn clear_empties_both_lists() {
    let mut info = AccessInfo::<TestBackend>::new();
    let buffer = RawBuffer::<TestBackend>::new_mapped(1, 77);
    info.buffer_read(&buffer);
    info.buffer_write(&buffer);
    info.clear();
    assert!(info.mapped_reads().is_empty());
    assert!(info.mapped_writes().is_empty());
}

#[test]
fn three_registrations_preserve_insertion_order() {
    let mut info = AccessInfo::<TestBackend>::new();
    let first = RawBuffer::<TestBackend>::new_mapped(1, 11);
    let second = RawBuffer::<TestBackend>::new_mapped(2, 22);
    let third = RawBuffer::<TestBackend>::new_mapped(3, 33);
    info.buffer_read(&first);
    info.buffer_read(&second);
    info.buffer_read(&third);
    let raws: Vec<u64> = info.mapped_reads().iter().map(|m| m.raw).collect();
    assert_eq!(raws, vec![11, 22, 33]);
    assert!(info.mapped_writes().is_empty());
}

#[test]
fn duplicate_registrations_are_kept() {
    let mut info = AccessInfo::<TestBackend>::new();
    let buffer = RawBuffer::<TestBackend>::new_mapped(1, 11);
    info.buffer_write(&buffer);
    info.buffer_write(&buffer);
    let raws: Vec<u64> = info.mapped_writes().iter().map(|m| m.raw).collect();
    assert_eq!(raws, vec![11, 11]);
}

#[test]
fn binding_sets_have_no_crosstalk() {
    let mut vbs = VertexBufferSet::<TestBackend>::new();
    let mut targets = PixelTargetSet::<TestBackend>::new();
    for i in 0..MAX_VERTEX_ATTRIBUTES {
        assert!(vbs.add(i as u8, i as u32, i * 16));
    }
    for i in 0..MAX_COLOR_TARGETS {
        assert!(targets.add_color(i as u8, &(i as u32 + 100), (256, 256, 1, AaMode::Single)));
    }
    targets.add_depth_stencil(&200, true, true, (256, 256, 1, AaMode::Single));
    for i in 0..MAX_VERTEX_ATTRIBUTES {
        assert_eq!(vbs.0[i], Some((i as u32, i * 16)));
    }
    for i in 0..MAX_COLOR_TARGETS {
        assert_eq!(targets.colors[i], Some(i as u32 + 100));
    }
    assert_eq!(targets.depth, Some(200));
    assert_eq!(targets.stencil, Some(200));
    assert_eq!(targets.size, (256, 256, 1, AaMode::Single));
}
