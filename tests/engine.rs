use frame_engine::frame_timer::FrameTimer;
use frame_engine::layout::{
    create_bind_group_layout_entry, create_buffer_binding_type,
    create_compute_bind_group_layout_entry, create_fragment_bind_group_layout_entry,
    create_render_bind_group_layout_entry, create_vertex_bind_group_layout_entry,
    BindingType, BufferBindingType, ShaderStages,
};
use frame_engine::registry::{add_buffer, initiate_buffer_map, update_buffer, Registry};
use frame_engine::renderer::{RenderedObject, RenderedObjectMap, Renderer, QUAD_INSTANCES, QUAD_VERTICES};
use frame_engine::surface::{
    configure, AcquireAction, Acquisition, FrameStatus, SurfaceWrapper,
};

/// A buffer handle in these tests: an id that says which buffer was made.
type Handle = u64;

/// A device that counts the buffers it made.
struct CountingDevice {
    made: std::cell::Cell<u64>,
}

impl CountingDevice {
    fn new() -> Self {
        CountingDevice { made: std::cell::Cell::new(0) }
    }

    fn next_handle(&self) -> Handle {
        let n = self.made.get() + 1;
        self.made.set(n);
        n
    }
}

/// An object whose content changes on every frame when `changes` is set.
struct TestObject {
    storage: bool,
    size: u64,
    changes: bool,
}

impl RenderedObject<CountingDevice, Handle> for TestObject {
    fn to_buffer(&self, _label: &str, device: &CountingDevice) -> Handle {
        device.next_handle()
    }

    fn buffer_binding_type(&self, _buffer: &Handle) -> BindingType {
        create_buffer_binding_type(self.storage, true, false, self.size)
    }

    fn update_buffer(&self, _label: &str, device: &CountingDevice, _current: &Handle) -> Option<Handle> {
        if self.changes {
            Some(device.next_handle())
        } else {
            None
        }
    }
}

fn objects(list: Vec<(&str, u32, bool)>) -> RenderedObjectMap<TestObject> {
    let mut map = Registry::new();
    for (label, binding, changes) in list {
        map.register(label.to_string(), binding, TestObject { storage: binding % 2 == 1, size: 16, changes });
    }
    map
}

fn handles(r: &Registry<Handle>) -> Vec<(String, u32, Handle)> {
    (0..r.len()).map(|i| {
        let e = r.entry(i);
        (e.label.clone(), e.binding, e.value)
    }).collect()
}

#[test]
fn registry_register_and_lookup() {
    let mut r: Registry<Handle> = Registry::new();
    assert_eq!(r.len(), 0);
    r.register("a".to_string(), 3, 30);
    r.register("b".to_string(), 1, 10);
    r.register("c".to_string(), 2, 20);
    assert_eq!(r.len(), 3);
    assert!(r.contains("a"));
    assert!(!r.contains("z"));
    assert_eq!(r.binding_of("a"), Some(3));
    assert_eq!(r.binding_of("z"), None);
    assert_eq!(r.get("c"), Some(&20));
    assert_eq!(r.get("z"), None);
    // canonical order is by binding index, not by insertion
    let order: Vec<u32> = (0..r.len()).map(|i| r.entry(i).binding).collect();
    assert_eq!(order, vec![1, 2, 3]);
}

#[test]
fn registry_register_overwrites_label() {
    let mut r: Registry<Handle> = Registry::new();
    r.register("a".to_string(), 0, 1);
    r.register("b".to_string(), 1, 2);
    r.register("a".to_string(), 5, 9);
    assert_eq!(r.len(), 2);
    assert_eq!(r.binding_of("a"), Some(5));
    assert_eq!(r.get("a"), Some(&9));
    assert_eq!(handles(&r), vec![("b".to_string(), 1, 2), ("a".to_string(), 5, 9)]);
}

#[test]
fn registry_equal_bindings_keep_arrival_order() {
    let mut r: Registry<Handle> = Registry::new();
    r.register("x".to_string(), 4, 1);
    r.register("y".to_string(), 4, 2);
    r.register("w".to_string(), 0, 3);
    let labels: Vec<String> = (0..r.len()).map(|i| r.entry(i).label.clone()).collect();
    assert_eq!(labels, vec!["w".to_string(), "x".to_string(), "y".to_string()]);
}

#[test]
fn replace_keeps_binding_and_changes_only_buffer() {
    let mut r: Registry<Handle> = Registry::new();
    r.register("a".to_string(), 0, 100);
    r.register("b".to_string(), 7, 200);
    r.replace("b", 201);
    assert_eq!(r.binding_of("b"), Some(7));
    assert_eq!(r.get("b"), Some(&201));
    assert_eq!(r.get("a"), Some(&100));
    assert_eq!(handles(&r), vec![("a".to_string(), 0, 100), ("b".to_string(), 7, 201)]);
}

#[test]
fn buffer_map_functions() {
    let mut m = initiate_buffer_map::<Handle>();
    add_buffer(&mut m, 11, 2, "u");
    add_buffer(&mut m, 12, 0, "v");
    update_buffer(&mut m, "u", 13);
    assert_eq!(m.get("u"), Some(&13));
    assert_eq!(m.binding_of("u"), Some(2));
    assert_eq!(handles(&m), vec![("v".to_string(), 0, 12), ("u".to_string(), 2, 13)]);
}

#[test]
fn layout_entry_constructors() {
    let ty = create_buffer_binding_type(false, true, false, 64);
    assert_eq!(ty, BindingType { ty: BufferBindingType::Uniform, has_dynamic_offset: false, min_binding_size: 64 });
    let st = create_buffer_binding_type(true, false, true, 8);
    assert_eq!(st.ty, BufferBindingType::Storage { read_only: false });
    assert!(st.has_dynamic_offset);
    assert_eq!(st.min_binding_size, 8);
    assert_eq!(create_bind_group_layout_entry(4, ShaderStages::Vertex, ty).binding, 4);
    assert_eq!(create_compute_bind_group_layout_entry(1, ty).visibility, ShaderStages::Compute);
    assert_eq!(create_fragment_bind_group_layout_entry(1, ty).visibility, ShaderStages::Fragment);
    assert_eq!(create_vertex_bind_group_layout_entry(1, ty).visibility, ShaderStages::Vertex);
    let r = create_render_bind_group_layout_entry(9, st);
    assert_eq!(r.visibility, ShaderStages::VertexFragment);
    assert_eq!(r.binding, 9);
    assert_eq!(r.ty, st);
}

#[test]
fn init_layout_has_fragment_entries_at_bindings() {
    let objs = objects(vec![("b", 1, false), ("a", 0, false)]);
    let device = CountingDevice::new();
    let mut renderer: Renderer<Handle> = Renderer::new();
    assert!(!renderer.is_initialized());
    renderer.init(&device, &objs);
    assert!(renderer.is_initialized());
    let layout = renderer.layout_entries();
    assert_eq!(layout.len(), 2);
    assert_eq!(layout[0].binding, 0);
    assert_eq!(layout[1].binding, 1);
    assert!(layout.iter().all(|e| e.visibility == ShaderStages::Fragment));
    assert_eq!(layout[0].ty.ty, BufferBindingType::Uniform);
    assert_eq!(layout[1].ty.ty, BufferBindingType::Storage { read_only: true });
    assert_eq!(layout[1].ty.min_binding_size, 16);
}

#[test]
fn init_registry_labels_and_bindings_round_trip() {
    let objs = objects(vec![("light", 2, false), ("camera", 0, false), ("scene", 5, false)]);
    let device = CountingDevice::new();
    let mut renderer: Renderer<Handle> = Renderer::new();
    renderer.init(&device, &objs);
    let buffers = renderer.buffers();
    assert_eq!(buffers.len(), 3);
    assert_eq!(buffers.binding_of("light"), Some(2));
    assert_eq!(buffers.binding_of("camera"), Some(0));
    assert_eq!(buffers.binding_of("scene"), Some(5));
    assert!(!buffers.contains("other"));
    // each object materialized exactly once
    assert_eq!(device.made.get(), 3);
}

#[test]
fn render_twice_without_changes_keeps_buffers() {
    let objs = objects(vec![("a", 0, false), ("b", 1, false)]);
    let device = CountingDevice::new();
    let mut renderer: Renderer<Handle> = Renderer::new();
    renderer.init(&device, &objs);
    let first = renderer.render(&device, &objs);
    let after_first = handles(renderer.buffers());
    let second = renderer.render(&device, &objs);
    let after_second = handles(renderer.buffers());
    assert_eq!(after_first, after_second);
    assert_eq!(first, second);
    assert!(!first.buffers_changed);
    assert!(!second.buffers_changed);
    assert_eq!(first.draw.vertices, QUAD_VERTICES);
    assert_eq!(first.draw.vertices, 6);
    assert_eq!(first.draw.instances, QUAD_INSTANCES);
    assert_eq!(first.draw.instances, 1);
    assert_eq!(device.made.get(), 2);
}

#[test]
fn render_replaces_changed_buffers_only() {
    let objs = objects(vec![("still", 0, false), ("moving", 1, true)]);
    let device = CountingDevice::new();
    let mut renderer: Renderer<Handle> = Renderer::new();
    renderer.init(&device, &objs);
    let before = handles(renderer.buffers());
    let plan = renderer.render(&device, &objs);
    assert!(plan.buffers_changed);
    let after = handles(renderer.buffers());
    assert_eq!(after[0], before[0]);
    assert_eq!(after[1].0, "moving");
    assert_eq!(after[1].1, 1);
    assert_ne!(after[1].2, before[1].2);
    assert_eq!(renderer.layout_entries().len(), 2);
}

#[test]
fn objects_added_after_init_do_not_change_pipeline() {
    let mut objs = objects(vec![("a", 0, false)]);
    let device = CountingDevice::new();
    let mut renderer: Renderer<Handle> = Renderer::new();
    renderer.init(&device, &objs);
    objs.register("late".to_string(), 1, TestObject { storage: false, size: 4, changes: true });
    renderer.render(&device, &objs);
    assert_eq!(renderer.layout_entries().len(), 1);
    assert!(!renderer.buffers().contains("late"));
}

#[test]
fn apply_update_on_unknown_label_is_ignored() {
    let objs = objects(vec![("a", 0, false)]);
    let device = CountingDevice::new();
    let mut renderer: Renderer<Handle> = Renderer::new();
    renderer.init(&device, &objs);
    assert!(!renderer.apply_update("missing", Some(77)));
    assert!(!renderer.apply_update("a", None));
    assert_eq!(handles(renderer.buffers()), vec![("a".to_string(), 0, 1)]);
    assert!(renderer.apply_update("a", Some(78)));
    assert_eq!(handles(renderer.buffers()), vec![("a".to_string(), 0, 78)]);
}

#[test]
fn configure_zero_size_is_clamped() {
    let c = configure(0, 0, true);
    assert_eq!(c.width, 1);
    assert_eq!(c.height, 1);
    assert!(c.srgb);
    let d = configure(800, 0, false);
    assert_eq!((d.width, d.height, d.srgb), (800, 1, false));
}

#[test]
fn surface_lifecycle_and_resize_twice() {
    let mut s = SurfaceWrapper::new();
    assert_eq!(s.config(), None);
    let c = s.resume(0, 600, true);
    assert_eq!((c.width, c.height), (1, 600));
    let first = s.resize(1024, 768);
    let state_after_first = s.config();
    let second = s.resize(1024, 768);
    assert_eq!(first, second);
    assert_eq!(s.config(), state_after_first);
    assert_eq!((second.width, second.height, second.srgb), (1024, 768, true));
    let z = s.resize(0, 0);
    assert_eq!((z.width, z.height), (1, 1));
}

fn run_acquisition(statuses: &[FrameStatus]) -> (Vec<AcquireAction>, usize) {
    let mut a = Acquisition::new();
    let mut actions = Vec::new();
    let mut reconfigures = 0;
    for s in statuses {
        if a.is_finished() {
            break;
        }
        let act = a.next(*s);
        if act == AcquireAction::ReconfigureAndRetry {
            reconfigures += 1;
        }
        actions.push(act);
    }
    (actions, reconfigures)
}

#[test]
fn acquire_outdated_then_ok_reconfigures_once() {
    let (actions, reconfigures) = run_acquisition(&[FrameStatus::Outdated, FrameStatus::Acquired]);
    assert_eq!(actions, vec![AcquireAction::ReconfigureAndRetry, AcquireAction::UseFrame]);
    assert_eq!(reconfigures, 1);
}

#[test]
fn acquire_timeout_then_ok_retries_without_reconfigure() {
    let (actions, reconfigures) = run_acquisition(&[FrameStatus::Timeout, FrameStatus::Acquired]);
    assert_eq!(actions, vec![AcquireAction::Retry, AcquireAction::UseFrame]);
    assert_eq!(reconfigures, 0);
}

#[test]
fn acquire_lost_and_out_of_memory_reconfigure() {
    let (a, n) = run_acquisition(&[FrameStatus::Lost, FrameStatus::Acquired]);
    assert_eq!(a, vec![AcquireAction::ReconfigureAndRetry, AcquireAction::UseFrame]);
    assert_eq!(n, 1);
    let (b, m) = run_acquisition(&[FrameStatus::OutOfMemory, FrameStatus::Acquired]);
    assert_eq!(b, vec![AcquireAction::ReconfigureAndRetry, AcquireAction::UseFrame]);
    assert_eq!(m, 1);
}

#[test]
fn acquire_second_failure_is_fatal() {
    let (a, _) = run_acquisition(&[FrameStatus::Timeout, FrameStatus::Timeout, FrameStatus::Acquired]);
    assert_eq!(a, vec![AcquireAction::Retry, AcquireAction::Fatal]);
    let (b, n) = run_acquisition(&[FrameStatus::Outdated, FrameStatus::Lost]);
    assert_eq!(b, vec![AcquireAction::ReconfigureAndRetry, AcquireAction::Fatal]);
    assert_eq!(n, 1);
    let mut acq = Acquisition::new();
    assert_eq!(acq.next(FrameStatus::Acquired), AcquireAction::UseFrame);
    assert!(acq.is_finished());
}

#[test]
fn frame_gate_threshold_at_sixty_fps() {
    let mut t = FrameTimer::new();
    t.tick(16_666_666);
    assert!(!t.is_it_time_to_refresh(60));
    t.tick(16_666_667);
    assert!(t.is_it_time_to_refresh(60));
    // the effective render moved to this tick: the next one is too early again
    t.tick(20_000_000);
    assert!(!t.is_it_time_to_refresh(60));
    t.tick(16_666_667 + 16_666_667);
    assert!(t.is_it_time_to_refresh(60));
}

#[test]
fn frame_gate_without_target_always_renders() {
    let mut t = FrameTimer::new();
    t.tick(1);
    assert!(t.is_it_time_to_refresh(0));
    assert!(t.is_it_time_to_refresh(0));
    assert!(t.is_it_time_to_refresh(-5));
    t.tick(2);
    assert!(t.is_it_time_to_refresh(-1));
}

#[test]
fn frame_timer_frame_time_and_fps() {
    let mut t = FrameTimer::new();
    assert_eq!(t.frame_time(), 0);
    assert_eq!(t.fps(), 0);
    // fps in thousandths of a frame per second, rounded up
    t.tick(20_000_000);
    assert_eq!(t.frame_time(), 20_000_000);
    assert_eq!(t.fps(), 50_000);
    // a frame that took no time: unbounded rate
    t.tick(20_000_000);
    assert_eq!(t.frame_time(), 0);
    assert_eq!(t.fps(), u64::MAX);
    t.tick(35_000_000);
    assert_eq!(t.frame_time(), 15_000_000);
    assert_eq!(t.fps(), 66_667);
}

#[test]
fn frame_timer_slow_frames_keep_positive_fps() {
    let mut t = FrameTimer::new();
    t.tick(2_000_000_000);
    assert_eq!(t.fps(), 500);
    t.tick(5_000_000_000);
    assert_eq!(t.fps(), 334);
    // an hour-long frame
    t.tick(5_000_000_000 + 3_600_000_000_000);
    assert_eq!(t.fps(), 1);
    t.tick(u64::MAX);
    assert_eq!(t.fps(), 1);
}

#[test]
fn frame_timer_log_once_per_second() {
    let mut t = FrameTimer::new();
    t.tick(500_000_000);
    assert!(!t.log_at(500_000_000));
    t.tick(1_000_000_000);
    assert!(!t.log_at(1_000_000_000));
    t.tick(1_000_000_001);
    // the last-log time becomes the time given, not the tick's
    assert!(t.log_at(1_000_000_005));
    t.tick(2_000_000_005);
    assert!(!t.log_at(2_000_000_005));
    t.tick(2_000_000_006);
    assert!(t.log_at(2_000_000_006));
    assert!(!t.log_at(2_000_000_007));
}

#[test]
fn frame_timer_update_reads_clock() {
    let mut t = FrameTimer::new();
    t.update();
    let first = t.frame_time();
    t.update();
    // without a target every tick renders, whatever the clock read
    assert!(t.is_it_time_to_refresh(0));
    assert!(first < 60_000_000_000);
}

#[test]
fn render_keeps_buffers_of_labels_no_object_claims() {
    let objs = objects(vec![("a", 0, true), ("b", 1, true)]);
    let device = CountingDevice::new();
    let mut renderer: Renderer<Handle> = Renderer::new();
    renderer.init(&device, &objs);
    let before = handles(renderer.buffers());
    let only_a = objects(vec![("a", 0, true)]);
    let plan = renderer.render(&device, &only_a);
    assert!(plan.buffers_changed);
    let after = handles(renderer.buffers());
    assert_ne!(after[0].2, before[0].2);
    assert_eq!(after[1], before[1]);
}
