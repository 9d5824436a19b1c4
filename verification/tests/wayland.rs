use wlx_capture::wayland::transform_from_wire;
use wlx_capture::wayland::Announced;
use wlx_capture::wayland::ClientEvent;
use wlx_capture::wayland::Global;
use wlx_capture::wayland::OutputBinding;
use wlx_capture::wayland::RegistryEvent;
use wlx_capture::wayland::Transform;
use wlx_capture::wayland::WlOutputEvent;
use wlx_capture::wayland::WlxClient;
use wlx_capture::wayland::XdgOutputEvent;

fn output_global(name: u32) -> Global {
    Global { name, interface: "wl_output".to_string(), version: 4 }
}

fn other_global(name: u32, interface: &str) -> Global {
    Global { name, interface: interface.to_string(), version: 1 }
}

fn client_with_outputs(names: &[u32]) -> WlxClient {
    let mut client = WlxClient::new(true, true);
    let globals: Vec<Global> = names.iter().map(|n| output_global(*n)).collect();
    client.refresh_outputs(&globals, 1);
    client
}

fn place(client: &mut WlxClient, id: u32, pos: (i32, i32), size: (i32, i32)) {
    client.xdg_output_event(id, XdgOutputEvent::LogicalPosition { x: pos.0, y: pos.1 });
    client.xdg_output_event(id, XdgOutputEvent::LogicalSize { width: size.0, height: size.1 });
}

fn sorted(mut ids: Vec<u32>) -> Vec<u32> {
    ids.sort();
    ids
}

#[test]
fn transforms_are_read_off_the_wire() {
    assert_eq!(transform_from_wire(0), Transform::Normal);
    assert_eq!(transform_from_wire(1), Transform::_90);
    assert_eq!(transform_from_wire(2), Transform::_180);
    assert_eq!(transform_from_wire(3), Transform::_270);
    assert_eq!(transform_from_wire(4), Transform::Flipped);
    assert_eq!(transform_from_wire(5), Transform::Flipped90);
    assert_eq!(transform_from_wire(6), Transform::Flipped180);
    assert_eq!(transform_from_wire(7), Transform::Flipped270);
    assert_eq!(transform_from_wire(8), Transform::Normal);
    assert_eq!(transform_from_wire(u32::MAX), Transform::Normal);
}

#[test]
fn a_new_registry_tracks_nothing() {
    let client = WlxClient::new(true, false);
    assert!(!client.is_dirty());
    assert!(client.has_dmabuf_manager());
    assert!(!client.has_screencopy_manager());
    assert!(client.output_ids().is_empty());
    assert!(client.output(0).is_none());
    assert!(client.output(u32::MAX).is_none());
    assert_eq!(client.get_desktop_extent(), (0, 0));
}

#[test]
fn refresh_creates_an_output_for_each_output_global() {
    let mut client = WlxClient::new(false, false);
    let globals = vec![
        other_global(1, "wl_compositor"),
        output_global(40),
        other_global(2, "wl_seat"),
        Global { name: 41, interface: "wl_output".to_string(), version: 3 },
    ];
    let refresh = client.refresh_outputs(&globals, 7);
    assert!(refresh.changed);
    assert_eq!(
        refresh.bound,
        vec![
            OutputBinding { id: 40, version: 4, created: true },
            OutputBinding { id: 41, version: 3, created: true },
        ]
    );
    assert_eq!(sorted(client.output_ids()), vec![40, 41]);
    assert!(!client.is_dirty());
    let output = client.output(40).unwrap();
    assert_eq!(output.id, 40);
    assert_eq!(output.name, "Unknown");
    assert_eq!(output.model, "Unknown");
    assert_eq!(output.size, (0, 0));
    assert_eq!(output.logical_pos, (0, 0));
    assert_eq!(output.logical_size, (0, 0));
    assert_eq!(output.transform, Transform::Normal);
    assert!(!output.dirty);
    assert!(!output.done);
    assert_eq!(output.updated, 7);
    assert!(client.output(1).is_none());
    assert!(client.output(2).is_none());
}

#[test]
fn refresh_keeps_what_it_observes_again() {
    let mut client = client_with_outputs(&[3, 4]);
    client.xdg_output_event(3, XdgOutputEvent::Name { name: "DP-1".to_string() });
    let refresh = client.refresh_outputs(&vec![output_global(3), output_global(4)], 2);
    assert!(!refresh.changed);
    assert_eq!(
        refresh.bound,
        vec![
            OutputBinding { id: 3, version: 4, created: false },
            OutputBinding { id: 4, version: 4, created: false },
        ]
    );
    let output = client.output(3).unwrap();
    assert_eq!(output.name, "DP-1");
    assert_eq!(output.updated, 2);
}

#[test]
fn refresh_prunes_what_it_does_not_observe() {
    let mut client = client_with_outputs(&[3, 4, 5]);
    let refresh = client.refresh_outputs(&vec![output_global(4)], 2);
    assert!(refresh.changed);
    assert_eq!(refresh.bound, vec![OutputBinding { id: 4, version: 4, created: false }]);
    assert_eq!(client.output_ids(), vec![4]);
    let refresh = client.refresh_outputs(&vec![], 3);
    assert!(refresh.changed);
    assert!(refresh.bound.is_empty());
    assert!(client.output_ids().is_empty());
    let refresh = client.refresh_outputs(&vec![], 4);
    assert!(!refresh.changed);
}

#[test]
fn refresh_swaps_one_output_for_another() {
    let mut client = client_with_outputs(&[3]);
    let refresh = client.refresh_outputs(&vec![output_global(9)], 2);
    assert!(refresh.changed);
    assert_eq!(refresh.bound, vec![OutputBinding { id: 9, version: 4, created: true }]);
    assert_eq!(client.output_ids(), vec![9]);
}

#[test]
fn refresh_prunes_a_carrier_of_its_stamp() {
    let mut client = client_with_outputs(&[3, 4]);
    let refresh = client.refresh_outputs(&vec![output_global(4)], 1);
    assert!(refresh.changed);
    assert_eq!(refresh.bound, vec![OutputBinding { id: 4, version: 4, created: false }]);
    assert_eq!(client.output_ids(), vec![4]);
    assert_eq!(client.output(4).unwrap().updated, 1);

    let mut client = client_with_outputs(&[3]);
    let refresh = client.refresh_outputs(&vec![], 1);
    assert!(refresh.changed);
    assert!(client.output_ids().is_empty());

    let mut client = WlxClient::new(false, false);
    client.refresh_outputs(&vec![output_global(5), output_global(6)], u64::MAX);
    let refresh = client.refresh_outputs(&vec![output_global(6)], u64::MAX);
    assert!(refresh.changed);
    assert_eq!(client.output_ids(), vec![6]);
    assert_eq!(client.output(6).unwrap().updated, u64::MAX);
}

#[test]
fn refresh_applies_the_announced_geometry_as_a_whole() {
    let mut client = client_with_outputs(&[3, 4]);
    client.wl_output_event(3, WlOutputEvent::Mode { width: 1920, height: 1080 });
    client.wl_output_event(3, WlOutputEvent::Geometry { model: "A".to_string(), transform: 0 });
    place(&mut client, 3, (0, 0), (1920, 1080));
    place(&mut client, 4, (1920, 0), (800, 600));

    client.xdg_output_event(3, XdgOutputEvent::LogicalPosition { x: 3000, y: 40 });
    client.xdg_output_event(3, XdgOutputEvent::LogicalSize { width: -1280, height: 720 });
    client.wl_output_event(3, WlOutputEvent::Mode { width: 2560, height: 1440 });
    client.wl_output_event(3, WlOutputEvent::Geometry { model: "B".to_string(), transform: 1 });
    let output = client.output(3).unwrap();
    assert!(output.dirty);
    assert_eq!(output.logical_pos, (0, 0));
    assert_eq!(output.logical_size, (1920, 1080));
    assert_eq!(output.size, (1920, 1080));
    assert_eq!(output.transform, Transform::Normal);
    assert_eq!(output.model, "A");
    assert_eq!(output.announced.logical_pos, Some((3000, 40)));
    assert_eq!(output.announced.logical_size, Some((-1280, 720)));
    assert_eq!(output.announced.size, Some((2560, 1440)));
    assert_eq!(output.announced.transform, Some(Transform::_90));
    assert_eq!(output.announced.model.as_deref(), Some("B"));
    assert_eq!(client.get_desktop_extent(), (2720, 1080));

    assert!(client.is_dirty());
    let refresh = client.refresh_if_dirty(&vec![output_global(3), output_global(4)], 2);
    assert!(!refresh.changed);
    assert!(!client.is_dirty());
    let output = client.output(3).unwrap();
    assert!(!output.dirty);
    assert!(output.done);
    assert_eq!(output.logical_pos, (1720, 40));
    assert_eq!(output.logical_size, (1280, 720));
    assert_eq!(output.size, (2560, 1440));
    assert_eq!(output.transform, Transform::_90);
    assert_eq!(output.model, "B");
    assert_eq!(output.announced.logical_pos, None);
    assert_eq!(output.announced.logical_size, None);
    assert_eq!(output.announced.size, None);
    assert_eq!(output.announced.transform, None);
    assert!(output.announced.model.is_none());
    assert_eq!(output.updated, 2);
    let other = client.output(4).unwrap();
    assert_eq!(other.logical_pos, (1920, 0));
    assert!(!other.dirty);
    assert_eq!(client.get_desktop_extent(), (3000, 760));
}

#[test]
fn refresh_applies_only_what_was_announced() {
    let mut client = client_with_outputs(&[3]);
    client.wl_output_event(3, WlOutputEvent::Mode { width: 1920, height: 1080 });
    place(&mut client, 3, (10, 20), (1920, 1080));
    client.xdg_output_event(3, XdgOutputEvent::LogicalPosition { x: 500, y: 600 });
    client.refresh_outputs(&vec![output_global(3)], 2);
    let output = client.output(3).unwrap();
    assert!(!output.dirty);
    assert_eq!(output.logical_pos, (500, 600));
    assert_eq!(output.logical_size, (1920, 1080));
    assert_eq!(output.size, (1920, 1080));

    client.xdg_output_event(3, XdgOutputEvent::LogicalPosition { x: 1, y: 2 });
    client.xdg_output_event(3, XdgOutputEvent::LogicalPosition { x: 7, y: 8 });
    client.refresh_outputs(&vec![output_global(3), output_global(3)], 3);
    assert_eq!(client.output(3).unwrap().logical_pos, (7, 8));
}

#[test]
fn a_mode_that_went_back_is_not_applied() {
    let mut client = client_with_outputs(&[3]);
    client.wl_output_event(3, WlOutputEvent::Mode { width: 1920, height: 1080 });
    client.wl_output_event(3, WlOutputEvent::Geometry { model: "A".to_string(), transform: 2 });
    place(&mut client, 3, (0, 0), (1920, 1080));
    client.wl_output_event(3, WlOutputEvent::Mode { width: 800, height: 600 });
    client.wl_output_event(3, WlOutputEvent::Geometry { model: "B".to_string(), transform: 3 });
    client.wl_output_event(3, WlOutputEvent::Mode { width: 1920, height: 1080 });
    client.wl_output_event(3, WlOutputEvent::Geometry { model: "C".to_string(), transform: 2 });
    let output = client.output(3).unwrap();
    assert!(output.dirty);
    assert_eq!(output.announced.size, None);
    assert_eq!(output.announced.transform, None);
    assert_eq!(output.model, "C");
    client.refresh_outputs(&vec![output_global(3)], 2);
    let output = client.output(3).unwrap();
    assert!(!output.dirty);
    assert_eq!(output.size, (1920, 1080));
    assert_eq!(output.transform, Transform::_180);
    assert_eq!(output.model, "C");
}

#[test]
fn a_removed_output_that_is_listed_again_is_not_dirty_after_the_pass() {
    let mut client = client_with_outputs(&[3]);
    place(&mut client, 3, (5, 6), (70, 80));
    client.registry_event(RegistryEvent::GlobalRemove { name: 3 });
    assert!(client.output(3).unwrap().dirty);
    client.refresh_if_dirty(&vec![output_global(3)], 2);
    let output = client.output(3).unwrap();
    assert!(!output.dirty);
    assert_eq!(output.logical_pos, (5, 6));
    assert_eq!(output.logical_size, (70, 80));
}

#[test]
fn announced_geometry_is_put_in_place_by_hand() {
    let mut client = client_with_outputs(&[3]);
    place(&mut client, 3, (0, 0), (10, 10));
    let mut output = client.output(3).unwrap();
    output.announced = Announced {
        logical_pos: Some((100, 100)),
        logical_size: Some((-30, 40)),
        size: Some((3, 4)),
        model: Some("M".to_string()),
        transform: Some(Transform::Flipped),
    };
    output.dirty = true;
    let copy = output.announced.duplicate();
    assert_eq!(copy.model.as_deref(), Some("M"));
    output.apply_announced();
    assert_eq!(output.logical_pos, (70, 100));
    assert_eq!(output.logical_size, (30, 40));
    assert_eq!(output.size, (3, 4));
    assert_eq!(output.model, "M");
    assert_eq!(output.transform, Transform::Flipped);
    assert!(!output.dirty);
    assert!(Announced::none().logical_pos.is_none());
}

#[test]
fn events_reach_the_registry_through_one_entry() {
    let mut client = client_with_outputs(&[3]);
    client.event(ClientEvent::XdgOutput {
        id: 3,
        xdg: XdgOutputEvent::LogicalPosition { x: 50, y: 7 },
    });
    client.event(ClientEvent::XdgOutput {
        id: 3,
        xdg: XdgOutputEvent::LogicalSize { width: -100, height: 30 },
    });
    client.event(ClientEvent::WlOutput { id: 3, output: WlOutputEvent::Mode { width: 8, height: 9 } });
    let output = client.output(3).unwrap();
    assert_eq!(output.logical_pos, (-50, 7));
    assert_eq!(output.logical_size, (100, 30));
    assert!(output.done);
    assert!(output.dirty);
    assert_eq!(output.size, (0, 0));
    assert_eq!(output.announced.size, Some((8, 9)));
    assert!(client.is_dirty());
    let mut client = client_with_outputs(&[3]);
    client.event(ClientEvent::Registry {
        registry: RegistryEvent::Global { name: 4, interface: "wl_output".to_string() },
    });
    assert!(client.is_dirty());
}

#[test]
fn refresh_binds_a_repeated_global_twice_and_creates_it_once() {
    let mut client = WlxClient::new(false, false);
    let refresh = client.refresh_outputs(&vec![output_global(6), output_global(6)], 1);
    assert!(refresh.changed);
    assert_eq!(
        refresh.bound,
        vec![
            OutputBinding { id: 6, version: 4, created: true },
            OutputBinding { id: 6, version: 4, created: false },
        ]
    );
    assert_eq!(client.output_ids(), vec![6]);
}

#[test]
fn refresh_passes_over_the_name_the_table_cannot_hold() {
    let mut client = WlxClient::new(false, false);
    let refresh = client.refresh_outputs(&vec![output_global(u32::MAX), output_global(8)], 1);
    assert!(refresh.changed);
    assert_eq!(refresh.bound, vec![OutputBinding { id: 8, version: 4, created: true }]);
    assert_eq!(client.output_ids(), vec![8]);
    client.xdg_output_event(u32::MAX, XdgOutputEvent::Name { name: "x".to_string() });
    client.registry_event(RegistryEvent::GlobalRemove { name: u32::MAX });
    assert!(!client.is_dirty());
}

#[test]
fn refresh_if_dirty_refreshes_once() {
    let mut client = client_with_outputs(&[3]);
    let globals = vec![output_global(3), output_global(4)];
    let refresh = client.refresh_if_dirty(&globals, 2);
    assert!(!refresh.changed);
    assert!(refresh.bound.is_empty());
    assert_eq!(client.output_ids(), vec![3]);

    client.registry_event(RegistryEvent::Global { name: 4, interface: "wl_output".to_string() });
    assert!(client.is_dirty());
    let refresh = client.refresh_if_dirty(&globals, 3);
    assert!(refresh.changed);
    assert_eq!(refresh.bound.len(), 2);
    assert!(!client.is_dirty());
    assert_eq!(sorted(client.output_ids()), vec![3, 4]);

    client.registry_event(RegistryEvent::Global { name: 5, interface: "wl_output".to_string() });
    let refresh = client.refresh_if_dirty(&globals, 4);
    assert!(!refresh.changed);
    assert!(!client.is_dirty());
}

#[test]
fn only_an_output_global_marks_the_registry_dirty() {
    let mut client = client_with_outputs(&[3]);
    client.registry_event(RegistryEvent::Global { name: 9, interface: "wl_seat".to_string() });
    assert!(!client.is_dirty());
    client.registry_event(RegistryEvent::Global { name: 9, interface: "wl_outputs".to_string() });
    assert!(!client.is_dirty());
    client.registry_event(RegistryEvent::Global { name: 9, interface: String::new() });
    assert!(!client.is_dirty());
    client.registry_event(RegistryEvent::Other);
    assert!(!client.is_dirty());
    client.registry_event(RegistryEvent::Global { name: 9, interface: "wl_output".to_string() });
    assert!(client.is_dirty());
    assert_eq!(client.output_ids(), vec![3]);
}

#[test]
fn a_removed_output_is_marked_dirty() {
    let mut client = client_with_outputs(&[3, 4]);
    client.registry_event(RegistryEvent::GlobalRemove { name: 77 });
    assert!(!client.is_dirty());
    client.registry_event(RegistryEvent::GlobalRemove { name: 4 });
    assert!(client.is_dirty());
    assert!(client.output(4).unwrap().dirty);
    assert!(!client.output(3).unwrap().dirty);
    assert_eq!(sorted(client.output_ids()), vec![3, 4]);
}

#[test]
fn a_flipped_width_is_normalized_at_finalization() {
    let mut client = client_with_outputs(&[3]);
    place(&mut client, 3, (50, 20), (-100, 200));
    let output = client.output(3).unwrap();
    assert!(output.done);
    assert!(!output.dirty);
    assert_eq!(output.logical_pos, (-50, 20));
    assert_eq!(output.logical_size, (100, 200));
}

#[test]
fn a_flipped_height_is_normalized_at_finalization() {
    let mut client = client_with_outputs(&[3]);
    client.xdg_output_event(3, XdgOutputEvent::LogicalSize { width: 640, height: -480 });
    assert!(!client.output(3).unwrap().done);
    assert_eq!(client.output(3).unwrap().logical_size, (640, -480));
    client.xdg_output_event(3, XdgOutputEvent::LogicalPosition { x: 10, y: 500 });
    let output = client.output(3).unwrap();
    assert!(output.done);
    assert_eq!(output.logical_pos, (10, 20));
    assert_eq!(output.logical_size, (640, 480));
}

#[test]
fn normalization_wraps_at_the_limits_of_the_wire_values() {
    let mut client = client_with_outputs(&[3]);
    place(&mut client, 3, (i32::MIN, 0), (-1, i32::MIN));
    let output = client.output(3).unwrap();
    assert!(output.done);
    assert_eq!(output.logical_pos, (i32::MAX, i32::MIN));
    assert_eq!(output.logical_size, (1, i32::MIN));
}

#[test]
fn an_output_at_the_origin_is_finalized_once_both_halves_are_known() {
    let mut client = client_with_outputs(&[3]);
    client.xdg_output_event(3, XdgOutputEvent::LogicalPosition { x: 0, y: 0 });
    let output = client.output(3).unwrap();
    assert!(output.has_logical_pos);
    assert!(!output.has_logical_size);
    assert!(!output.done);
    client.xdg_output_event(3, XdgOutputEvent::LogicalPosition { x: 5, y: 6 });
    assert_eq!(client.output(3).unwrap().logical_pos, (5, 6));
    assert!(!client.output(3).unwrap().done);
    client.xdg_output_event(3, XdgOutputEvent::LogicalPosition { x: 0, y: 0 });
    client.xdg_output_event(3, XdgOutputEvent::LogicalSize { width: 1920, height: 1080 });
    let output = client.output(3).unwrap();
    assert!(output.done);
    assert_eq!(output.logical_pos, (0, 0));
    assert_eq!(output.logical_size, (1920, 1080));
    assert!(!client.is_dirty());
}

#[test]
fn geometry_after_finalization_only_sets_the_dirty_flags() {
    let mut client = client_with_outputs(&[3, 4]);
    place(&mut client, 3, (0, 0), (1920, 1080));
    client.xdg_output_event(3, XdgOutputEvent::LogicalPosition { x: 100, y: 100 });
    assert!(client.is_dirty());
    let output = client.output(3).unwrap();
    assert!(output.dirty);
    assert!(output.done);
    assert_eq!(output.logical_pos, (0, 0));
    assert!(!client.output(4).unwrap().dirty);

    let mut client = client_with_outputs(&[3]);
    place(&mut client, 3, (0, 0), (1920, 1080));
    client.xdg_output_event(3, XdgOutputEvent::LogicalSize { width: 1920, height: 1080 });
    assert!(client.is_dirty());
    assert!(client.output(3).unwrap().dirty);
    assert_eq!(client.output(3).unwrap().logical_size, (1920, 1080));
}

#[test]
fn a_name_is_taken_up_at_any_time() {
    let mut client = client_with_outputs(&[3]);
    client.xdg_output_event(3, XdgOutputEvent::Name { name: "HDMI-A-1".to_string() });
    assert_eq!(client.output(3).unwrap().name, "HDMI-A-1");
    assert_eq!(client.output(3).unwrap().model, "Unknown");
    place(&mut client, 3, (0, 0), (10, 10));
    client.xdg_output_event(3, XdgOutputEvent::Name { name: "eDP-1".to_string() });
    assert_eq!(client.output(3).unwrap().name, "eDP-1");
    assert!(!client.is_dirty());
    client.xdg_output_event(3, XdgOutputEvent::Other);
    client.xdg_output_event(99, XdgOutputEvent::Name { name: "none".to_string() });
    assert_eq!(client.output_ids(), vec![3]);
    assert!(!client.is_dirty());
}

#[test]
fn mode_and_geometry_fill_an_output_in() {
    let mut client = client_with_outputs(&[3]);
    client.wl_output_event(3, WlOutputEvent::Mode { width: 2560, height: 1440 });
    client.wl_output_event(3, WlOutputEvent::Geometry { model: "U2720Q".to_string(), transform: 1 });
    client.wl_output_event(3, WlOutputEvent::Other);
    client.wl_output_event(4, WlOutputEvent::Mode { width: 1, height: 1 });
    let output = client.output(3).unwrap();
    assert_eq!(output.size, (2560, 1440));
    assert_eq!(output.model, "U2720Q");
    assert_eq!(output.transform, Transform::_90);
    assert!(!output.dirty);
    assert!(!client.is_dirty());
    assert_eq!(client.output_ids(), vec![3]);
}

#[test]
fn a_changed_mode_after_finalization_marks_dirty() {
    let mut client = client_with_outputs(&[3]);
    client.wl_output_event(3, WlOutputEvent::Mode { width: 2560, height: 1440 });
    place(&mut client, 3, (0, 0), (2560, 1440));
    client.wl_output_event(3, WlOutputEvent::Mode { width: 2560, height: 1440 });
    assert!(!client.is_dirty());
    assert!(!client.output(3).unwrap().dirty);
    client.wl_output_event(3, WlOutputEvent::Mode { width: 1920, height: 1440 });
    assert!(client.is_dirty());
    let output = client.output(3).unwrap();
    assert!(output.dirty);
    assert_eq!(output.size, (2560, 1440));
}

#[test]
fn a_changed_transform_after_finalization_marks_dirty() {
    let mut client = client_with_outputs(&[3]);
    client.wl_output_event(3, WlOutputEvent::Geometry { model: "A".to_string(), transform: 3 });
    place(&mut client, 3, (0, 0), (10, 10));
    client.wl_output_event(3, WlOutputEvent::Geometry { model: "B".to_string(), transform: 3 });
    assert!(!client.is_dirty());
    assert_eq!(client.output(3).unwrap().model, "B");
    client.wl_output_event(3, WlOutputEvent::Geometry { model: "C".to_string(), transform: 99 });
    assert!(client.is_dirty());
    let output = client.output(3).unwrap();
    assert!(output.dirty);
    assert_eq!(output.model, "B");
    assert_eq!(output.transform, Transform::_270);
    assert_eq!(output.announced.transform, Some(Transform::Normal));
    assert_eq!(output.announced.model.as_deref(), Some("C"));
}

#[test]
fn the_extent_is_the_union_of_two_outputs() {
    let mut client = client_with_outputs(&[3, 4]);
    place(&mut client, 3, (0, 0), (1920, 1080));
    place(&mut client, 4, (1920, 200), (1280, 1024));
    assert_eq!(client.get_desktop_extent(), (3200, 1224));
}

#[test]
fn the_extent_is_never_negative() {
    let mut client = client_with_outputs(&[3]);
    place(&mut client, 3, (-3000, -2000), (1920, 1080));
    assert_eq!(client.get_desktop_extent(), (0, 0));
    let mut client = client_with_outputs(&[3, 4]);
    place(&mut client, 3, (-3000, 10), (1920, 1080));
    place(&mut client, 4, (-100, -5000), (300, 1080));
    assert_eq!(client.get_desktop_extent(), (200, 1090));
}

#[test]
fn the_extent_follows_a_refresh() {
    let mut client = client_with_outputs(&[3, 4]);
    place(&mut client, 3, (0, 0), (800, 600));
    place(&mut client, 4, (800, 0), (1024, 768));
    assert_eq!(client.get_desktop_extent(), (1824, 768));
    client.refresh_outputs(&vec![output_global(3)], 2);
    assert_eq!(client.get_desktop_extent(), (800, 600));
}

#[test]
fn a_copy_of_an_output_is_equal_to_it() {
    let mut client = client_with_outputs(&[3]);
    place(&mut client, 3, (1, 2), (3, 4));
    let output = client.output(3).unwrap();
    let copy = output.duplicate();
    assert_eq!(copy.id, output.id);
    assert_eq!(copy.name, output.name);
    assert_eq!(copy.logical_pos, (1, 2));
    assert_eq!(copy.logical_size, (3, 4));
    assert!(copy.seen_at(1));
    assert!(!copy.seen_at(2));
}

#[test]
fn finalize_brings_a_rectangle_into_canonical_form() {
    let mut client = client_with_outputs(&[3]);
    let mut output = client.output(3).unwrap();
    output.logical_pos = (100, 100);
    output.logical_size = (-30, -40);
    output.dirty = true;
    output.finalize();
    assert_eq!(output.logical_pos, (70, 60));
    assert_eq!(output.logical_size, (30, 40));
    assert!(output.done);
    assert!(!output.dirty);
    client.refresh_outputs(&vec![], 2);
}
