use basic_portals::stages::{ClipJob, SyncJob, CLIPPED_HALF_SPACE};
use basic_portals::world::{
    PortalEntry, PortalWorld, PrimaryCamera, SecondaryViewpoint, Setup, SetupError, SetupPlan,
};
use basic_portals::world::plan_setup;
use basic_portals::picking::portal_pointer_id;
use basic_portals::{
    CameraView, CullFace, EntityId, Extent, ImageId, PixelFormat, Portal, PortalCamera,
    PortalImage, RenderTarget, RenderTargetBuffer, ViewportSize, WindowRef, WindowSize,
};

fn e(bits: u64) -> EntityId {
    EntityId::from_bits(bits)
}

fn img(bits: u64) -> ImageId {
    ImageId { bits }
}

fn ext(width: u32, height: u32) -> Extent {
    Extent { width, height }
}

fn windows() -> ViewportSize {
    ViewportSize {
        primary_window: Some(ext(1280, 720)),
        windows: vec![
            WindowSize { window: e(50), size: ext(800, 600) },
            WindowSize { window: e(51), size: ext(1920, 1080) },
        ],
    }
}

fn primary(view: CameraView) -> Option<PrimaryCamera<&'static str>> {
    Some(PrimaryCamera { view, parameters: "filmic" })
}

const POSE: Option<(i32, i32, i32)> = Some((1, 2, 3));

fn window_camera() -> CameraView {
    CameraView { viewport: None, target: RenderTarget::Window(WindowRef::Primary), order: 0 }
}

/// A world with a linked portal on entity 1 (viewpoint 100, image 7) and an
/// inert portal on entity 2.
fn two_portals() -> PortalWorld {
    let mut world = PortalWorld::new();
    let linked = world.on_portal_created(
        e(1),
        Portal::new(e(10), e(20)),
        primary(window_camera()),
        &windows(),
        POSE,
        e(100),
        img(7),
    );
    assert!(linked.is_ok());
    let inert = world.on_portal_created(
        e(2),
        Portal::new(e(11), e(21)),
        None::<PrimaryCamera<&str>>,
        &windows(),
        POSE,
        e(101),
        img(8),
    );
    assert_eq!(inert, Err(SetupError::NoCamera));
    world
}

#[test]
fn new_portal_culls_back_and_is_unlinked() {
    let portal = Portal::new(e(3), e(4));
    assert_eq!(portal.primary_camera, e(3));
    assert_eq!(portal.target, e(4));
    assert_eq!(portal.cull_mode, Some(CullFace::Back));
    assert_eq!(portal.linked_camera, None);
    assert!(!portal.is_linked());
}

#[test]
fn with_cull_mode_changes_only_the_cull_mode() {
    let portal = Portal::new(e(3), e(4)).with_cull_mode(Some(CullFace::Front));
    assert_eq!(portal.cull_mode, Some(CullFace::Front));
    assert_eq!(portal.primary_camera, e(3));
    assert_eq!(portal.target, e(4));
    assert_eq!(portal.linked_camera, None);
    let both = portal.with_cull_mode(None);
    assert_eq!(both.cull_mode, None);
}

#[test]
fn entity_bits_round_trip() {
    assert_eq!(EntityId::from_bits(0xdead_beef_0000_0001).to_bits(), 0xdead_beef_0000_0001);
    assert_ne!(e(1), e(2));
}

#[test]
fn viewport_rectangle_wins_over_window() {
    let camera = CameraView {
        viewport: Some(ext(320, 200)),
        target: RenderTarget::Window(WindowRef::Primary),
        order: 0,
    };
    assert_eq!(windows().get_viewport_size(&camera), Some(ext(320, 200)));
}

#[test]
fn viewport_falls_back_to_primary_window() {
    assert_eq!(windows().get_viewport_size(&window_camera()), Some(ext(1280, 720)));
}

#[test]
fn viewport_falls_back_to_window_entity() {
    let camera = CameraView {
        viewport: None,
        target: RenderTarget::Window(WindowRef::Entity(e(51))),
        order: 0,
    };
    assert_eq!(windows().get_viewport_size(&camera), Some(ext(1920, 1080)));
    assert_eq!(windows().get_window_size(e(50)), Some(ext(800, 600)));
}

#[test]
fn viewport_of_unknown_window_is_none() {
    let camera = CameraView {
        viewport: None,
        target: RenderTarget::Window(WindowRef::Entity(e(99))),
        order: 0,
    };
    assert_eq!(windows().get_viewport_size(&camera), None);
}

#[test]
fn viewport_without_primary_window_is_none() {
    let sizes = ViewportSize { primary_window: None, windows: vec![] };
    assert_eq!(sizes.get_viewport_size(&window_camera()), None);
}

#[test]
fn viewport_of_image_or_texture_target_is_none() {
    let to_image = CameraView { viewport: None, target: RenderTarget::Image(img(1)), order: 0 };
    let to_view = CameraView { viewport: None, target: RenderTarget::TextureView, order: 0 };
    assert_eq!(windows().get_viewport_size(&to_image), None);
    assert_eq!(windows().get_viewport_size(&to_view), None);
}

#[test]
fn first_entry_of_a_window_counts() {
    let sizes = ViewportSize {
        primary_window: None,
        windows: vec![
            WindowSize { window: e(5), size: ext(10, 20) },
            WindowSize { window: e(5), size: ext(30, 40) },
        ],
    };
    assert_eq!(sizes.get_window_size(e(5)), Some(ext(10, 20)));
}

#[test]
fn plan_without_camera_fails() {
    assert_eq!(plan_setup(None, &windows(), true), Err(SetupError::NoCamera));
    assert_eq!(plan_setup(None, &windows(), false), Err(SetupError::NoCamera));
}

#[test]
fn plan_without_viewport_size_fails() {
    let camera = CameraView { viewport: None, target: RenderTarget::TextureView, order: 0 };
    assert_eq!(plan_setup(Some(&camera), &windows(), true), Err(SetupError::NoViewportSize));
    assert_eq!(plan_setup(Some(&camera), &windows(), false), Err(SetupError::NoViewportSize));
}

#[test]
fn plan_without_target_transform_fails() {
    assert_eq!(
        plan_setup(Some(&window_camera()), &windows(), false),
        Err(SetupError::NoTargetTransform)
    );
}

#[test]
fn plan_takes_viewport_size_and_draws_before_primary() {
    assert_eq!(
        plan_setup(Some(&window_camera()), &windows(), true),
        Ok(SetupPlan { size: ext(1280, 720), format: PixelFormat::Bgra8UnormSrgb, order: -1 })
    );
    let late = CameraView { viewport: Some(ext(4, 4)), target: RenderTarget::TextureView, order: 7 };
    assert_eq!(
        plan_setup(Some(&late), &windows(), true),
        Ok(SetupPlan { size: ext(4, 4), format: PixelFormat::Bgra8UnormSrgb, order: 6 })
    );
    let early = CameraView { order: -5, ..late };
    assert_eq!(plan_setup(Some(&early), &windows(), true).unwrap().order, -6);
}

#[test]
fn plan_order_saturates_at_the_lowest_priority() {
    let lowest = CameraView {
        viewport: Some(ext(4, 4)),
        target: RenderTarget::TextureView,
        order: isize::MIN,
    };
    assert_eq!(plan_setup(Some(&lowest), &windows(), true).unwrap().order, isize::MIN);
}

#[test]
fn created_portal_is_linked() {
    let mut world = PortalWorld::new();
    assert_eq!(world.len(), 0);
    let linked = world.on_portal_created(
        e(1),
        Portal::new(e(10), e(20)).with_cull_mode(None),
        primary(window_camera()),
        &windows(),
        POSE,
        e(100),
        img(7),
    );
    let viewpoint = SecondaryViewpoint {
        entity: e(100),
        owner: PortalCamera(e(1)),
        target: img(7),
        order: -1,
        pointer: portal_pointer_id(e(1)),
    };
    assert_eq!(
        linked,
        Ok(Setup {
            viewpoint,
            buffer: RenderTargetBuffer { size: ext(1280, 720), format: PixelFormat::Bgra8UnormSrgb },
            parameters: "filmic",
            pose: (1, 2, 3),
        })
    );
    assert_eq!(world.len(), 1);
    assert_eq!(
        world.get(e(1)),
        Some(PortalEntry {
            entity: e(1),
            portal: Portal {
                primary_camera: e(10),
                target: e(20),
                cull_mode: None,
                linked_camera: Some(e(100)),
            },
            image: Some(PortalImage(img(7))),
            viewpoint: Some(viewpoint),
        })
    );
    assert_eq!(
        world.image(img(7)),
        Some(RenderTargetBuffer { size: ext(1280, 720), format: PixelFormat::Bgra8UnormSrgb })
    );
    assert!(world.contains_portal(e(1)));
    assert!(!world.is_fresh_entity(e(1)));
    assert!(!world.is_fresh_entity(e(100)));
    assert!(!world.is_fresh_image(img(7)));
    assert!(world.is_fresh_entity(e(10)));
}

#[test]
fn failed_setup_leaves_portal_inert() {
    let mut world = PortalWorld::new();
    let outcome = world.on_portal_created(
        e(1),
        Portal::new(e(10), e(20)),
        primary(window_camera()),
        &windows(),
        None::<(i32, i32, i32)>,
        e(100),
        img(7),
    );
    assert_eq!(outcome, Err(SetupError::NoTargetTransform));
    assert_eq!(
        world.get(e(1)),
        Some(PortalEntry {
            entity: e(1),
            portal: Portal::new(e(10), e(20)),
            image: None,
            viewpoint: None,
        })
    );
    assert!(world.is_fresh_entity(e(100)));
    assert!(world.is_fresh_image(img(7)));
    assert!(world.sync_jobs(&vec![e(1), e(10), e(20)]).is_empty());
    assert!(world.frustum_jobs(&vec![e(1), e(10), e(20)]).is_empty());
    assert!(world.portal_images().is_empty());
}

#[test]
fn a_link_given_by_hand_is_not_kept() {
    let mut world = PortalWorld::new();
    let mut portal = Portal::new(e(10), e(20));
    portal.linked_camera = Some(e(77));
    let outcome = world.on_portal_created(
        e(1),
        portal,
        None::<PrimaryCamera<&str>>,
        &windows(),
        POSE,
        e(100),
        img(7),
    );
    assert_eq!(outcome, Err(SetupError::NoCamera));
    assert_eq!(world.get(e(1)).unwrap().portal.linked_camera, None);
}

#[test]
fn destroying_a_portal_removes_what_it_owns() {
    let mut world = two_portals();
    let removed = world.on_portal_destroyed(e(1));
    assert_eq!(removed.map(|v| (v.entity, v.target)), Some((e(100), img(7))));
    assert_eq!(world.len(), 1);
    assert_eq!(world.get(e(1)), None);
    assert!(!world.contains_portal(e(1)));
    assert_eq!(world.image(img(7)), None);
    assert!(world.is_fresh_entity(e(1)));
    assert!(world.is_fresh_entity(e(100)));
    assert!(world.is_fresh_image(img(7)));
    let posed = vec![e(1), e(2), e(10), e(11), e(20), e(21)];
    assert!(world.sync_jobs(&posed).is_empty());
    assert!(world.frustum_jobs(&posed).is_empty());
    assert!(world.portal_images().is_empty());
    world.resize(&vec![ext(64, 64)]);
    assert_eq!(world.image(img(7)), None);
    assert!(world.contains_portal(e(2)));
}

#[test]
fn destroying_an_unlinked_portal_removes_only_its_row() {
    let mut world = two_portals();
    assert_eq!(world.on_portal_destroyed(e(2)), None);
    assert_eq!(world.len(), 1);
    assert!(!world.contains_portal(e(2)));
    assert!(world.contains_portal(e(1)));
    assert!(world.image(img(7)).is_some());
}

#[test]
fn destroying_what_is_no_portal_changes_nothing() {
    let mut world = two_portals();
    assert_eq!(world.on_portal_destroyed(e(100)), None);
    assert_eq!(world.on_portal_destroyed(e(999)), None);
    assert_eq!(world.len(), 2);
    assert!(world.image(img(7)).is_some());
    assert!(!world.is_fresh_entity(e(100)));
}

#[test]
fn destroyed_ids_can_be_used_again() {
    let mut world = two_portals();
    world.on_portal_destroyed(e(1));
    let again = world.on_portal_created(
        e(1),
        Portal::new(e(10), e(20)),
        primary(window_camera()),
        &windows(),
        POSE,
        e(100),
        img(7),
    );
    assert!(again.is_ok());
    assert_eq!(world.entry(1).map(|entry| entry.entity), Some(e(1)));
    assert_eq!(world.entry(0).map(|entry| entry.entity), Some(e(2)));
    assert_eq!(world.entry(2), None);
}

#[test]
fn sync_needs_link_and_three_poses() {
    let world = two_portals();
    let job = SyncJob { portal: e(1), primary_camera: e(10), target: e(20), linked_camera: e(100) };
    assert_eq!(world.sync_jobs(&vec![e(20), e(1), e(10)]), vec![job]);
    assert_eq!(world.sync_jobs(&vec![e(1), e(20)]), vec![]);
    assert_eq!(world.sync_jobs(&vec![e(10), e(20)]), vec![]);
    assert_eq!(world.sync_jobs(&vec![e(1), e(10)]), vec![]);
    assert_eq!(world.sync_jobs(&vec![]), vec![]);
    assert_eq!(world.sync_jobs(&vec![e(2), e(11), e(21)]), vec![]);
}

#[test]
fn frustum_needs_link_and_target_pose() {
    let world = two_portals();
    assert_eq!(CLIPPED_HALF_SPACE, 4);
    let job = ClipJob { linked_camera: e(100), target: e(20), half_space: 4 };
    assert_eq!(world.frustum_jobs(&vec![e(20)]), vec![job]);
    assert_eq!(world.frustum_jobs(&vec![e(1), e(10), e(21)]), vec![]);
}

#[test]
fn jobs_come_in_table_order() {
    let mut world = two_portals();
    world
        .on_portal_created(
            e(3),
            Portal::new(e(10), e(22)),
            primary(window_camera()),
            &windows(),
            POSE,
            e(102),
            img(9),
        )
        .unwrap();
    let posed = vec![e(1), e(2), e(3), e(10), e(11), e(20), e(21), e(22)];
    let jobs = world.sync_jobs(&posed);
    assert_eq!(
        jobs.iter().map(|job| job.linked_camera).collect::<Vec<_>>(),
        vec![e(100), e(102)]
    );
    let clips = world.frustum_jobs(&posed);
    assert_eq!(clips.iter().map(|job| job.target).collect::<Vec<_>>(), vec![e(20), e(22)]);
    assert_eq!(world.portal_images(), vec![PortalImage(img(7)), PortalImage(img(9))]);
}

#[test]
fn world_resize_gives_every_target_the_last_size() {
    let mut world = two_portals();
    world
        .on_portal_created(
            e(3),
            Portal::new(e(10), e(22)),
            primary(window_camera()),
            &windows(),
            POSE,
            e(102),
            img(9),
        )
        .unwrap();
    world.resize(&vec![]);
    assert_eq!(world.image(img(7)).unwrap().size, ext(1280, 720));
    world.resize(&vec![ext(100, 50), ext(640, 480)]);
    assert_eq!(world.image(img(7)).unwrap().size, ext(640, 480));
    assert_eq!(world.image(img(9)).unwrap().size, ext(640, 480));
    assert_eq!(world.image(img(9)).unwrap().format, PixelFormat::Bgra8UnormSrgb);
    assert_eq!(world.len(), 3);
}

#[test]
fn setup_without_viewport_size_leaves_portal_inert() {
    let mut world = PortalWorld::new();
    let camera = CameraView { viewport: None, target: RenderTarget::TextureView, order: 3 };
    let outcome = world.on_portal_created(
        e(1),
        Portal::new(e(10), e(20)),
        primary(camera),
        &windows(),
        POSE,
        e(100),
        img(7),
    );
    assert_eq!(outcome, Err(SetupError::NoViewportSize));
    assert_eq!(world.get(e(1)).unwrap().viewpoint, None);
    assert!(world.is_fresh_image(img(7)));
}

#[test]
fn checked_creation_refuses_what_is_in_use() {
    let mut world = two_portals();
    let portal = Portal::new(e(10), e(20));
    // the portal's entity is taken, by a portal and by a viewpoint
    for entity in [e(1), e(2), e(100)] {
        let refused = world.try_on_portal_created(
            entity,
            portal,
            primary(window_camera()),
            &windows(),
            POSE,
            e(200),
            img(20),
        );
        assert_eq!(refused, None);
    }
    // the reserved entity is taken, or is the portal itself
    for spawned in [e(1), e(100), e(5)] {
        let refused = world.try_on_portal_created(
            e(5),
            portal,
            primary(window_camera()),
            &windows(),
            POSE,
            spawned,
            img(20),
        );
        assert_eq!(refused, None);
    }
    // the reserved image is taken
    let refused = world.try_on_portal_created(
        e(5),
        portal,
        primary(window_camera()),
        &windows(),
        POSE,
        e(200),
        img(7),
    );
    assert_eq!(refused, None);
    assert_eq!(world.len(), 2);
    assert!(world.is_fresh_entity(e(5)));
    assert!(world.is_fresh_image(img(20)));
}

#[test]
fn checked_creation_sets_up_what_is_free() {
    let mut world = two_portals();
    let made = world.try_on_portal_created(
        e(5),
        Portal::new(e(10), e(20)),
        primary(window_camera()),
        &windows(),
        POSE,
        e(200),
        img(20),
    );
    let setup = made.unwrap().unwrap();
    assert_eq!(setup.viewpoint.entity, e(200));
    assert_eq!(setup.viewpoint.owner, PortalCamera(e(5)));
    assert_eq!(setup.parameters, "filmic");
    assert_eq!(setup.pose, (1, 2, 3));
    assert_eq!(world.len(), 3);
    let failed = world.try_on_portal_created(
        e(6),
        Portal::new(e(10), e(20)),
        None::<PrimaryCamera<&str>>,
        &windows(),
        POSE,
        e(201),
        img(21),
    );
    assert_eq!(failed, Some(Err(SetupError::NoCamera)));
    assert_eq!(world.len(), 4);
    assert!(world.is_fresh_entity(e(201)));
}
