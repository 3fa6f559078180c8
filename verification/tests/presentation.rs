use sosd::AccessError;
use sosd::Buffer;
use sosd::HandleKind;
use sosd::InitError;
use sosd::Plan;
use sosd::PresentError;
use sosd::Rect;
use sosd::ResizeError;
use sosd::WaylandImpl;
use sosd::WaylandPlan;
use sosd::WaylandResizeAction;
use sosd::X11DisplayImpl;
use sosd::X11Plan;
use sosd::X11ResizeAction;

fn shm_backend() -> X11DisplayImpl {
    X11DisplayImpl::new(
        HandleKind::Xcb,
        7,
        HandleKind::Xcb,
        true,
        0x21,
        &vec![0x21, 0x22],
        24,
    )
    .unwrap()
}

fn wire_backend() -> X11DisplayImpl {
    X11DisplayImpl::new(
        HandleKind::Xlib,
        7,
        HandleKind::Xlib,
        false,
        0x21,
        &vec![0x21],
        24,
    )
    .unwrap()
}

fn wayland_backend() -> WaylandImpl {
    WaylandImpl::new(HandleKind::Wayland, HandleKind::Wayland, 5).unwrap()
}

#[test]
fn resize_gives_exact_pixel_count() {
    for mut b in [
        Buffer::X11(shm_backend()),
        Buffer::X11(wire_backend()),
        Buffer::Wayland(wayland_backend()),
    ] {
        b.resize(600, 80).unwrap();
        let buf = b.buffer_mut().unwrap();
        assert_eq!(buf.len(), 600 * 80);
    }
}

#[test]
fn segment_growth_is_monotonic() {
    let mut b = shm_backend();
    b.resize(600, 80).unwrap();
    let c1 = b.capacity();
    assert_eq!(c1, 262144); // next power of two above 600*80*4
    assert_eq!(b.segments_created(), 1);

    // Shrinking does not reallocate or release capacity.
    b.resize(10, 10).unwrap();
    assert_eq!(b.capacity(), c1);
    assert_eq!(b.segments_created(), 1);

    // Growing again within the kept capacity still does not reallocate.
    b.resize(80, 600).unwrap();
    assert_eq!(b.capacity(), c1);
    assert_eq!(b.segments_created(), 1);

    // Only a request above the kept capacity allocates, and only upward.
    let action = b.resize(1000, 1000).unwrap();
    assert_eq!(
        action,
        X11ResizeAction::SegmentAllocated {
            size: 4194304,
            detach_old: true
        }
    );
    assert_eq!(b.capacity(), 4194304);
    assert_eq!(b.segments_created(), 2);
    assert_eq!(b.segments_detached(), 1);
}

#[test]
fn pool_growth_is_monotonic() {
    let mut b = wayland_backend();
    assert_eq!(
        b.resize(600, 80).unwrap(),
        WaylandResizeAction::CreatePool {
            pool_size: 262144,
            width: 600,
            height: 80
        }
    );
    assert_eq!(b.capacity(), 262144);
    b.resize(10, 10).unwrap();
    assert_eq!(b.capacity(), 262144);
    assert_eq!(b.pool_growth_count(), 0);
    let action = b.resize(1000, 1000).unwrap();
    assert_eq!(
        action,
        WaylandResizeAction::RecreateBuffer {
            grow_pool_to: Some(4194304),
            width: 1000,
            height: 1000
        }
    );
    assert_eq!(b.capacity(), 4194304);
    assert_eq!(b.pool_growth_count(), 1);
}

#[test]
fn out_of_bounds_damage_is_rejected() {
    let mut b = Buffer::X11(shm_backend());
    b.resize(600, 80).unwrap();

    // Within bounds: accepted.
    let ok = vec![Rect {
        x: 0,
        y: 0,
        width: 600,
        height: 80,
    }];
    assert!(b.present_with_damage(&ok).is_ok());
    b.confirm_completion();

    // x + width exceeds the negotiated width: rejected, never clipped.
    let wide = vec![Rect {
        x: 590,
        y: 0,
        width: 20,
        height: 10,
    }];
    assert_eq!(
        b.present_with_damage(&wide).unwrap_err(),
        PresentError::DamageOutOfRange
    );

    // y + height exceeds the negotiated height: rejected.
    let tall = vec![Rect {
        x: 0,
        y: 70,
        width: 10,
        height: 20,
    }];
    assert_eq!(
        b.present_with_damage(&tall).unwrap_err(),
        PresentError::DamageOutOfRange
    );

    // Empty rectangles are rejected too.
    let empty = vec![Rect {
        x: 0,
        y: 0,
        width: 0,
        height: 10,
    }];
    assert_eq!(
        b.present_with_damage(&empty).unwrap_err(),
        PresentError::DamageOutOfRange
    );

    // A rejected call leaves the frame presentable: a valid one still works.
    assert!(b.present_with_damage(&ok).is_ok());
}

#[test]
fn wayland_rejects_out_of_bounds_damage() {
    let mut b = wayland_backend();
    b.resize(600, 80).unwrap();
    let bad = vec![
        Rect {
            x: 0,
            y: 0,
            width: 600,
            height: 80,
        },
        Rect {
            x: 599,
            y: 79,
            width: 2,
            height: 1,
        },
    ];
    assert_eq!(
        b.present_with_damage(&bad).unwrap_err(),
        PresentError::DamageOutOfRange
    );
}

#[test]
fn failed_probe_falls_back_to_wire_transfers() {
    // Construction succeeds even though the shared-memory probe failed.
    let mut b = wire_backend();
    assert!(b.mode_is_wire());
    b.resize(600, 80).unwrap();

    // Every subsequent presentation uses the whole-buffer transfer path.
    for _ in 0..3 {
        match b.present().unwrap() {
            X11Plan::Wire {
                width,
                height,
                depth,
            } => {
                assert_eq!((width, height, depth), (600, 80, 24));
            }
            X11Plan::Shm { .. } => panic!("wire backend must never plan a shared-memory draw"),
        }
        // The wire path never defers completion, so the buffer stays
        // accessible without any handshake.
        assert!(b.buffer_mut().is_ok());
        assert_eq!(b.pending_marker(), None);
    }
}

#[test]
fn buffer_access_waits_for_completion() {
    let mut b = shm_backend();
    b.resize(600, 80).unwrap();
    assert!(b.buffer_mut().is_ok());

    let plan = b.present().unwrap();
    match plan {
        X11Plan::Shm { puts } => assert_eq!(puts.len(), 1),
        X11Plan::Wire { .. } => panic!("shared-memory backend must not fall back to wire"),
    }

    // The submission is outstanding: access is barred until the marker is
    // cleared, exactly as the fake-server handshake would enforce.
    assert_eq!(b.buffer_mut().unwrap_err(), AccessError::AwaitingCompletion);
    b.note_submitted(42);
    assert_eq!(b.pending_marker(), Some(42));
    assert_eq!(b.buffer_mut().unwrap_err(), AccessError::AwaitingCompletion);

    // The reply to request 42 arrives; access is possible again.
    b.confirm_completion();
    assert_eq!(b.pending_marker(), None);
    assert!(b.buffer_mut().is_ok());
}

#[test]
fn orientation_swap_keeps_pixels_and_segment() {
    let mut b = Buffer::X11(shm_backend());
    b.resize(600, 80).unwrap();
    {
        let buf = b.buffer_mut().unwrap();
        assert_eq!(buf.len(), 48000);
        for p in buf.iter_mut() {
            *p = 0xff336699;
        }
    }
    assert!(b.present().is_ok());
    b.confirm_completion();

    // Orientation swap: same byte size, so no reallocation happens.
    b.resize(80, 600).unwrap();
    let buf = b.buffer_mut().unwrap();
    assert_eq!(buf.len(), 48000);
    match &b {
        Buffer::X11(x) => {
            assert_eq!(x.segments_created(), 1);
            assert_eq!(x.segments_detached(), 0);
        }
        Buffer::Wayland(_) => unreachable!(),
    }
}

#[test]
fn orientation_swap_on_wayland_keeps_pool() {
    let mut b = wayland_backend();
    b.resize(600, 80).unwrap();
    {
        let buf = b.buffer_mut().unwrap();
        for p in buf.iter_mut() {
            *p = 0xffffffff;
        }
    }
    assert!(b.present().is_ok());
    assert!(!b.is_released());
    b.mark_released();
    assert!(b.is_released());
    match b.resize(80, 600).unwrap() {
        WaylandResizeAction::RecreateBuffer {
            grow_pool_to,
            width,
            height,
        } => {
            assert_eq!(grow_pool_to, None);
            assert_eq!((width, height), (80, 600));
        }
        other => panic!("unexpected action {other:?}"),
    }
    assert_eq!(b.buffer_mut().unwrap().len(), 48000);
    assert_eq!(b.pool_growth_count(), 0);
}

#[test]
fn overlapping_damage_is_forwarded_in_order() {
    let first = Rect {
        x: 0,
        y: 0,
        width: 40,
        height: 40,
    };
    let second = Rect {
        x: 20,
        y: 20,
        width: 40,
        height: 40,
    };
    let damage = vec![first, second];

    let mut x = shm_backend();
    x.resize(600, 80).unwrap();
    match x.present_with_damage(&damage).unwrap() {
        X11Plan::Shm { puts } => {
            assert_eq!(puts.len(), 2);
            assert_eq!((puts[0].src_x, puts[0].src_y), (0, 0));
            assert_eq!((puts[1].src_x, puts[1].src_y), (20, 20));
            assert_eq!((puts[0].width, puts[0].height), (40, 40));
            assert_eq!((puts[1].width, puts[1].height), (40, 40));
        }
        X11Plan::Wire { .. } => panic!("expected the shared-memory plan"),
    }

    let mut w = wayland_backend();
    w.resize(600, 80).unwrap();
    match w.present_with_damage(&damage).unwrap() {
        WaylandPlan::DamageRects(boxes) => {
            assert_eq!(boxes.len(), 2);
            assert_eq!((boxes[0].x, boxes[0].y), (0, 0));
            assert_eq!((boxes[1].x, boxes[1].y), (20, 20));
        }
        WaylandPlan::DamageFull => panic!("expected per-region damage"),
    }
}

#[test]
fn old_surfaces_damage_the_whole_surface() {
    let mut w = WaylandImpl::new(HandleKind::Wayland, HandleKind::Wayland, 3).unwrap();
    w.resize(100, 100).unwrap();
    let damage = vec![Rect {
        x: 1,
        y: 1,
        width: 2,
        height: 2,
    }];
    match w.present_with_damage(&damage).unwrap() {
        WaylandPlan::DamageFull => {}
        WaylandPlan::DamageRects(_) => panic!("a version-3 surface cannot damage per region"),
    }
}

#[test]
fn construction_validates_handles_and_visuals() {
    assert_eq!(
        X11DisplayImpl::new(HandleKind::Wayland, 7, HandleKind::Xcb, true, 1, &vec![1], 24)
            .unwrap_err(),
        InitError::UnsupportedHandle
    );
    assert_eq!(
        X11DisplayImpl::new(HandleKind::Xcb, 0, HandleKind::Xcb, true, 1, &vec![1], 24)
            .unwrap_err(),
        InitError::UnsupportedHandle
    );
    assert_eq!(
        X11DisplayImpl::new(HandleKind::Xcb, 7, HandleKind::Xcb, true, 9, &vec![1, 2], 24)
            .unwrap_err(),
        InitError::UnsupportedVisual
    );
    assert_eq!(
        WaylandImpl::new(HandleKind::Xcb, HandleKind::Wayland, 4).unwrap_err(),
        InitError::UnsupportedHandle
    );
}

#[test]
fn oversized_dimensions_are_rejected() {
    let mut x = shm_backend();
    assert_eq!(
        x.resize(70000, 10).unwrap_err(),
        ResizeError::DimensionsTooLarge
    );
    assert_eq!(
        x.resize(10, 70000).unwrap_err(),
        ResizeError::DimensionsTooLarge
    );

    let mut w = wayland_backend();
    assert_eq!(
        w.resize(40000, 40000).unwrap_err(),
        ResizeError::DimensionsTooLarge
    );
}

#[test]
fn unchanged_resize_does_nothing() {
    let mut b = shm_backend();
    b.resize(300, 200).unwrap();
    assert_eq!(b.resize(300, 200).unwrap(), X11ResizeAction::Unchanged);
    assert_eq!(b.segments_created(), 1);
}

#[test]
fn access_before_resize_is_an_error() {
    let mut x = Buffer::X11(shm_backend());
    assert_eq!(x.buffer_mut().unwrap_err(), AccessError::NotResized);
    let mut w = Buffer::Wayland(wayland_backend());
    assert_eq!(w.buffer_mut().unwrap_err(), AccessError::NotResized);
}

#[test]
fn facade_dispatches_to_the_selected_backend() {
    let mut b = Buffer::Wayland(wayland_backend());
    b.resize(600, 80).unwrap();
    match b.present().unwrap() {
        Plan::Wayland(_) => {}
        Plan::X11(_) => panic!("a compositor buffer must plan compositor requests"),
    }
    let mut b = Buffer::X11(wire_backend());
    b.resize(600, 80).unwrap();
    match b.present().unwrap() {
        Plan::X11(_) => {}
        Plan::Wayland(_) => panic!("a display-server buffer must plan display-server requests"),
    }
}
