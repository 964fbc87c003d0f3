use embree4_rs::error::{check, device_outcome, ErrorKind, Failure, KernelError};
use embree4_rs::scene::{
    BuildQuality, CommittedScene, Hit, Ray, Scene, SceneOptions, INVALID_GEOMETRY_ID,
};
use embree4_rs::sphere::{SphereAction, SphereBuild, SphereEvent, SphereRecord, SphereStage};

const OK: KernelError = KernelError::Success;

fn start(x: f32, y: f32, z: f32, r: f32) -> SphereBuild {
    let (b, a) = SphereBuild::try_new(x.to_bits(), y.to_bits(), z.to_bits(), r.to_bits()).unwrap();
    assert_eq!(a, SphereAction::NewGeometry);
    b
}

fn committed_scene() -> CommittedScene {
    let mut s = Scene::try_new(SceneOptions::default(), true, OK).unwrap();
    assert_eq!(s.attach_geometry(0, OK), Ok(0));
    s.commit(OK).unwrap()
}

#[test]
fn check_passes_value_without_error() {
    assert_eq!(check(OK, ErrorKind::Commit), Ok(()));
}

#[test]
fn check_reports_kind_and_code() {
    assert_eq!(
        check(KernelError::OutOfMemory, ErrorKind::GeometryCommit),
        Err(Failure { kind: ErrorKind::GeometryCommit, code: KernelError::OutOfMemory })
    );
}

#[test]
fn error_codes_round_trip() {
    for c in 0u32..7 {
        assert_eq!(KernelError::from_code(c).code(), c);
    }
    assert_eq!(KernelError::from_code(3), KernelError::InvalidOperation);
    assert_eq!(KernelError::from_code(42), KernelError::Unknown);
}

#[test]
fn device_null_handle_is_initialization_error() {
    assert_eq!(device_outcome(true, OK), Ok(()));
    assert_eq!(
        device_outcome(false, KernelError::InvalidArgument),
        Err(Failure { kind: ErrorKind::Initialization, code: KernelError::InvalidArgument })
    );
}

#[test]
fn sphere_build_success_sequence() {
    let mut b = start(0.0, 0.0, 5.0, 1.0);
    assert_eq!(
        b.step(SphereEvent::GeometryCreated { created: true, code: OK }),
        SphereAction::NewVertexBuffer { stride: 16, count: 1 }
    );
    let rec = SphereRecord { x: 0, y: 0, z: 5.0f32.to_bits(), radius: 1.0f32.to_bits() };
    assert_eq!(
        b.step(SphereEvent::BufferCreated { created: true, code: OK }),
        SphereAction::WriteRecord(rec)
    );
    assert_eq!(b.step(SphereEvent::RecordWritten), SphereAction::CommitGeometry);
    assert_eq!(b.step(SphereEvent::GeometryCommitted { code: OK }), SphereAction::Finish);
    assert_eq!(b.stage(), SphereStage::Built);
}

#[test]
fn sphere_record_slots_in_order() {
    let rec = SphereRecord { x: 1.5f32.to_bits(), y: 2.5f32.to_bits(), z: 3.5f32.to_bits(), radius: 0.25f32.to_bits() };
    let s = rec.slots();
    assert_eq!(s.map(f32::from_bits), [1.5, 2.5, 3.5, 0.25]);
}

#[test]
fn sphere_null_geometry_fails_without_release() {
    let mut b = start(0.0, 0.0, 0.0, 1.0);
    assert_eq!(
        b.step(SphereEvent::GeometryCreated { created: false, code: KernelError::OutOfMemory }),
        SphereAction::Abort {
            failure: Failure { kind: ErrorKind::GeometryCreation, code: KernelError::OutOfMemory },
            release: false
        }
    );
    assert_eq!(b.stage(), SphereStage::Failed);
}

#[test]
fn sphere_null_buffer_releases_geometry() {
    let mut b = start(0.0, 0.0, 0.0, 1.0);
    b.step(SphereEvent::GeometryCreated { created: true, code: OK });
    assert_eq!(
        b.step(SphereEvent::BufferCreated { created: false, code: KernelError::OutOfMemory }),
        SphereAction::Abort {
            failure: Failure { kind: ErrorKind::BufferAllocation, code: KernelError::OutOfMemory },
            release: true
        }
    );
}

#[test]
fn sphere_buffer_error_code_alone_fails() {
    let mut b = start(0.0, 0.0, 0.0, 1.0);
    b.step(SphereEvent::GeometryCreated { created: true, code: OK });
    assert_eq!(
        b.step(SphereEvent::BufferCreated { created: true, code: KernelError::InvalidArgument }),
        SphereAction::Abort {
            failure: Failure { kind: ErrorKind::BufferAllocation, code: KernelError::InvalidArgument },
            release: true
        }
    );
}

#[test]
fn sphere_commit_error_releases_geometry() {
    let mut b = start(0.0, 0.0, 0.0, 1.0);
    b.step(SphereEvent::GeometryCreated { created: true, code: OK });
    b.step(SphereEvent::BufferCreated { created: true, code: OK });
    b.step(SphereEvent::RecordWritten);
    assert_eq!(
        b.step(SphereEvent::GeometryCommitted { code: KernelError::Unknown }),
        SphereAction::Abort {
            failure: Failure { kind: ErrorKind::GeometryCommit, code: KernelError::Unknown },
            release: true
        }
    );
    assert_eq!(b.stage(), SphereStage::Failed);
}

#[test]
fn sphere_radius_zero_and_negative_rejected() {
    let refused = Err(Failure { kind: ErrorKind::InvalidRadius, code: OK });
    for r in [0.0f32, -0.0, -1.0, f32::NAN, f32::NEG_INFINITY] {
        let got = SphereBuild::try_new(0, 0, 0, r.to_bits()).map(|(b, _)| b.record());
        assert_eq!(got, refused);
    }
    assert!(SphereBuild::try_new(0, 0, 0, f32::MIN_POSITIVE.to_bits()).is_ok());
    assert!(SphereBuild::try_new(0, 0, 0, f32::INFINITY.to_bits()).is_ok());
}

#[test]
fn repeated_builds_balance_handles() {
    let mut acquired = 0u32;
    let mut released = 0u32;
    let mut built = 0u32;
    for i in 0u32..10_000 {
        let fail_at = i % 5;
        let mut b = start(i as f32, 0.0, 0.0, 1.0);
        let events = [
            SphereEvent::GeometryCreated { created: fail_at != 1, code: OK },
            SphereEvent::BufferCreated { created: fail_at != 2, code: OK },
            SphereEvent::RecordWritten,
            SphereEvent::GeometryCommitted {
                code: if fail_at == 3 { KernelError::Cancelled } else { OK },
            },
        ];
        for ev in events {
            if let SphereEvent::GeometryCreated { created: true, .. } = ev {
                acquired += 1;
            }
            match b.step(ev) {
                SphereAction::Abort { release, .. } => {
                    if release {
                        released += 1;
                    }
                    break;
                }
                SphereAction::Finish => {
                    built += 1;
                }
                _ => {}
            }
        }
    }
    assert_eq!(built, 4_000);
    assert_eq!(acquired, 8_000);
    assert_eq!(released, 4_000);
    assert_eq!(acquired, released + built);
}

#[test]
fn scene_options_default_matches_kernel() {
    let o = SceneOptions::default();
    assert_eq!(o.quality, BuildQuality::Medium);
    assert_eq!(o.quality.code(), 1);
    assert_eq!(o.flags(), 0);
}

#[test]
fn scene_options_flag_bits() {
    let o = SceneOptions { compact: true, robust: true, ..SceneOptions::default() };
    assert_eq!(o.flags(), 6);
    let all = SceneOptions {
        quality: BuildQuality::High,
        dynamic: true,
        compact: true,
        robust: true,
        filter_function_in_arguments: true,
    };
    assert_eq!(all.flags(), 15);
    assert_eq!(BuildQuality::Refit.code(), 3);
}

#[test]
fn ray_defaults() {
    let r = Ray::new(0, 0, 0, 0, 0, 1.0f32.to_bits());
    assert_eq!(r.tnear, 0);
    assert_eq!(f32::from_bits(r.tfar), f32::INFINITY);
    assert_eq!(r.mask, u32::MAX);
    assert_eq!((r.time, r.id, r.flags), (0, 0, 0));
    assert_eq!(f32::from_bits(r.dir_z), 1.0);
}

#[test]
fn scene_creation_failure() {
    let e = Scene::try_new(SceneOptions::default(), false, KernelError::OutOfMemory);
    assert!(matches!(
        e,
        Err(Failure { kind: ErrorKind::SceneCreation, code: KernelError::OutOfMemory })
    ));
}

#[test]
fn scene_attach_records_ids() {
    let mut s = Scene::try_new(SceneOptions::default(), true, OK).unwrap();
    assert_eq!(s.attach_geometry(0, OK), Ok(0));
    assert_eq!(s.attach_geometry(1, OK), Ok(1));
    assert_eq!(
        s.attach_geometry(INVALID_GEOMETRY_ID, KernelError::InvalidOperation),
        Err(Failure { kind: ErrorKind::Attach, code: KernelError::InvalidOperation })
    );
    let c = s.commit(OK).unwrap();
    assert_eq!(c.attached(), &vec![0, 1]);
    assert_eq!(c.options(), SceneOptions::default());
}

#[test]
fn scene_commit_failure() {
    let s = Scene::try_new(SceneOptions::default(), true, OK).unwrap();
    assert!(matches!(
        s.commit(KernelError::Cancelled),
        Err(Failure { kind: ErrorKind::Commit, code: KernelError::Cancelled })
    ));
}

#[test]
fn sphere_on_axis_hit_at_four() {
    let c = committed_scene();
    let hit = c.intersect_1(OK, 0, 0, 4.0f32.to_bits()).unwrap().unwrap();
    assert_eq!(hit, Hit { distance: 4.0f32.to_bits(), geom_id: 0, prim_id: 0 });
    assert_eq!(f32::from_bits(hit.distance), 4.0);
}

#[test]
fn sphere_off_axis_miss() {
    let c = committed_scene();
    assert_eq!(c.intersect_1(OK, INVALID_GEOMETRY_ID, 0, f32::INFINITY.to_bits()), Ok(None));
}

#[test]
fn query_error_is_not_a_miss() {
    let c = committed_scene();
    assert_eq!(
        c.intersect_1(KernelError::InvalidArgument, INVALID_GEOMETRY_ID, 0, 0),
        Err(Failure { kind: ErrorKind::Query, code: KernelError::InvalidArgument })
    );
}
