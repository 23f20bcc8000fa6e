use mirror_orbit::integrator::{Action, BuildError, Builder, Phase};
use mirror_orbit::trajectory::IndexError;
use mirror_orbit::MAX_HALVINGS;

#[test]
fn zero_steps_is_accepted_at_once() {
    let b: Builder<u64> = Builder::new(7, 0, MAX_HALVINGS);
    assert_eq!(b.phase(), Phase::Accepted);
    assert!(!b.is_building());
    let t = b.finish().unwrap();
    assert_eq!(t.len(), 1);
    assert_eq!(t.at(0), Ok(&7));
    assert_eq!(t.halvings(), 0);
}

#[test]
fn stable_steps_fill_the_trajectory() {
    let mut b: Builder<u64> = Builder::new(10, 3, MAX_HALVINGS);
    assert_eq!(*b.current(), 10);
    assert_eq!(b.offer(11, true), Action::Advance);
    assert_eq!(*b.current(), 11);
    assert_eq!(b.offer(12, true), Action::Advance);
    assert_eq!(b.offer(13, true), Action::Finished);
    assert_eq!(b.phase(), Phase::Accepted);
    let t = b.finish().unwrap();
    assert_eq!(t.len(), 4);
    for i in 0..4usize {
        assert_eq!(t.at(i), Ok(&(10 + i as u64)));
    }
}

#[test]
fn index_past_the_end_is_an_error() {
    let mut b: Builder<u64> = Builder::new(0, 1, MAX_HALVINGS);
    assert_eq!(b.offer(1, true), Action::Finished);
    let t = b.finish().unwrap();
    assert_eq!(t.len(), 2);
    assert_eq!(t.at(2), Err(IndexError::OutOfRange { index: 2, len: 2 }));
    assert_eq!(t.at(usize::MAX), Err(IndexError::OutOfRange { index: usize::MAX, len: 2 }));
}

#[test]
fn unstable_step_restarts_from_the_initial_state() {
    let mut b: Builder<u64> = Builder::new(100, 2, MAX_HALVINGS);
    assert_eq!(b.offer(101, true), Action::Advance);
    assert_eq!(b.offer(102, false), Action::Restart { halvings: 1 });
    assert_eq!(*b.current(), 100);
    assert_eq!(b.halvings(), 1);
    assert_eq!(b.offer(201, false), Action::Restart { halvings: 2 });
    assert_eq!(b.offer(301, true), Action::Advance);
    assert_eq!(b.offer(302, true), Action::Finished);
    let t = b.finish().unwrap();
    assert_eq!(t.halvings(), 2);
    assert_eq!(t.len(), 3);
    assert_eq!(t.at(0), Ok(&100));
    assert_eq!(t.at(1), Ok(&301));
    assert_eq!(t.at(2), Ok(&302));
}

#[test]
fn build_gives_up_after_the_last_halving() {
    let mut b: Builder<u64> = Builder::new(0, 1, 1);
    assert_eq!(b.offer(1, false), Action::Restart { halvings: 1 });
    assert_eq!(b.offer(2, false), Action::GaveUp);
    assert_eq!(b.phase(), Phase::Abandoned);
    assert!(matches!(b.finish(), Err(BuildError::DidNotStabilize { halvings: 1 })));
}

#[test]
fn no_halving_allowed_gives_up_on_first_failure() {
    let mut b: Builder<u64> = Builder::new(0, 5, 0);
    assert_eq!(b.offer(1, true), Action::Advance);
    assert_eq!(b.offer(2, false), Action::GaveUp);
    assert!(matches!(b.finish(), Err(BuildError::DidNotStabilize { halvings: 0 })));
}

/// One Boris step of the unit-charge particle in the mirror field with
/// b0 = 1 and l = 0.1, started on the midplane.
fn midplane_step(pos: [f64; 3], vel: [f64; 3], dt: f64) -> ([f64; 3], [f64; 3], f64) {
    // z = 0 on the midplane, so the field is (0, 0, b0) there.
    let b = [0.0, 0.0, dt / 2.0];
    let b2 = b[2] * b[2];
    let c = [vel[1] * b[2] - b[1] * vel[2], vel[2] * b[0] - b[2] * vel[0], 0.0];
    let k = 2.0 / (1.0 + b2);
    let v = [k * (vel[0] + c[0]) - vel[0], k * (vel[1] + c[1]) - vel[1], vel[2]];
    let p = [pos[0] + dt * v[0], pos[1] + dt * v[1], pos[2] + dt * v[2]];
    (p, v, 1.0)
}

#[test]
fn one_step_in_the_mirror_field() {
    let (b0, vel_perp, vel_par) = (1.0f64, 0.1f64, 0.0f64);
    let init = (0.0f64, [-vel_perp / b0, 0.0, 0.0], [0.0, vel_perp, vel_par], 0.0f64);
    assert_eq!(init.1, [-0.1, 0.0, 0.0]);
    assert_eq!(init.2, [0.0, 0.1, 0.0]);
    let mut dt = 0.08 * b0;
    let mut b = Builder::new(init, 1, MAX_HALVINGS);
    while b.is_building() {
        let s = *b.current();
        let (pos, vel, field_mag) = midplane_step(s.1, s.2, dt);
        let stable = !(0.1 / field_mag / 1.0 < dt);
        if let Action::Restart { .. } = b.offer((s.0 + dt, pos, vel, field_mag), stable) {
            dt /= 2.0;
        }
    }
    let t = b.finish().unwrap();
    assert_eq!(t.len(), 2);
    assert_eq!(dt, 0.08 / 2f64.powi(t.halvings() as i32));
    let s0 = *t.at(0).unwrap();
    let s1 = *t.at(1).unwrap();
    assert_eq!(s0.0, 0.0);
    assert_eq!(s1.0, s0.0 + dt);
    assert!(0.1 / s1.3 >= dt);
    let speed0 = (s0.2[0] * s0.2[0] + s0.2[1] * s0.2[1] + s0.2[2] * s0.2[2]).sqrt();
    let speed1 = (s1.2[0] * s1.2[0] + s1.2[1] * s1.2[1] + s1.2[2] * s1.2[2]).sqrt();
    assert!((speed0 - speed1).abs() < 1e-12);
    assert!(s1.1[0] != s0.1[0] || s1.1[1] != s0.1[1]);
}
