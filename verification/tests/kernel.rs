use waves_rs::errors::ConfigError;
use waves_rs::fdtd1d::Op;
use waves_rs::fdtd1d::Session;
use waves_rs::fdtd1d::FDTD1D;
use waves_rs::fdtd1d::ETA0_BITS;
use waves_rs::fdtd1d::OBSERVATION_INDEX;
use waves_rs::fdtd1d::SOURCE_PEAK_STEP;
use waves_rs::fdtd1d::SOURCE_WIDTH_BITS;
use waves_rs::fdtd1d::ZERO_BITS;
use waves_rs::Config;
use waves_rs::Run;

/// Evaluates one arithmetic request in double precision.
fn eval(op: Op) -> u64 {
    match op {
        Op::Add(a, b) => (f64::from_bits(a) + f64::from_bits(b)).to_bits(),
        Op::Sub(a, b) => (f64::from_bits(a) - f64::from_bits(b)).to_bits(),
        Op::Mul(a, b) => (f64::from_bits(a) * f64::from_bits(b)).to_bits(),
        Op::Div(a, b) => (f64::from_bits(a) / f64::from_bits(b)).to_bits(),
        Op::Neg(a) => (-f64::from_bits(a)).to_bits(),
        Op::Exp(a) => f64::from_bits(a).exp().to_bits(),
        Op::FromUint(n) => (n as f64).to_bits(),
    }
}

/// Drives a session to completion and returns the emitted observations.
fn drive(mut s: Session) -> Vec<u64> {
    while let Some(op) = s.pending() {
        let r: u64 = eval(op);
        s.feed(r);
    }
    assert!(s.done());
    s.observations().clone()
}

/// The same scheme written directly in double precision: the oracle the
/// session-driven run must reproduce bit for bit.
fn reference_obs(time_steps: usize, nodes: usize) -> Vec<u64> {
    let mut ez: Vec<f64> = vec![0.0; nodes];
    let mut hy: Vec<f64> = vec![0.0; nodes];
    let eta0: f64 = 377.0;
    let mut out: Vec<u64> = Vec::new();
    for t in 0..time_steps {
        for i in 0..nodes {
            let ez_right: f64 = if i + 1 < nodes { ez[i + 1] } else { 0.0 };
            hy[i] = hy[i] + (ez_right - ez[i]) / eta0;
            let hy_left: f64 = if i == 0 { 0.0 } else { hy[i - 1] };
            ez[i] = ez[i] + (hy[i] - hy_left) * eta0;
        }
        let d: i64 = t as i64 - 30;
        let d2: u64 = (d * d) as u64;
        ez[0] = (-((d2 as f64) / 100.0)).exp();
        out.push(ez[50].to_bits());
    }
    out
}

fn session_for(time_steps: &str, nodes: &str) -> Session {
    let args: Vec<String> = vec![
        String::from("prog"),
        String::from("fdtd1d"),
        String::from(time_steps),
        String::from(nodes),
    ];
    Config::new(&args).unwrap().run().unwrap()
}

#[test]
fn zero_steps_emit_nothing() {
    let obs = drive(session_for("0", "60"));
    assert_eq!(obs.len(), 0);
}

#[test]
fn zero_steps_still_need_a_large_enough_grid() {
    let sim = FDTD1D {
        time_steps: 0,
        nodes: 50,
    };
    assert_eq!(sim.run().err(), Some(ConfigError::ObservationIndexOutOfRange));
}

#[test]
fn small_grids_are_refused_before_any_output() {
    let args: Vec<String> = vec![
        String::from("prog"),
        String::from("fdtd1d"),
        String::from("5"),
        String::from("50"),
    ];
    let config = Config::new(&args).unwrap();
    match config.run() {
        Ok(_) => panic!("a 50-node grid must not run"),
        Err(e) => assert_eq!(e, ConfigError::ObservationIndexOutOfRange),
    }
    let tiny = FDTD1D {
        time_steps: 5,
        nodes: 0,
    };
    assert_eq!(tiny.run().err(), Some(ConfigError::ObservationIndexOutOfRange));
}

#[test]
fn edge_policy_runs_the_minimal_grid() {
    // One past the observation index: both edge reads fall back to the
    // zero field and the run completes with exactly one observation.
    let obs = drive(session_for("1", "51"));
    assert_eq!(obs.len(), 1);
}

#[test]
fn source_peaks_at_exactly_one() {
    let mut s = session_for("61", "60");
    let mut ez0: Vec<f64> = Vec::new();
    while let Some(op) = s.pending() {
        let r: u64 = eval(op);
        if matches!(op, Op::Exp(_)) {
            ez0.push(f64::from_bits(r));
        }
        s.feed(r);
    }
    assert_eq!(ez0.len(), 61);
    assert_eq!(ez0[SOURCE_PEAK_STEP], 1.0);
    for (t, v) in ez0.iter().enumerate() {
        if t != SOURCE_PEAK_STEP {
            assert!(*v < 1.0);
        }
    }
}

#[test]
fn identical_parameters_give_identical_observations() {
    let first = drive(session_for("80", "70"));
    let second = drive(session_for("80", "70"));
    assert_eq!(first, second);
}

#[test]
fn session_matches_the_direct_scheme() {
    let obs = drive(session_for("100", "60"));
    let oracle = reference_obs(100, 60);
    assert_eq!(obs, oracle);
    // The pulse has reached the observation point: the comparison above is
    // not between all-zero sequences.
    assert!(obs.iter().any(|b| f64::from_bits(*b) != 0.0));
}

#[test]
fn dispatch_forwards_to_the_kernel() {
    let sim = FDTD1D {
        time_steps: 12,
        nodes: 55,
    };
    let via_config = drive(Config::FDTD1D(sim).run().unwrap());
    let direct = drive(sim.run().unwrap());
    assert_eq!(via_config, direct);
}

#[test]
fn named_constants_hold_their_documented_values() {
    assert_eq!(ETA0_BITS, 377.0f64.to_bits());
    assert_eq!(SOURCE_WIDTH_BITS, 100.0f64.to_bits());
    assert_eq!(ZERO_BITS, 0.0f64.to_bits());
    assert_eq!(SOURCE_PEAK_STEP, 30);
    assert_eq!(OBSERVATION_INDEX, 50);
}
