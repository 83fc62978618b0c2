//! A small, extensible framework for discrete-time electromagnetic field
//! simulations, with one concrete kind implemented: a one-dimensional
//! finite-difference time-domain (FDTD) solver.
//!
//! [`Config`] is the closed registry of simulation kinds: it parses a flat
//! token stream into exactly one ready-to-run instance and exposes the one
//! [`Run`] capability over it.  The FDTD kernel itself lives in [`fdtd1d`];
//! its double-precision arithmetic is performed by the caller one operation
//! at a time, while every exact part of the scheme — parsing, dispatch,
//! grid bounds, sweep ordering, boundary convention, observation emission —
//! is verified here.
use vstd::prelude::*;

pub mod errors;
pub mod fdtd1d;
pub mod parse;

use crate::errors::ConfigError;
use crate::fdtd1d::kernel_new_spec;
use crate::fdtd1d::start_model;
use crate::fdtd1d::wf;
use crate::fdtd1d::Session;
use crate::fdtd1d::SessionModel;
use crate::fdtd1d::FDTD1D;
use crate::fdtd1d::OBSERVATION_INDEX;

verus! {

/// The selector token names the FDTD1D kind: a case-insensitive exact
/// match of the ASCII name `fdtd1d`.
pub open spec fn selects_fdtd1d(s: Seq<char>) -> bool {
    &&& s.len() == 6
    &&& (s[0] == 'f' || s[0] == 'F')
    &&& (s[1] == 'd' || s[1] == 'D')
    &&& (s[2] == 't' || s[2] == 'T')
    &&& (s[3] == 'd' || s[3] == 'D')
    &&& s[4] == '1'
    &&& (s[5] == 'd' || s[5] == 'D')
}

/// Decides [`selects_fdtd1d`] for one token.
fn matches_fdtd1d(s: &String) -> (b: bool)
    ensures
        b == selects_fdtd1d(s@),
{
    let t = s.as_str();
    if t.unicode_len() != 6 {
        return false;
    }
    let c0 = t.get_char(0);
    let c1 = t.get_char(1);
    let c2 = t.get_char(2);
    let c3 = t.get_char(3);
    let c4 = t.get_char(4);
    let c5 = t.get_char(5);
    (c0 == 'f' || c0 == 'F') && (c1 == 'd' || c1 == 'D') && (c2 == 't' || c2 == 'T') && (c3 == 'd'
        || c3 == 'D') && c4 == '1' && (c5 == 'd' || c5 == 'D')
}

/// Configuration registry: a closed tagged union over every available
/// simulation kind, exactly one variant active, its payload immutable
/// after construction.
#[derive(Debug, PartialEq, Eq, Structural)]
pub enum Config {
    FDTD1D(FDTD1D),
}

/// What constructing a configuration from a token stream yields.  The
/// first token (conventionally the program's own name) is discarded; the
/// second selects the kind by case-insensitive name; the rest go unchanged
/// to that kind's own constructor, whose error is propagated verbatim.
pub open spec fn config_new_spec(args: Seq<String>) -> Result<Config, ConfigError> {
    if args.len() < 2 {
        Err(ConfigError::MissingSimulationKind)
    } else if selects_fdtd1d(args[1]@) {
        match kernel_new_spec(args, 2) {
            Ok(k) => Ok(Config::FDTD1D(k)),
            Err(e) => Err(e),
        }
    } else {
        Err(ConfigError::UnknownSimulationKind)
    }
}

impl Config {
    /// Parses the invocation tokens into one ready-to-run simulation
    /// instance, exactly as [`config_new_spec`] describes.
    pub fn new(args: &Vec<String>) -> (r: Result<Config, ConfigError>)
        ensures
            r == config_new_spec(args@),
    {
        if args.len() < 2 {
            return Err(ConfigError::MissingSimulationKind);
        }
        if matches_fdtd1d(&args[1]) {
            match FDTD1D::new(args, 2) {
                Ok(k) => Ok(Config::FDTD1D(k)),
                Err(e) => Err(e),
            }
        } else {
            Err(ConfigError::UnknownSimulationKind)
        }
    }
}

/// The single uniform capability over every simulation kind: starting a
/// run.  Each kind says in [`Run::session_spec`] which session its `run`
/// is owed to produce, or with which error it must refuse.
pub trait Run {
    /// The promised outcome: the model of a fresh session, or the error.
    spec fn session_spec(&self) -> Result<SessionModel, ConfigError>;

    /// Starts the configured simulation.  On success the returned session
    /// is well-formed and in exactly the promised start state; the caller
    /// drives it to completion by evaluating each pending arithmetic
    /// request in double precision.
    fn run(&self) -> (r: Result<Session, ConfigError>)
        ensures
            match (r, self.session_spec()) {
                (Ok(s), Ok(m)) => s@ =~= m && wf(m),
                (Err(e), Err(e2)) => e == e2,
                _ => false,
            },
    ;
}

impl Run for FDTD1D {
    /// A grid must reach past the observation index; otherwise the run is
    /// refused up front, before any state is allocated.
    open spec fn session_spec(&self) -> Result<SessionModel, ConfigError> {
        if self.nodes > OBSERVATION_INDEX {
            Ok(start_model(self.time_steps as nat, self.nodes as nat))
        } else {
            Err(ConfigError::ObservationIndexOutOfRange)
        }
    }

    fn run(&self) -> (r: Result<Session, ConfigError>) {
        if self.nodes > OBSERVATION_INDEX {
            Ok(Session::start(self.time_steps, self.nodes))
        } else {
            Err(ConfigError::ObservationIndexOutOfRange)
        }
    }
}

impl Run for Config {
    /// The registry promises whatever the active variant promises.
    open spec fn session_spec(&self) -> Result<SessionModel, ConfigError> {
        match self {
            Config::FDTD1D(sim) => sim.session_spec(),
        }
    }

    fn run(&self) -> (r: Result<Session, ConfigError>) {
        match self {
            Config::FDTD1D(sim) => sim.run(),
        }
    }
}

} // verus!
