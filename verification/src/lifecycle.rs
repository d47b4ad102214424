//! Decisions of the managed-service lifecycle. The process may run as an
//! OS-managed background service whose manager hands it launch arguments and
//! an externally triggered stop signal; the loop that talks to the manager
//! lives outside this crate and asks these functions what to do next.

use vstd::prelude::*;
use vstd::string::StringExecFns;

use crate::conf::{ConfigError, ServiceConfig, config_of, config_outcome_matches, config_valid};
use crate::engine::{dag_table_of, engine_dag, engine_from_words, engine_segmentation, seg_table_of};
use crate::pipeline::WordcutServer;

verus! {

/// What the service entry point is to do next.
pub enum ServiceAction {
    /// Bring the server up, reading its configuration from this path.
    RunServer { config_path: String },
    /// Leave the entry point with this exit code.
    Exit { code: u32 },
}

/// Exit code reported to the service manager on an orderly stop.
pub const EXIT_OK: u32 = 0;

/// Decides what the service entry point does, from the launch arguments and
/// the state of the stop signal. A stop that was already requested wins over
/// everything: the server is then never brought up and the entry point
/// reports an orderly exit. Otherwise the server runs, configured from the
/// first launch argument, or from the default path `.` when none was given.
pub fn service_main(args: &Vec<String>, stop_requested: bool) -> (r: ServiceAction)
    ensures
        stop_requested ==> (r matches ServiceAction::Exit { code } && code == EXIT_OK),
        !stop_requested ==> (r matches ServiceAction::RunServer { config_path } && config_path@
            == (if args@.len() > 0 {
            args@[0]@
        } else {
            "."@
        })),
{
    if stop_requested {
        ServiceAction::Exit { code: EXIT_OK }
    } else if args.len() > 0 {
        ServiceAction::RunServer { config_path: args[0].clone() }
    } else {
        ServiceAction::RunServer { config_path: ".".to_owned() }
    }
}

/// Why the service could not be brought up.
#[derive(Clone, Copy, PartialEq, Eq, Structural, Debug)]
pub enum StartupError {
    /// The configuration was unreadable or rejected.
    Config(ConfigError),
    /// The dictionary at `dict_path` could not be read.
    CannotLoadDict,
}

/// Decides whether the service may start listening, and builds everything
/// the listener needs if so. `config_pairs` is the flattened configuration
/// source, `None` where it could not be read; `dict_words` is the dictionary
/// word list, `None` where it could not be read. Startup failures are fatal:
/// whenever either input is missing or the configuration is rejected, the
/// result is an error and no server value exists, so no listener can be
/// brought up over a half-initialised service.
pub fn plan_boot(config_pairs: Option<&Vec<(String, String)>>, dict_words: Option<&Vec<String>>) -> (r:
    Result<(ServiceConfig, WordcutServer), StartupError>)
    ensures
        config_pairs is None ==> r == Err::<(ServiceConfig, WordcutServer), StartupError>(
            StartupError::Config(ConfigError::CannotReadConfig),
        ),
        dict_words is None ==> r is Err,
        match r {
            Ok((c, srv)) => {
                &&& config_pairs matches Some(p) && config_outcome_matches(p@, Ok(c))
                &&& dict_words matches Some(ws) && engine_segmentation(srv.wordcut)
                    == seg_table_of(ws.deep_view()) && engine_dag(srv.wordcut) == dag_table_of(
                    ws.deep_view(),
                )
            },
            Err(StartupError::Config(e)) => match config_pairs {
                None => e == ConfigError::CannotReadConfig,
                Some(p) => config_outcome_matches(p@, Err(e)),
            },
            Err(StartupError::CannotLoadDict) => {
                &&& config_pairs matches Some(p) && config_valid(p@)
                &&& dict_words is None
            },
        },
{
    let pairs = match config_pairs {
        None => {
            return Err(StartupError::Config(ConfigError::CannotReadConfig));
        },
        Some(p) => p,
    };
    let config = match config_of(pairs) {
        Err(e) => {
            return Err(StartupError::Config(e));
        },
        Ok(c) => c,
    };
    let words = match dict_words {
        None => {
            return Err(StartupError::CannotLoadDict);
        },
        Some(w) => w,
    };
    let engine = engine_from_words(words);
    Ok((config, WordcutServer::new(engine)))
}

} // verus!
