//! The simulation's settings that are whole numbers, where its output goes,
//! and what the command line asks for.
use vstd::prelude::*;
use vstd::string::*;

verus! {

/// The whole-number settings of a simulation run.
#[derive(Clone, Copy, PartialEq, Eq, Structural, Debug)]
pub struct SimSettings {
    /// How long half a day lasts, in seconds.
    pub half_day_duration_secs: u64,
    /// How many towers are scattered over each area.
    pub towers_per_area: i32,
    /// The chance of a call per pheeple and frame, in ten thousandths.
    pub call_chance: u32,
    /// An exclusive bound on the number of pheeple in one area.
    pub max_pheeple_per_area: i32,
}

impl Default for SimSettings {
    /// Five-second half days, three towers per area, a call chance of one
    /// in ten thousand, and fewer than three hundred pheeple per area.
    fn default() -> (s: SimSettings)
        ensures
            s.half_day_duration_secs == 5,
            s.towers_per_area == 3,
            s.call_chance == 1,
            s.max_pheeple_per_area == 300,
    {
        SimSettings {
            half_day_duration_secs: 5,
            towers_per_area: 3,
            call_chance: 1,
            max_pheeple_per_area: 300,
        }
    }
}

/// The path components of the output directory: the directory named by the
/// environment when it names one, else `outputs` under the working
/// directory. `None` when the environment names none and the working
/// directory is unknown.
pub fn out_dir_parts(env_out_dir: Option<String>, working_dir: Option<String>) -> (r: Option<Vec<String>>)
    ensures
        match env_out_dir {
            Some(d) => r matches Some(v) && v@.len() == 1 && v@[0]@ == d@,
            None => match working_dir {
                Some(w) => r matches Some(v) && v@.len() == 2 && v@[0]@ == w@ && v@[1]@ == "outputs"@,
                None => r is None,
            },
        },
{
    match env_out_dir {
        Some(d) => {
            let mut v: Vec<String> = Vec::new();
            v.push(d);
            Some(v)
        },
        None => match working_dir {
            Some(w) => {
                let mut v: Vec<String> = Vec::new();
                v.push(w);
                v.push(String::from_str("outputs"));
                Some(v)
            },
            None => None,
        },
    }
}

/// The path components of the call log: `call_records.csv` in the output
/// directory, which is the one the environment names, else `outputs` under
/// the working directory. `None` when the environment names none and the
/// working directory is unknown.
pub fn call_log_path_parts(env_out_dir: Option<String>, working_dir: Option<String>) -> (r: Option<Vec<String>>)
    ensures
        match env_out_dir {
            Some(d) => r matches Some(v) && v@.len() == 2 && v@[0]@ == d@ && v@[1]@ == "call_records.csv"@,
            None => match working_dir {
                Some(w) => r matches Some(v) && v@.len() == 3 && v@[0]@ == w@ && v@[1]@ == "outputs"@
                    && v@[2]@ == "call_records.csv"@,
                None => r is None,
            },
        },
{
    match out_dir_parts(env_out_dir, working_dir) {
        Some(mut v) => {
            v.push(String::from_str("call_records.csv"));
            Some(v)
        },
        None => None,
    }
}

/// What the command line asks for, once it has been parsed.
#[derive(Clone, Copy, PartialEq, Eq, Structural, Debug)]
pub enum CliOutcome {
    /// Print the usage and stop.
    ShowHelp,
    /// Refuse: the basemap path names no file.
    BasemapMissing,
    /// Run the simulation.
    Run,
}

/// Help wins over everything; otherwise the run needs an existing basemap file.
pub fn cli_outcome(help_requested: bool, basemap_is_file: bool) -> (r: CliOutcome)
    ensures
        help_requested ==> r == CliOutcome::ShowHelp,
        !help_requested && !basemap_is_file ==> r == CliOutcome::BasemapMissing,
        !help_requested && basemap_is_file ==> r == CliOutcome::Run,
{
    if help_requested {
        CliOutcome::ShowHelp
    } else if !basemap_is_file {
        CliOutcome::BasemapMissing
    } else {
        CliOutcome::Run
    }
}

/// The message given when the basemap path names no file.
pub fn basemap_missing_message() -> (m: String)
    ensures
        m@ == "Basemap path does not exist"@,
{
    String::from_str("Basemap path does not exist")
}

} // verus!
