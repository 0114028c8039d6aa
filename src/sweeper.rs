use crate::runner::{decimal, decimal_text};
use crate::supervisor::BACKEND_PORT;
use vstd::prelude::*;

verus! {

/// The command-line signature of a backend script left by an earlier run.
pub const SCRIPT_PATTERN: &'static str = "pinokiod/script/index.js";

/// `n` written in decimal, with a minus sign when negative.
pub open spec fn signed_decimal(n: int) -> Seq<char> {
    if n < 0 {
        "-"@ + decimal((-n) as nat)
    } else {
        decimal(n as nat)
    }
}

pub fn signed_decimal_text(n: i32) -> (r: String)
    ensures
        r@ == signed_decimal(n as int),
{
    if n < 0 {
        let magnitude: u32 = (0i64 - n as i64) as u32;
        let mut r = "-".to_string();
        r.append(decimal_text(magnitude).as_str());
        r
    } else {
        decimal_text(n as u32)
    }
}

pub open spec fn port_text() -> Seq<char> {
    decimal(BACKEND_PORT as nat)
}

/// A system command: the program and its arguments.
pub struct SweepCommand {
    pub program: String,
    pub args: Vec<String>,
}

pub open spec fn args_view(args: Seq<String>) -> Seq<Seq<char>> {
    args.map_values(|a: String| a@)
}

pub open spec fn port_sweep_line() -> Seq<char> {
    "lsof -t -i:"@ + port_text() + " | xargs -r kill -9"@
}

pub open spec fn port_intro() -> Seq<char> {
    "[CLEANUP] Checking for zombie processes on port "@ + port_text() + "..."@
}

pub open spec fn orphan_intro() -> Seq<char> {
    "[CLEANUP] Sweeping for orphaned pinokiod scripts..."@
}

/// The log line for the port sweep's outcome: whether the shell reported
/// success, or why it could not be run.
pub open spec fn port_report(outcome: Result<bool, Seq<char>>) -> Seq<char> {
    match outcome {
        Ok(success) => "[CLEANUP] Port "@ + port_text() + " sweep complete. Success: "@ + if success {
            "true"@
        } else {
            "false"@
        },
        Err(cause) => "[CLEANUP] Warning: Failed to sweep port "@ + port_text() + ": "@ + cause,
    }
}

/// The log line for the orphan sweep's outcome. A nonzero exit code only
/// means that nothing matched, which is no failure.
pub open spec fn orphan_report(outcome: Result<Option<i32>, Seq<char>>) -> Seq<char> {
    match outcome {
        Ok(Some(code)) => "[CLEANUP] Orphan sweep complete. (Exit code: Some("@ + signed_decimal(
            code as int,
        ) + "))"@,
        Ok(None) => "[CLEANUP] Orphan sweep complete. (Exit code: None)"@,
        Err(cause) => "[CLEANUP] Warning: Failed to sweep orphans: "@ + cause,
    }
}

/// Where the sweep stands.
#[derive(Clone, Copy, PartialEq, Eq, Structural, Debug)]
pub enum SweepStage {
    NotStarted,
    Port,
    Orphans,
    Done,
}

/// What to do after one step of the sweep: log these lines, then run the
/// command, if there is one; with none the sweep is over and startup goes on.
pub struct SweepStep {
    pub logs: Vec<String>,
    pub run: Option<SweepCommand>,
}

pub open spec fn logs_view(logs: Seq<String>) -> Seq<Seq<char>> {
    logs.map_values(|l: String| l@)
}

/// Best-effort cleanup of what an earlier run left behind: whatever holds the
/// backend's port, then any stray backend script. Each step is only logged,
/// never fatal.
pub struct OrphanSweep {
    pub stage: SweepStage,
}

fn port_sweep_command() -> (r: SweepCommand)
    ensures
        r.program@ == "sh"@,
        args_view(r.args@) == seq!["-c"@, port_sweep_line()],
{
    let mut line = "lsof -t -i:".to_string();
    line.append(decimal_text(BACKEND_PORT as u32).as_str());
    line.append(" | xargs -r kill -9");
    let mut args: Vec<String> = Vec::new();
    args.push("-c".to_string());
    args.push(line);
    proof {
        assert(args_view(args@) =~= seq!["-c"@, port_sweep_line()]);
    }
    SweepCommand { program: "sh".to_string(), args }
}

fn orphan_sweep_command() -> (r: SweepCommand)
    ensures
        r.program@ == "pkill"@,
        args_view(r.args@) == seq!["-f"@, SCRIPT_PATTERN@],
{
    let mut args: Vec<String> = Vec::new();
    args.push("-f".to_string());
    args.push(SCRIPT_PATTERN.to_string());
    proof {
        assert(args_view(args@) =~= seq!["-f"@, SCRIPT_PATTERN@]);
    }
    SweepCommand { program: "pkill".to_string(), args }
}

impl OrphanSweep {
    pub fn new() -> (r: OrphanSweep)
        ensures
            r.stage == SweepStage::NotStarted,
    {
        OrphanSweep { stage: SweepStage::NotStarted }
    }

    /// Opens the sweep with the port sweep.
    pub fn start(&mut self) -> (r: SweepStep)
        requires
            old(self).stage == SweepStage::NotStarted,
        ensures
            final(self).stage == SweepStage::Port,
            logs_view(r.logs@) == seq![port_intro()],
            r.run matches Some(c) && c.program@ == "sh"@ && args_view(c.args@) == seq![
                "-c"@,
                port_sweep_line(),
            ],
    {
        self.stage = SweepStage::Port;
        let mut intro = "[CLEANUP] Checking for zombie processes on port ".to_string();
        intro.append(decimal_text(BACKEND_PORT as u32).as_str());
        intro.append("...");
        let mut logs: Vec<String> = Vec::new();
        logs.push(intro);
        proof {
            assert(logs_view(logs@) =~= seq![port_intro()]);
        }
        SweepStep { logs, run: Some(port_sweep_command()) }
    }

    /// Takes the port sweep's outcome, however it went, and moves on to the
    /// stray scripts.
    pub fn on_port_swept(&mut self, outcome: Result<bool, String>) -> (r: SweepStep)
        requires
            old(self).stage == SweepStage::Port,
        ensures
            final(self).stage == SweepStage::Orphans,
            logs_view(r.logs@) == seq![
                port_report(
                    match outcome {
                        Ok(b) => Ok(b),
                        Err(e) => Err(e@),
                    },
                ),
                orphan_intro(),
            ],
            r.run matches Some(c) && c.program@ == "pkill"@ && args_view(c.args@) == seq![
                "-f"@,
                SCRIPT_PATTERN@,
            ],
    {
        self.stage = SweepStage::Orphans;
        let report = match outcome {
            Ok(success) => {
                let mut t = "[CLEANUP] Port ".to_string();
                t.append(decimal_text(BACKEND_PORT as u32).as_str());
                t.append(" sweep complete. Success: ");
                t.append(if success { "true" } else { "false" });
                t
            },
            Err(cause) => {
                let mut t = "[CLEANUP] Warning: Failed to sweep port ".to_string();
                t.append(decimal_text(BACKEND_PORT as u32).as_str());
                t.append(": ");
                t.append(cause.as_str());
                t
            },
        };
        let mut logs: Vec<String> = Vec::new();
        logs.push(report);
        logs.push("[CLEANUP] Sweeping for orphaned pinokiod scripts...".to_string());
        proof {
            assert(logs_view(logs@) =~= seq![
                port_report(
                    match outcome {
                        Ok(b) => Ok(b),
                        Err(e) => Err(e@),
                    },
                ),
                orphan_intro(),
            ]);
        }
        SweepStep { logs, run: Some(orphan_sweep_command()) }
    }

    /// Takes the orphan sweep's outcome, however it went, and ends the sweep:
    /// no outcome of either command stops startup.
    pub fn on_orphans_swept(&mut self, outcome: Result<Option<i32>, String>) -> (r: SweepStep)
        requires
            old(self).stage == SweepStage::Orphans,
        ensures
            final(self).stage == SweepStage::Done,
            logs_view(r.logs@) == seq![
                orphan_report(
                    match outcome {
                        Ok(c) => Ok(c),
                        Err(e) => Err(e@),
                    },
                ),
            ],
            r.run is None,
    {
        self.stage = SweepStage::Done;
        let report = match outcome {
            Ok(Some(code)) => {
                let mut t = "[CLEANUP] Orphan sweep complete. (Exit code: Some(".to_string();
                t.append(signed_decimal_text(code).as_str());
                t.append("))");
                t
            },
            Ok(None) => "[CLEANUP] Orphan sweep complete. (Exit code: None)".to_string(),
            Err(cause) => {
                let mut t = "[CLEANUP] Warning: Failed to sweep orphans: ".to_string();
                t.append(cause.as_str());
                t
            },
        };
        let mut logs: Vec<String> = Vec::new();
        logs.push(report);
        proof {
            assert(logs_view(logs@) =~= seq![
                orphan_report(
                    match outcome {
                        Ok(c) => Ok(c),
                        Err(e) => Err(e@),
                    },
                ),
            ]);
        }
        SweepStep { logs, run: None }
    }
}

} // verus!
