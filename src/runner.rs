use crate::registry::{ProcessInfo, ProcessManagerState, ProcessRecord};
use vstd::prelude::*;

verus! {

/// A failure message: what failed, then the underlying cause.
pub open spec fn failure_text(what: Seq<char>, cause: Seq<char>) -> Seq<char> {
    what + ": "@ + cause
}

pub fn describe_failure(what: &str, cause: &str) -> (r: String)
    ensures
        r@ == failure_text(what@, cause@),
{
    let mut r = what.to_string();
    r.append(": ");
    r.append(cause);
    r
}

pub open spec fn spawn_failure_text(cause: Seq<char>) -> Seq<char> {
    failure_text("Failed to spawn process"@, cause)
}

pub open spec fn wait_failure_text(cause: Seq<char>) -> Seq<char> {
    failure_text("Wait failed"@, cause)
}

/// The message reported when a command could not be started.
pub fn spawn_failure(cause: &str) -> (r: String)
    ensures
        r@ == spawn_failure_text(cause@),
{
    describe_failure("Failed to spawn process", cause)
}

/// The record a freshly spawned command gets: running, with no usage sampled.
pub open spec fn running_record(pid: u32, name: Seq<char>) -> ProcessRecord {
    ProcessRecord { pid, name, status: "Running"@, cpu_usage_hundredths: 0, mem_usage: 0 }
}

/// The id under which a spawned process is tracked; zero when the platform
/// gave none.
pub open spec fn tracked_id(pid: Option<u32>) -> u32 {
    match pid {
        Some(p) => p,
        None => 0,
    }
}

pub open spec fn table_after_spawn(
    table: Map<u32, ProcessRecord>,
    name: Seq<char>,
    pid: Option<u32>,
) -> Map<u32, ProcessRecord> {
    if tracked_id(pid) > 0 {
        table.insert(tracked_id(pid), running_record(tracked_id(pid), name))
    } else {
        table
    }
}

pub open spec fn table_after_exit(table: Map<u32, ProcessRecord>, id: u32) -> Map<
    u32,
    ProcessRecord,
> {
    if id > 0 {
        table.remove(id)
    } else {
        table
    }
}

/// The result of a run whose wait gave `wait`: the exit code, `-1` where the
/// platform reported none, or the wait failure.
pub open spec fn run_result(wait: Result<Option<i32>, Seq<char>>) -> Result<i32, Seq<char>> {
    match wait {
        Ok(Some(code)) => Ok(code),
        Ok(None) => Ok(-1i32),
        Err(cause) => Err(wait_failure_text(cause)),
    }
}

pub open spec fn wait_view(wait: Result<Option<i32>, String>) -> Result<Option<i32>, Seq<char>> {
    match wait {
        Ok(c) => Ok(c),
        Err(e) => Err(e@),
    }
}

pub open spec fn result_view(r: Result<i32, String>) -> Result<i32, Seq<char>> {
    match r {
        Ok(c) => Ok(c),
        Err(e) => Err(e@),
    }
}

/// Opens a run once the spawn has been tried. A spawned command is recorded
/// when the platform gave it a nonzero id, and the id it is tracked under is
/// returned; a spawn failure is reported and leaves the table as it was.
pub fn begin_run(state: &mut ProcessManagerState, cmd: &String, spawned: Result<Option<u32>, String>) -> (r:
    Result<u32, String>)
    requires
        old(state).wf(),
    ensures
        final(state).wf(),
        match spawned {
            Ok(pid) => r == Ok::<u32, String>(tracked_id(pid)) && final(state).table()
                == table_after_spawn(old(state).table(), cmd@, pid),
            Err(cause) => r matches Err(e) && e@ == spawn_failure_text(cause@) && final(state).table()
                == old(state).table(),
        },
{
    match spawned {
        Ok(pid) => {
            let id: u32 = match pid {
                Some(p) => p,
                None => 0,
            };
            if id > 0 {
                state.insert(
                    ProcessInfo {
                        pid: id,
                        name: cmd.clone(),
                        status: "Running".to_string(),
                        cpu_usage_hundredths: 0,
                        mem_usage: 0,
                    },
                );
            }
            Ok(id)
        },
        Err(cause) => Err(spawn_failure(cause.as_str())),
    }
}

/// Closes a run once its wait has returned: the record of `id` goes whatever
/// the wait gave, and the run's result is the exit code, `-1` without one, or
/// the wait failure.
pub fn finish_run(state: &mut ProcessManagerState, id: u32, wait: Result<Option<i32>, String>) -> (r:
    Result<i32, String>)
    requires
        old(state).wf(),
    ensures
        final(state).wf(),
        final(state).table() == table_after_exit(old(state).table(), id),
        result_view(r) == run_result(wait_view(wait)),
{
    if id > 0 {
        state.remove(id);
    }
    match wait {
        Ok(Some(code)) => Ok(code),
        Ok(None) => Ok(-1),
        Err(cause) => Err(describe_failure("Wait failed", cause.as_str())),
    }
}

/// A command that spawns, gets an id and exits with code 7 yields 7, and the
/// table keeps no record of that id afterwards.
pub proof fn lemma_run_exit_seven(table: Map<u32, ProcessRecord>, name: Seq<char>, pid: u32)
    requires
        pid > 0,
    ensures
        run_result(Ok(Some(7i32))) == Ok::<i32, Seq<char>>(7),
        !table_after_exit(table_after_spawn(table, name, Some(pid)), pid).contains_key(pid),
        table_after_exit(table_after_spawn(table, name, Some(pid)), pid) == table.remove(pid),
{
    assert(table_after_exit(table_after_spawn(table, name, Some(pid)), pid) =~= table.remove(pid));
}

/// The decimal digits of `n`.
pub open spec fn decimal(n: nat) -> Seq<char>
    decreases n,
{
    if n < 10 {
        seq![digit_char(n)]
    } else {
        decimal(n / 10) + seq![digit_char(n % 10)]
    }
}

pub open spec fn digit_char(d: nat) -> char {
    if d < 10 {
        (('0' as nat) + d) as char
    } else {
        '0'
    }
}

fn digit_text(d: u32) -> (r: &'static str)
    requires
        d < 10,
    ensures
        r@ == seq![digit_char(d as nat)],
{
    proof {
        reveal_strlit("0");
        reveal_strlit("1");
        reveal_strlit("2");
        reveal_strlit("3");
        reveal_strlit("4");
        reveal_strlit("5");
        reveal_strlit("6");
        reveal_strlit("7");
        reveal_strlit("8");
        reveal_strlit("9");
    }
    let r = match d {
        0 => "0",
        1 => "1",
        2 => "2",
        3 => "3",
        4 => "4",
        5 => "5",
        6 => "6",
        7 => "7",
        8 => "8",
        _ => "9",
    };
    assert(r@ =~= seq![digit_char(d as nat)]);
    r
}

/// `n` written in decimal.
pub fn decimal_text(n: u32) -> (r: String)
    ensures
        r@ == decimal(n as nat),
    decreases n,
{
    if n < 10 {
        digit_text(n).to_string()
    } else {
        let mut r = decimal_text(n / 10);
        r.append(digit_text(n % 10));
        r
    }
}

/// The arguments of the platform's `kill` that stop `pid` at once, with the
/// strongest signal there is.
pub fn kill_arguments(pid: u32) -> (r: Vec<String>)
    ensures
        r@.len() == 2,
        r@[0]@ == "-9"@,
        r@[1]@ == decimal(pid as nat),
{
    let mut r: Vec<String> = Vec::new();
    r.push("-9".to_string());
    r.push(decimal_text(pid));
    r
}

} // verus!
