use std::collections::HashMap;
use vstd::prelude::*;

verus! {

/// The abstract content of one supervised process record.
pub ghost struct ProcessRecord {
    pub pid: u32,
    pub name: Seq<char>,
    pub status: Seq<char>,
    pub cpu_usage_hundredths: u32,
    pub mem_usage: u64,
}

/// One externally observed OS process under supervision.
pub struct ProcessInfo {
    pub pid: u32,
    pub name: String,
    pub status: String,
    /// Last sampled CPU usage, in hundredths of a percent.
    pub cpu_usage_hundredths: u32,
    pub mem_usage: u64,
}

impl View for ProcessInfo {
    type V = ProcessRecord;

    open spec fn view(&self) -> ProcessRecord {
        ProcessRecord {
            pid: self.pid,
            name: self.name@,
            status: self.status@,
            cpu_usage_hundredths: self.cpu_usage_hundredths,
            mem_usage: self.mem_usage,
        }
    }
}

impl ProcessInfo {
    /// A field-by-field copy of the record.
    pub fn duplicate(&self) -> (r: ProcessInfo)
        ensures
            r@ == self@,
    {
        ProcessInfo {
            pid: self.pid,
            name: self.name.clone(),
            status: self.status.clone(),
            cpu_usage_hundredths: self.cpu_usage_hundredths,
            mem_usage: self.mem_usage,
        }
    }
}

/// The process-wide table of supervised processes, keyed by process id.
pub struct ProcessManagerState {
    processes: HashMap<u32, ProcessInfo>,
}

impl ProcessManagerState {
    /// The table as a map from id to record.
    pub closed spec fn table(&self) -> Map<u32, ProcessRecord> {
        Map::new(
            |pid: u32| self.processes@.contains_key(pid),
            |pid: u32| self.processes@[pid]@,
        )
    }

    /// Every record is stored under its own id.
    pub closed spec fn wf(&self) -> bool {
        forall|pid: u32| #[trigger]
            self.processes@.contains_key(pid) ==> self.processes@[pid].pid == pid
    }

    pub fn new() -> (r: ProcessManagerState)
        ensures
            r.wf(),
            r.table() == Map::<u32, ProcessRecord>::empty(),
    {
        let r = ProcessManagerState { processes: HashMap::new() };
        assert(r.table() =~= Map::<u32, ProcessRecord>::empty());
        r
    }

    /// Stores `record` under its id, replacing any record already there.
    pub fn insert(&mut self, record: ProcessInfo)
        requires
            old(self).wf(),
        ensures
            final(self).wf(),
            final(self).table() == old(self).table().insert(record.pid, record@),
    {
        broadcast use vstd::std_specs::hash::group_hash_axioms;

        let ghost before = self.table();
        self.processes.insert(record.pid, record);
        assert(self.table() =~= before.insert(record.pid, record@));
    }

    /// Drops the record of `pid`, if there is one.
    pub fn remove(&mut self, pid: u32)
        requires
            old(self).wf(),
        ensures
            final(self).wf(),
            final(self).table() == old(self).table().remove(pid),
    {
        broadcast use vstd::std_specs::hash::group_hash_axioms;

        let ghost before = self.table();
        self.processes.remove(&pid);
        assert(self.table() =~= before.remove(pid));
    }

    pub fn contains(&self, pid: u32) -> (r: bool)
        ensures
            r == self.table().contains_key(pid),
    {
        broadcast use vstd::std_specs::hash::group_hash_axioms;

        self.processes.contains_key(&pid)
    }
}

/// `snap` holds exactly the records of `table`, each once, in some order.
pub open spec fn is_snapshot_of(snap: Seq<ProcessRecord>, table: Map<u32, ProcessRecord>) -> bool {
    &&& snap.len() == table.len()
    &&& forall|i: int| 0 <= i < snap.len() ==> #[trigger] table.contains_key(snap[i].pid)
        && table[snap[i].pid] == snap[i]
    &&& forall|i: int, j: int| 0 <= i < j < snap.len() ==> snap[i].pid != snap[j].pid
    &&& forall|pid: u32| #[trigger] table.contains_key(pid)
        ==> exists|i: int| 0 <= i < snap.len() && #[trigger] snap[i].pid == pid
}

/// A point-in-time copy of every record in the table.
pub fn get_processes(state: &ProcessManagerState) -> (r: Vec<ProcessInfo>)
    requires
        state.wf(),
    ensures
        is_snapshot_of(r@.map_values(|p: ProcessInfo| p@), state.table()),
{
    broadcast use vstd::std_specs::hash::group_hash_axioms;

    let mut out: Vec<ProcessInfo> = Vec::new();
    let ghost m = state.table();
    assert(m.dom() =~= state.processes@.dom());
    for k in it: state.processes.keys()
        invariant
            state.wf(),
            m == state.table(),
            m.dom() == state.processes@.dom(),
            it.seq().len() == m.dom().len(),
            it.seq().no_duplicates(),
            it.seq().unref().to_set() == m.dom(),
            out.len() == it.index(),
            forall|i: int| 0 <= i < out.len() ==> out@[i].pid == *it.seq()[i],
            forall|i: int| 0 <= i < out.len() ==> #[trigger] m.contains_key(out@[i].pid)
                && m[out@[i].pid] == out@[i]@,
            forall|i: int, j: int| 0 <= i < j < out.len() ==> out@[i].pid != out@[j].pid,
            forall|pid: u32| #[trigger] m.contains_key(pid) ==> (exists|i: int| 0 <= i < out.len()
                && #[trigger] out@[i].pid == pid) || (exists|i: int| it.index() <= i < it.seq().len()
                && #[trigger] it.seq()[i] == pid),
    {
        proof {
            assert(it.seq().unref().to_set().contains(*it.seq()[it.index() as int]));
        }
        let ghost old_out = out@;
        match state.processes.get(k) {
            Some(p) => out.push(p.duplicate()),
            None => {},
        }
        proof {
            let n = old_out.len() as int;
            assert forall|pid: u32| #[trigger] m.contains_key(pid) implies (exists|i: int| 0 <= i < out.len()
                && #[trigger] out@[i].pid == pid) || (exists|i: int| it.index() + 1 <= i < it.seq().len()
                && #[trigger] it.seq()[i] == pid) by {
                if exists|i: int| 0 <= i < n && #[trigger] old_out[i].pid == pid {
                    let i = choose|i: int| 0 <= i < n && #[trigger] old_out[i].pid == pid;
                    assert(out@[i].pid == pid);
                } else {
                    let i = choose|i: int| it.index() <= i < it.seq().len() && #[trigger] it.seq()[i] == pid;
                    if i == n {
                        assert(out@[n].pid == pid);
                    } else {
                        assert(it.seq()[i] == pid);
                    }
                }
            }
            assert forall|i: int, j: int| 0 <= i < j < out.len() implies out@[i].pid != out@[j].pid by {
                if j == n {
                    assert(it.seq()[i] != it.seq()[j]);
                }
            }
        }
    }
    proof {
        let v = out@.map_values(|p: ProcessInfo| p@);
        assert(v.len() == m.len());
        assert forall|pid: u32| #[trigger] m.contains_key(pid)
            implies exists|i: int| 0 <= i < v.len() && #[trigger] v[i].pid == pid by {
            let i = choose|i: int| 0 <= i < out.len() && #[trigger] out@[i].pid == pid;
            assert(v[i].pid == pid);
        }
    }
    out
}

/// Whatever inserts and removals came before, a snapshot of the table names
/// each id at most once.
pub proof fn lemma_ids_unique(state: ProcessManagerState, snap: Seq<ProcessRecord>)
    requires
        state.wf(),
        is_snapshot_of(snap, state.table()),
    ensures
        forall|i: int, j: int| 0 <= i < snap.len() && 0 <= j < snap.len() && i != j
            ==> snap[i].pid != snap[j].pid,
{
    assert forall|i: int, j: int| 0 <= i < snap.len() && 0 <= j < snap.len() && i != j
        implies snap[i].pid != snap[j].pid by {
        if i > j {
            assert(snap[j].pid != snap[i].pid);
        }
    }
}

/// Removing an id a second time leaves the table as the first removal left it.
pub proof fn lemma_remove_twice(table: Map<u32, ProcessRecord>, pid: u32)
    ensures
        table.remove(pid).remove(pid) == table.remove(pid),
        !table.remove(pid).contains_key(pid),
{
    assert(table.remove(pid).remove(pid) =~= table.remove(pid));
}

/// A snapshot taken after a record was stored holds that record whole: every
/// field as it was written, never a mix of an old and a new record.
pub proof fn lemma_snapshot_holds_whole_record(
    table: Map<u32, ProcessRecord>,
    record: ProcessRecord,
    snap: Seq<ProcessRecord>,
)
    requires
        is_snapshot_of(snap, table.insert(record.pid, record)),
    ensures
        exists|i: int| 0 <= i < snap.len() && snap[i] == record,
        forall|i: int| 0 <= i < snap.len() && snap[i].pid == record.pid ==> snap[i] == record,
{
    let t = table.insert(record.pid, record);
    assert(t.contains_key(record.pid));
    let i = choose|i: int| 0 <= i < snap.len() && #[trigger] snap[i].pid == record.pid;
    assert(t[snap[i].pid] == snap[i]);
}

} // verus!
