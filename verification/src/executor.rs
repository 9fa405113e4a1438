//! The pipeline session. It owns everything the executor decides: parsing
//! every stage and allocating every channel before anything is spawned,
//! handing the host driver one ready-made plan per stage, recording the
//! children the host created, and finally closing every endpoint in the
//! parent and reaping every recorded child.
//!
//! Process creation itself cannot happen here, so the unverified driver
//! runs the outer loop: for each stage it takes the plan, forks, calls
//! [`wire_stage`] inside the child, runs the program, and reports the
//! child's identifier back through [`PipelineRun::record_spawn`].

use crate::command::CommandView;
use crate::command::ShellError;
use crate::command::parse;
use crate::command::parsed;
use crate::plan::Binding;
use crate::plan::BindingView;
use crate::plan::Channel;
use crate::plan::StagePlan;
use crate::plan::lemma_single_stage_inherits;
use crate::plan::lemma_stage_closes_rest;
use crate::plan::plan_ok;
use crate::plan::stage_plan;
use crate::sys::sys_close;
use crate::sys::sys_dup2;
use crate::sys::sys_open_read;
use crate::sys::sys_open_write;
use crate::sys::sys_pipe;
use crate::sys::sys_waitpid;
use vstd::prelude::*;

verus! {

/// The command a raw stage parses to, as a mathematical value.
pub open spec fn stage_command(raw: Seq<u8>) -> CommandView {
    CommandView {
        argv: parsed(raw).0,
        input_redirect: parsed(raw).1,
        output_redirect: parsed(raw).2,
    }
}

/// What one slot of a prepared pipeline says about its raw stage: a stage
/// whose parse left no arguments is skipped; any other stage carries a
/// correct plan for its position.
pub open spec fn slot_ok(
    slot: Option<StagePlan>,
    raw: Seq<u8>,
    i: int,
    n: int,
    chs: Seq<Channel>,
) -> bool {
    match slot {
        None => parsed(raw).0.len() == 0,
        Some(p) => parsed(raw).0.len() > 0 && plan_ok(p@, stage_command(raw), i, n, chs),
    }
}

/// One pipeline execution in flight: the channels allocated for it, one
/// plan slot per stage, and the children recorded so far.
pub struct PipelineRun {
    pub channels: Vec<Channel>,
    pub slots: Vec<Option<StagePlan>>,
    pub pids: Vec<i32>,
}

impl PipelineRun {
    /// A session is well formed when it has a slot per stage and exactly
    /// one channel per adjacent pair of stages.
    pub open spec fn wf(self) -> bool {
        self.slots@.len() >= 1 && self.channels@.len() == self.slots@.len() - 1
    }

    /// Parses every stage and allocates exactly one channel per adjacent
    /// pair, all before anything is spawned; allocation failure is fatal
    /// to the whole attempt and is the only failure here. A stage that
    /// parses to nothing is recorded as a skipped slot, silently.
    pub fn begin(raw_stages: &Vec<Vec<u8>>) -> (r: Result<PipelineRun, ShellError>)
        requires
            raw_stages@.len() >= 1,
        ensures
            r matches Err(e) ==> e == ShellError::ChannelAllocationFailed,
            raw_stages@.len() == 1 ==> r is Ok,
            r matches Ok(run) ==> {
                &&& run.wf()
                &&& run.slots@.len() == raw_stages@.len()
                &&& run.channels@.len() == raw_stages@.len() - 1
                &&& run.pids@.len() == 0
                &&& forall|k: int|
                    0 <= k < raw_stages@.len() ==> slot_ok(
                        #[trigger] run.slots@[k],
                        raw_stages.deep_view()[k],
                        k,
                        raw_stages@.len() as int,
                        run.channels@,
                    )
            },
    {
        let n = raw_stages.len();
        let mut channels: Vec<Channel> = Vec::new();
        let mut j: usize = 0;
        while j < n - 1
            invariant
                j <= n - 1,
                n == raw_stages@.len(),
                channels@.len() == j,
            decreases n - 1 - j,
        {
            match sys_pipe() {
                Some(c) => channels.push(c),
                None => {
                    return Err(ShellError::ChannelAllocationFailed);
                },
            }
            j = j + 1;
        }
        let mut slots: Vec<Option<StagePlan>> = Vec::new();
        let mut i: usize = 0;
        while i < n
            invariant
                i <= n,
                n == raw_stages@.len(),
                n >= 1,
                channels@.len() == n - 1,
                slots@.len() == i,
                forall|k: int|
                    0 <= k < i ==> slot_ok(
                        #[trigger] slots@[k],
                        raw_stages.deep_view()[k],
                        k,
                        n as int,
                        channels@,
                    ),
            decreases n - i,
        {
            proof {
                assert(raw_stages@[i as int]@ =~= raw_stages.deep_view()[i as int]);
            }
            match parse(&raw_stages[i]) {
                Ok(cmd) => {
                    let p = stage_plan(&cmd, i, n, &channels);
                    slots.push(Some(p));
                },
                Err(_) => {
                    slots.push(None);
                },
            }
            i = i + 1;
        }
        Ok(PipelineRun { channels, slots, pids: Vec::new() })
    }

    /// The number of stages in this pipeline.
    pub fn stage_count(&self) -> (n: usize)
        ensures
            n == self.slots@.len(),
    {
        self.slots.len()
    }

    /// The plan of stage `k`, or nothing for a skipped stage.
    pub fn slot(&self, k: usize) -> (r: &Option<StagePlan>)
        requires
            k < self.slots@.len(),
        ensures
            *r == self.slots@[k as int],
    {
        &self.slots[k]
    }

    /// One channel of the pipeline, for callers that inspect the wiring.
    pub fn channel(&self, k: usize) -> (c: Channel)
        requires
            k < self.channels@.len(),
        ensures
            c == self.channels@[k as int],
    {
        self.channels[k]
    }

    /// Records the child the host spawned for some stage. A stage whose
    /// spawn failed is simply never recorded: it contributes no process
    /// to wait for, and its siblings still run.
    pub fn record_spawn(&mut self, pid: i32)
        ensures
            final(self).pids@ == old(self).pids@.push(pid),
            final(self).channels == old(self).channels,
            final(self).slots == old(self).slots,
    {
        self.pids.push(pid);
    }

    /// Ends the session: closes both endpoints of every channel in the
    /// parent, which only brokered them, then reaps the recorded children
    /// one by one. Returns how many were reaped cleanly and how many waits
    /// failed; together they account for every recorded child, so the
    /// session leaves no child unwaited-for.
    pub fn finish(self) -> (r: (usize, usize))
        ensures
            r.0 + r.1 == self.pids@.len(),
    {
        let mut k: usize = 0;
        while k < self.channels.len()
            invariant
                k <= self.channels@.len(),
            decreases self.channels@.len() - k,
        {
            let c = self.channels[k];
            sys_close(c.read_fd);
            sys_close(c.write_fd);
            k = k + 1;
        }
        let mut reaped: usize = 0;
        let mut failed: usize = 0;
        let mut w: usize = 0;
        while w < self.pids.len()
            invariant
                w <= self.pids@.len(),
                reaped + failed == w,
            decreases self.pids@.len() - w,
        {
            if sys_waitpid(self.pids[w]) {
                reaped = reaped + 1;
            } else {
                failed = failed + 1;
            }
            w = w + 1;
        }
        (reaped, failed)
    }
}

/// Channel containment across a whole session: in a prepared pipeline,
/// every stage's plan either closes a given channel endpoint or has it
/// wired to the matching standard stream — so once every child follows its
/// plan and the parent closes its own copies, no endpoint stays open in any
/// process that does not own it.
pub proof fn lemma_run_closes_channels(run: PipelineRun, raws: Seq<Seq<u8>>, s: int, k: int)
    requires
        run.wf(),
        run.slots@.len() == raws.len(),
        forall|q: int|
            0 <= q < raws.len() ==> slot_ok(
                #[trigger] run.slots@[q],
                raws[q],
                q,
                raws.len() as int,
                run.channels@,
            ),
        0 <= s < raws.len(),
        run.slots@[s] is Some,
        0 <= k < run.channels@.len(),
    ensures
        (run.slots@[s]->Some_0)@.close_fds.contains(run.channels@[k].read_fd) || (
        run.slots@[s]->Some_0)@.input == BindingView::Endpoint(run.channels@[k].read_fd as int),
        (run.slots@[s]->Some_0)@.close_fds.contains(run.channels@[k].write_fd) || (
        run.slots@[s]->Some_0)@.output == BindingView::Endpoint(run.channels@[k].write_fd as int),
{
    lemma_stage_closes_rest(
        (run.slots@[s]->Some_0)@,
        stage_command(raws[s]),
        s,
        raws.len() as int,
        run.channels@,
        k,
    );
}

/// A one-stage pipeline whose stage has no redirections runs with both
/// standard streams inherited from the caller, and no channel exists that
/// could be wired to it.
pub proof fn lemma_single_stage_run_inherits(run: PipelineRun, raw: Seq<u8>)
    requires
        run.wf(),
        run.slots@.len() == 1,
        run.slots@[0] is Some,
        slot_ok(run.slots@[0], raw, 0, 1, run.channels@),
        parsed(raw).1 is None,
        parsed(raw).2 is None,
    ensures
        run.channels@.len() == 0,
        (run.slots@[0]->Some_0)@.input == BindingView::Inherited,
        (run.slots@[0]->Some_0)@.output == BindingView::Inherited,
{
    lemma_single_stage_inherits(stage_command(raw), run.channels@);
}

/// Binds one stage's standard streams per its plan, inside the child the
/// host forked for it, and closes every channel endpoint the stage does
/// not keep. The plan already chose a file redirect over a channel
/// endpoint wherever both applied, so a redirected stream never reads or
/// writes a channel. On any failure the caller must let the child exit
/// without running the stage's program; `RedirectOpenFailed` can only
/// arise for a stage whose plan names a redirect file.
pub fn wire_stage(plan: &StagePlan, input_slot: i32, output_slot: i32) -> (r: Result<
    (),
    ShellError,
>)
    ensures
        r matches Err(e) ==> e == ShellError::RedirectOpenFailed || e == ShellError::WiringFailed,
        !(plan@.input is File) && !(plan@.output is File) ==> r != Err::<(), ShellError>(
            ShellError::RedirectOpenFailed,
        ),
        plan@.input is Inherited && plan@.output is Inherited ==> r is Ok,
{
    match &plan.input {
        Binding::Inherited => {},
        Binding::Endpoint(fd) => {
            if !sys_dup2(*fd, input_slot) {
                return Err(ShellError::WiringFailed);
            }
            if *fd != input_slot {
                sys_close(*fd);
            }
        },
        Binding::File(path) => {
            match sys_open_read(path) {
                Some(fd) => {
                    if !sys_dup2(fd, input_slot) {
                        sys_close(fd);
                        return Err(ShellError::WiringFailed);
                    }
                    if fd != input_slot {
                        sys_close(fd);
                    }
                },
                None => {
                    return Err(ShellError::RedirectOpenFailed);
                },
            }
        },
    }
    match &plan.output {
        Binding::Inherited => {},
        Binding::Endpoint(fd) => {
            if !sys_dup2(*fd, output_slot) {
                return Err(ShellError::WiringFailed);
            }
            if *fd != output_slot {
                sys_close(*fd);
            }
        },
        Binding::File(path) => {
            match sys_open_write(path) {
                Some(fd) => {
                    if !sys_dup2(fd, output_slot) {
                        sys_close(fd);
                        return Err(ShellError::WiringFailed);
                    }
                    if fd != output_slot {
                        sys_close(fd);
                    }
                },
                None => {
                    return Err(ShellError::RedirectOpenFailed);
                },
            }
        },
    }
    let mut k: usize = 0;
    while k < plan.close_fds.len()
        invariant
            k <= plan.close_fds@.len(),
        decreases plan.close_fds@.len() - k,
    {
        sys_close(plan.close_fds[k]);
        k = k + 1;
    }
    Ok(())
}

} // verus!
