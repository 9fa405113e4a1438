//! The wiring planner: pure, verified decisions about which descriptor each
//! pipeline stage receives as its standard input and output, and which
//! channel endpoints it must close before running its program.

use crate::command::Command;
use crate::command::CommandView;
use crate::command::copy_token;
use vstd::prelude::*;

verus! {

/// One inter-stage channel: the descriptors of its read end and its write
/// end, as handed out by the kernel.
#[derive(Clone, Copy, PartialEq, Eq, Structural, Debug)]
pub struct Channel {
    pub read_fd: i32,
    pub write_fd: i32,
}

/// Where one standard stream of a stage comes from or goes to.
#[derive(Clone)]
pub enum Binding {
    /// The caller's own stream, inherited unchanged.
    Inherited,
    /// A channel endpoint, to be duplicated onto the standard stream.
    Endpoint(i32),
    /// A named file, opened in the stream's mode; a file wins over a
    /// channel endpoint when both apply to the same stream.
    File(Vec<u8>),
}

/// The mathematical shadow of a [`Binding`].
pub enum BindingView {
    Inherited,
    Endpoint(int),
    File(Seq<u8>),
}

impl View for Binding {
    type V = BindingView;

    open spec fn view(&self) -> BindingView {
        match self {
            Binding::Inherited => BindingView::Inherited,
            Binding::Endpoint(fd) => BindingView::Endpoint(*fd as int),
            Binding::File(p) => BindingView::File(p@),
        }
    }
}

/// The standard-input binding of stage `i`: an explicit file redirect wins;
/// otherwise any stage but the first reads the channel before it; the first
/// stage inherits the caller's input.
pub open spec fn effective_input(c: CommandView, i: int, chs: Seq<Channel>) -> BindingView {
    match c.input_redirect {
        Some(p) => BindingView::File(p),
        None => if i > 0 {
            BindingView::Endpoint(chs[i - 1].read_fd as int)
        } else {
            BindingView::Inherited
        },
    }
}

/// The standard-output binding of stage `i` of `n`: an explicit file
/// redirect wins; otherwise any stage but the last writes the channel after
/// it; the last stage inherits the caller's output.
pub open spec fn effective_output(c: CommandView, i: int, n: int, chs: Seq<Channel>) -> BindingView {
    match c.output_redirect {
        Some(p) => BindingView::File(p),
        None => if i < n - 1 {
            BindingView::Endpoint(chs[i].write_fd as int)
        } else {
            BindingView::Inherited
        },
    }
}

/// True when stage `i` keeps the read end of the channel before it wired to
/// its standard input.
pub open spec fn keeps_read(c: CommandView, i: int) -> bool {
    i > 0 && c.input_redirect is None
}

/// True when stage `i` of `n` keeps the write end of the channel after it
/// wired to its standard output.
pub open spec fn keeps_write(c: CommandView, i: int, n: int) -> bool {
    i < n - 1 && c.output_redirect is None
}

/// The closure list over the first `j` channels: both endpoints of every
/// channel, except the read end of channel `kr` and the write end of
/// channel `kw`, which the stage keeps.
pub open spec fn close_model(chs: Seq<Channel>, j: int, kr: Option<int>, kw: Option<int>) -> Seq<
    i32,
>
    decreases j,
{
    if j <= 0 {
        Seq::<i32>::empty()
    } else {
        close_model(chs, j - 1, kr, kw) + (if kr == Some(j - 1) {
            Seq::<i32>::empty()
        } else {
            seq![chs[j - 1].read_fd]
        }) + (if kw == Some(j - 1) {
            Seq::<i32>::empty()
        } else {
            seq![chs[j - 1].write_fd]
        })
    }
}

/// The read end a stage keeps, as a channel index, or `None`.
pub open spec fn kept_read(c: CommandView, i: int) -> Option<int> {
    if keeps_read(c, i) {
        Some(i - 1)
    } else {
        None
    }
}

/// The write end a stage keeps, as a channel index, or `None`.
pub open spec fn kept_write(c: CommandView, i: int, n: int) -> Option<int> {
    if keeps_write(c, i, n) {
        Some(i)
    } else {
        None
    }
}

/// Everything a stage needs at spawn time: its argument vector, the
/// bindings of its two standard streams, and the channel endpoints it must
/// close before running its program.
#[derive(Clone)]
pub struct StagePlan {
    pub argv: Vec<Vec<u8>>,
    pub input: Binding,
    pub output: Binding,
    pub close_fds: Vec<i32>,
}

/// The mathematical shadow of a [`StagePlan`].
pub struct StagePlanView {
    pub argv: Seq<Seq<u8>>,
    pub input: BindingView,
    pub output: BindingView,
    pub close_fds: Seq<i32>,
}

impl View for StagePlan {
    type V = StagePlanView;

    open spec fn view(&self) -> StagePlanView {
        StagePlanView {
            argv: self.argv.deep_view(),
            input: self.input@,
            output: self.output@,
            close_fds: self.close_fds@,
        }
    }
}

/// What a correct plan for stage `i` of `n` says, given the parsed command
/// and the channel table.
pub open spec fn plan_ok(
    p: StagePlanView,
    c: CommandView,
    i: int,
    n: int,
    chs: Seq<Channel>,
) -> bool {
    &&& p.argv == c.argv
    &&& p.input == effective_input(c, i, chs)
    &&& p.output == effective_output(c, i, n, chs)
    &&& p.close_fds == close_model(chs, chs.len() as int, kept_read(c, i), kept_write(c, i, n))
}

/// A single stage with no redirections keeps the caller's inherited
/// standard input and standard output unchanged.
pub proof fn lemma_single_stage_inherits(c: CommandView, chs: Seq<Channel>)
    requires
        c.input_redirect is None,
        c.output_redirect is None,
    ensures
        effective_input(c, 0, chs) == BindingView::Inherited,
        effective_output(c, 0, 1, chs) == BindingView::Inherited,
{
}

/// Redirection precedence: a stage with an explicit input redirect reads
/// from that file and never from a channel endpoint, whatever its position
/// in the pipeline; symmetrically for output.
pub proof fn lemma_redirect_precedence(c: CommandView, i: int, n: int, chs: Seq<Channel>)
    ensures
        c.input_redirect is Some ==> effective_input(c, i, chs) == BindingView::File(
            c.input_redirect->Some_0,
        ),
        c.output_redirect is Some ==> effective_output(c, i, n, chs) == BindingView::File(
            c.output_redirect->Some_0,
        ),
{
}

proof fn lemma_close_model_covers(
    chs: Seq<Channel>,
    j: int,
    k: int,
    kr: Option<int>,
    kw: Option<int>,
)
    requires
        0 <= k < j <= chs.len(),
    ensures
        kr != Some(k) ==> close_model(chs, j, kr, kw).contains(chs[k].read_fd),
        kw != Some(k) ==> close_model(chs, j, kr, kw).contains(chs[k].write_fd),
    decreases j,
{
    let prev = close_model(chs, j - 1, kr, kw);
    let rpart: Seq<i32> = if kr == Some(j - 1) {
        Seq::<i32>::empty()
    } else {
        seq![chs[j - 1].read_fd]
    };
    let wpart: Seq<i32> = if kw == Some(j - 1) {
        Seq::<i32>::empty()
    } else {
        seq![chs[j - 1].write_fd]
    };
    if k == j - 1 {
        if kr != Some(k) {
            assert((prev + rpart + wpart)[prev.len() as int] == chs[k].read_fd);
        }
        if kw != Some(k) {
            assert((prev + rpart + wpart)[prev.len() + rpart.len() as int] == chs[k].write_fd);
        }
    } else {
        lemma_close_model_covers(chs, j - 1, k, kr, kw);
        if kr != Some(k) {
            let w = choose|w: int| 0 <= w < prev.len() && prev[w] == chs[k].read_fd;
            assert((prev + rpart + wpart)[w] == chs[k].read_fd);
        }
        if kw != Some(k) {
            let w = choose|w: int| 0 <= w < prev.len() && prev[w] == chs[k].write_fd;
            assert((prev + rpart + wpart)[w] == chs[k].write_fd);
        }
    }
}

/// Closure completeness: under a correct plan for stage `i`, both endpoints
/// of every channel either stand in that stage's closure list or are the
/// one endpoint the stage keeps wired to the corresponding stream. Applied
/// to every stage, this is what makes each channel fully closed in every
/// process that does not own one of its two ends.
pub proof fn lemma_stage_closes_rest(
    p: StagePlanView,
    c: CommandView,
    i: int,
    n: int,
    chs: Seq<Channel>,
    k: int,
)
    requires
        plan_ok(p, c, i, n, chs),
        0 <= k < chs.len(),
    ensures
        p.close_fds.contains(chs[k].read_fd) || kept_read(c, i) == Some(k),
        p.close_fds.contains(chs[k].write_fd) || kept_write(c, i, n) == Some(k),
        kept_read(c, i) == Some(k) ==> p.input == BindingView::Endpoint(chs[k].read_fd as int),
        kept_write(c, i, n) == Some(k) ==> p.output == BindingView::Endpoint(
            chs[k].write_fd as int,
        ),
{
    lemma_close_model_covers(chs, chs.len() as int, k, kept_read(c, i), kept_write(c, i, n));
}

/// The parent never keeps an endpoint: its closure list, the one computed
/// with nothing kept, holds both endpoints of every channel.
pub proof fn lemma_parent_closes_all(chs: Seq<Channel>, k: int)
    requires
        0 <= k < chs.len(),
    ensures
        close_model(chs, chs.len() as int, None, None).contains(chs[k].read_fd),
        close_model(chs, chs.len() as int, None, None).contains(chs[k].write_fd),
{
    lemma_close_model_covers(chs, chs.len() as int, k, None, None);
}

fn copy_argv(argv: &Vec<Vec<u8>>) -> (r: Vec<Vec<u8>>)
    ensures
        r.deep_view() == argv.deep_view(),
{
    let mut r: Vec<Vec<u8>> = Vec::new();
    let mut i: usize = 0;
    while i < argv.len()
        invariant
            i <= argv@.len(),
            r.deep_view() == argv.deep_view().take(i as int),
        decreases argv@.len() - i,
    {
        let ghost old_r = r.deep_view();
        r.push(copy_token(&argv[i]));
        proof {
            assert(r.deep_view() =~~= old_r.push(argv.deep_view()[i as int]));
            assert(r.deep_view() =~~= argv.deep_view().take(i as int + 1));
        }
        i = i + 1;
    }
    proof {
        assert(argv.deep_view().take(i as int) =~~= argv.deep_view());
    }
    r
}

/// Computes the plan for stage `i` of `n`: effective stream bindings (file
/// redirect over channel endpoint over inherited stream) and the complete
/// closure list of every channel endpoint the stage does not keep.
pub fn stage_plan(cmd: &Command, i: usize, n: usize, channels: &Vec<Channel>) -> (p: StagePlan)
    requires
        n >= 1,
        i < n,
        channels@.len() == n - 1,
    ensures
        plan_ok(p@, cmd@, i as int, n as int, channels@),
{
    let input: Binding = match &cmd.input_redirect {
        Some(p) => {
            proof {
                assert(p@ =~= p.deep_view());
            }
            Binding::File(copy_token(p))
        },
        None => {
            if i > 0 {
                Binding::Endpoint(channels[i - 1].read_fd)
            } else {
                Binding::Inherited
            }
        },
    };
    let output: Binding = match &cmd.output_redirect {
        Some(p) => {
            proof {
                assert(p@ =~= p.deep_view());
            }
            Binding::File(copy_token(p))
        },
        None => {
            if i < n - 1 {
                Binding::Endpoint(channels[i].write_fd)
            } else {
                Binding::Inherited
            }
        },
    };
    let keep_r = i > 0 && cmd.input_redirect.is_none();
    let keep_w = i < n - 1 && cmd.output_redirect.is_none();
    let ghost kr = kept_read(cmd@, i as int);
    let ghost kw = kept_write(cmd@, i as int, n as int);
    let mut close_fds: Vec<i32> = Vec::new();
    let mut j: usize = 0;
    while j < channels.len()
        invariant
            j <= channels@.len(),
            keep_r == keeps_read(cmd@, i as int),
            keep_w == keeps_write(cmd@, i as int, n as int),
            kr == kept_read(cmd@, i as int),
            kw == kept_write(cmd@, i as int, n as int),
            i < n,
            close_fds@ == close_model(channels@, j as int, kr, kw),
        decreases channels@.len() - j,
    {
        if !(keep_r && j + 1 == i) {
            close_fds.push(channels[j].read_fd);
        }
        if !(keep_w && j == i) {
            close_fds.push(channels[j].write_fd);
        }
        proof {
            assert(close_fds@ =~= close_model(channels@, j as int + 1, kr, kw));
        }
        j = j + 1;
    }
    StagePlan { argv: copy_argv(&cmd.argv), input, output, close_fds }
}

} // verus!
