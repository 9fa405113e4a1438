//! The stage parser: turns one raw pipeline stage (a byte string) into a
//! structured command — argument vector plus optional input and output file
//! redirections.

use vstd::prelude::*;

verus! {

/// The shell core's error taxonomy. The parser and the session produce the
/// first two; the wiring step produces `RedirectOpenFailed` and
/// `WiringFailed`; `SpawnFailed`, `ExecFailed` and `WaitFailed` are reported
/// by the host-facing driver, which shares this vocabulary.
#[derive(Clone, Copy, PartialEq, Eq, Structural, Debug)]
pub enum ShellError {
    /// A stage had no argument tokens once redirections were stripped.
    /// Intentionally a no-op for the caller, never reported to the user.
    EmptyCommand,
    /// The kernel could not create an inter-stage channel; fatal to the
    /// whole pipeline attempt, before anything was spawned.
    ChannelAllocationFailed,
    /// The host could not create a child process; that stage contributes
    /// no process, sibling stages still run.
    SpawnFailed,
    /// A redirect file could not be opened; fatal to that one child only.
    RedirectOpenFailed,
    /// Binding a descriptor onto a standard stream failed; fatal to that
    /// one child only, which exits without running its program.
    WiringFailed,
    /// The target program could not be located or run; fatal to that one
    /// child only.
    ExecFailed,
    /// Reaping one child's termination status failed; the remaining
    /// children are still reaped.
    WaitFailed,
}

/// The bytes treated as token separators: space, tab, line feed, carriage
/// return.
pub open spec fn is_space(b: u8) -> bool {
    b == 32 || b == 9 || b == 10 || b == 13
}

/// The token list of `rest`, given that the (possibly empty) word `cur` was
/// already read immediately before `rest` begins. Words are maximal runs of
/// non-separator bytes.
pub open spec fn tokens_from(cur: Seq<u8>, rest: Seq<u8>) -> Seq<Seq<u8>>
    decreases rest.len(),
{
    if rest.len() == 0 {
        if cur.len() == 0 {
            Seq::<Seq<u8>>::empty()
        } else {
            seq![cur]
        }
    } else if is_space(rest[0]) {
        if cur.len() == 0 {
            tokens_from(Seq::<u8>::empty(), rest.drop_first())
        } else {
            seq![cur] + tokens_from(Seq::<u8>::empty(), rest.drop_first())
        }
    } else {
        tokens_from(cur.push(rest[0]), rest.drop_first())
    }
}

/// The whitespace-separated tokens of `s`, in order.
pub open spec fn tokens(s: Seq<u8>) -> Seq<Seq<u8>> {
    tokens_from(Seq::<u8>::empty(), s)
}

/// The input-redirection operator token `<`.
pub open spec fn in_op() -> Seq<u8> {
    seq![60u8]
}

/// The output-redirection operator token `>`.
pub open spec fn out_op() -> Seq<u8> {
    seq![62u8]
}

/// What scanning a token list left to right yields: the tokens that remain
/// as arguments, the input redirect and the output redirect. An operator
/// followed by a token consumes both and records the follower (a later
/// occurrence wins); a trailing operator with no follower stays in place as
/// a literal argument.
pub open spec fn scanned(ts: Seq<Seq<u8>>) -> (Seq<Seq<u8>>, Option<Seq<u8>>, Option<Seq<u8>>)
    decreases ts.len(),
{
    if ts.len() == 0 {
        (Seq::<Seq<u8>>::empty(), None::<Seq<u8>>, None::<Seq<u8>>)
    } else if ts[0] == in_op() && ts.len() >= 2 {
        let r = scanned(ts.skip(2));
        (r.0, if r.1 is Some { r.1 } else { Some(ts[1]) }, r.2)
    } else if ts[0] == out_op() && ts.len() >= 2 {
        let r = scanned(ts.skip(2));
        (r.0, r.1, if r.2 is Some { r.2 } else { Some(ts[1]) })
    } else {
        let r = scanned(ts.skip(1));
        (seq![ts[0]] + r.0, r.1, r.2)
    }
}

/// What parsing one raw stage yields: its token list after redirection
/// stripping, and the two recorded redirect paths.
pub open spec fn parsed(s: Seq<u8>) -> (Seq<Seq<u8>>, Option<Seq<u8>>, Option<Seq<u8>>) {
    scanned(tokens(s))
}

fn is_space_byte(b: u8) -> (r: bool)
    ensures
        r == is_space(b),
{
    b == 32 || b == 9 || b == 10 || b == 13
}

/// Splits a raw stage into its whitespace-separated tokens.
pub fn tokenize(raw: &Vec<u8>) -> (r: Vec<Vec<u8>>)
    ensures
        r.deep_view() == tokens(raw@),
{
    let mut toks: Vec<Vec<u8>> = Vec::new();
    let mut cur: Vec<u8> = Vec::new();
    let mut i: usize = 0;
    proof {
        assert(raw@.skip(0) =~= raw@);
        assert(toks.deep_view() + tokens_from(cur@, raw@) =~~= tokens(raw@));
    }
    while i < raw.len()
        invariant
            i <= raw@.len(),
            toks.deep_view() + tokens_from(cur@, raw@.skip(i as int)) == tokens(raw@),
        decreases raw@.len() - i,
    {
        let b = raw[i];
        proof {
            assert(raw@.skip(i as int).drop_first() =~= raw@.skip(i as int + 1));
            assert(raw@.skip(i as int)[0] == raw@[i as int]);
        }
        if is_space_byte(b) {
            if cur.len() > 0 {
                let ghost old_toks = toks.deep_view();
                let ghost word = cur@;
                toks.push(cur);
                cur = Vec::new();
                proof {
                    let rest = tokens_from(Seq::<u8>::empty(), raw@.skip(i as int + 1));
                    assert(tokens_from(word, raw@.skip(i as int)) == seq![word] + rest);
                    assert(toks.deep_view() =~~= old_toks.push(word));
                    assert(old_toks.push(word) + rest =~~= old_toks + (seq![word] + rest));
                    assert(toks.deep_view() + tokens_from(cur@, raw@.skip(i as int + 1))
                        == tokens(raw@));
                }
            } else {
                proof {
                    assert(cur@ =~= Seq::<u8>::empty());
                    assert(tokens_from(cur@, raw@.skip(i as int))
                        == tokens_from(cur@, raw@.skip(i as int + 1)));
                }
            }
        } else {
            let ghost old_cur = cur@;
            cur.push(b);
            proof {
                assert(tokens_from(old_cur, raw@.skip(i as int))
                    == tokens_from(cur@, raw@.skip(i as int + 1)));
            }
        }
        i = i + 1;
    }
    proof {
        assert(raw@.skip(i as int) =~= Seq::<u8>::empty());
    }
    if cur.len() > 0 {
        let ghost old_toks = toks.deep_view();
        let ghost word = cur@;
        toks.push(cur);
        proof {
            assert(toks.deep_view() =~~= old_toks.push(word));
            assert(old_toks.push(word) =~~= old_toks + seq![word]);
        }
    }
    toks
}

/// A parsed stage: the argument vector (the executable is argument 0) and
/// the optional input and output redirect paths, all as byte strings.
pub struct Command {
    pub argv: Vec<Vec<u8>>,
    pub input_redirect: Option<Vec<u8>>,
    pub output_redirect: Option<Vec<u8>>,
}

/// The mathematical shadow of a [`Command`].
pub struct CommandView {
    pub argv: Seq<Seq<u8>>,
    pub input_redirect: Option<Seq<u8>>,
    pub output_redirect: Option<Seq<u8>>,
}

impl View for Command {
    type V = CommandView;

    open spec fn view(&self) -> CommandView {
        CommandView {
            argv: self.argv.deep_view(),
            input_redirect: self.input_redirect.deep_view(),
            output_redirect: self.output_redirect.deep_view(),
        }
    }
}

impl Command {
    /// A command is well formed when its argument vector is non-empty, so
    /// that it names an executable.
    pub open spec fn wf(self) -> bool {
        self@.argv.len() > 0
    }
}

fn is_op_token(t: &Vec<u8>, op: u8) -> (r: bool)
    ensures
        r == (t@ == seq![op]),
{
    if t.len() == 1 {
        let b = t[0];
        if b == op {
            proof {
                assert(t@ =~= seq![op]);
            }
            true
        } else {
            false
        }
    } else {
        false
    }
}

pub(crate) fn copy_token(t: &Vec<u8>) -> (r: Vec<u8>)
    ensures
        r@ == t@,
{
    let r = t.clone();
    proof {
        assert(r@ =~= t@);
    }
    r
}

/// Parses one raw stage: splits it on whitespace, strips the redirection
/// operators together with their following tokens (a later redirect of the
/// same kind wins; a trailing operator with no follower stays as a literal
/// argument), and keeps the rest as the argument vector. A stage with no
/// arguments left is reported as `EmptyCommand`, which callers treat as a
/// silent no-op.
pub fn parse(raw: &Vec<u8>) -> (r: Result<Command, ShellError>)
    ensures
        r is Ok <==> parsed(raw@).0.len() > 0,
        r matches Err(e) ==> e == ShellError::EmptyCommand,
        r matches Ok(c) ==> c@.argv == parsed(raw@).0 && c@.input_redirect == parsed(raw@).1
            && c@.output_redirect == parsed(raw@).2 && c.wf(),
{
    let toks = tokenize(raw);
    let ghost td = toks.deep_view();
    let mut args: Vec<Vec<u8>> = Vec::new();
    let mut infile: Option<Vec<u8>> = None;
    let mut outfile: Option<Vec<u8>> = None;
    let mut i: usize = 0;
    proof {
        assert(td.skip(0) =~= td);
        assert(args.deep_view() + scanned(td).0 =~= scanned(td).0);
    }
    while i < toks.len()
        invariant
            i <= toks@.len(),
            td == toks.deep_view(),
            args.deep_view() + scanned(td.skip(i as int)).0 == scanned(td).0,
            (if scanned(td.skip(i as int)).1 is Some {
                scanned(td.skip(i as int)).1
            } else {
                infile.deep_view()
            }) == scanned(td).1,
            (if scanned(td.skip(i as int)).2 is Some {
                scanned(td.skip(i as int)).2
            } else {
                outfile.deep_view()
            }) == scanned(td).2,
        decreases toks@.len() - i,
    {
        proof {
            assert(td[i as int] =~= toks@[i as int]@);
            assert(td.skip(i as int)[0] == td[i as int]);
        }
        let is_in = is_op_token(&toks[i], 60);
        let is_out = is_op_token(&toks[i], 62);
        if is_in && i + 1 < toks.len() {
            infile = Some(copy_token(&toks[i + 1]));
            proof {
                assert(td.skip(i as int).skip(2) =~= td.skip(i as int + 2));
                assert(td.skip(i as int)[1] == td[i as int + 1]);
                assert(infile.deep_view() == Some(td[i as int + 1]));
            }
            i = i + 2;
        } else if is_out && i + 1 < toks.len() {
            outfile = Some(copy_token(&toks[i + 1]));
            proof {
                assert(td.skip(i as int).skip(2) =~= td.skip(i as int + 2));
                assert(td.skip(i as int)[1] == td[i as int + 1]);
                assert(outfile.deep_view() == Some(td[i as int + 1]));
            }
            i = i + 2;
        } else {
            let ghost old_args = args.deep_view();
            args.push(copy_token(&toks[i]));
            proof {
                assert(td.skip(i as int).skip(1) =~= td.skip(i as int + 1));
                assert(args.deep_view() =~~= old_args.push(td[i as int]));
                assert(old_args.push(td[i as int]) + scanned(td.skip(i as int + 1)).0 =~~= old_args
                    + (seq![td[i as int]] + scanned(td.skip(i as int + 1)).0));
            }
            i = i + 1;
        }
    }
    proof {
        assert(td.skip(i as int) =~= Seq::<Seq<u8>>::empty());
        assert(args.deep_view() + scanned(td.skip(i as int)).0 =~= args.deep_view());
    }
    if args.len() == 0 {
        Err(ShellError::EmptyCommand)
    } else {
        Ok(Command { argv: args, input_redirect: infile, output_redirect: outfile })
    }
}

} // verus!
