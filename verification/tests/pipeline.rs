use nix::sys::resource::Resource;
use nix::sys::resource::getrlimit;
use nix::sys::resource::setrlimit;
use vssh::command::ShellError;
use vssh::executor::PipelineRun;
use vssh::executor::wire_stage;
use vssh::plan::Binding;

fn bytes(s: &str) -> Vec<u8> {
    s.as_bytes().to_vec()
}

#[test]
fn single_stage_inherits_both_streams() {
    let run = PipelineRun::begin(&vec![bytes("echo hi")]).unwrap();
    assert_eq!(run.stage_count(), 1);
    assert_eq!(run.channels.len(), 0);
    let plan = run.slot(0).clone().unwrap();
    assert_eq!(plan.argv, vec![bytes("echo"), bytes("hi")]);
    assert!(matches!(plan.input, Binding::Inherited));
    assert!(matches!(plan.output, Binding::Inherited));
    assert!(plan.close_fds.is_empty());
    assert_eq!(run.finish(), (0, 0));
}

#[test]
fn two_stages_share_one_channel() {
    let run = PipelineRun::begin(&vec![bytes("echo hi"), bytes("tr a-z A-Z")]).unwrap();
    assert_eq!(run.stage_count(), 2);
    assert_eq!(run.channels.len(), 1);
    let ch = run.channel(0);
    assert!(ch.read_fd >= 0 && ch.write_fd >= 0 && ch.read_fd != ch.write_fd);

    let first = run.slot(0).clone().unwrap();
    assert!(matches!(first.input, Binding::Inherited));
    match first.output {
        Binding::Endpoint(fd) => assert_eq!(fd, ch.write_fd),
        _ => panic!("stage 0 must write the channel"),
    }
    assert_eq!(first.close_fds, vec![ch.read_fd]);

    let second = run.slot(1).clone().unwrap();
    match second.input {
        Binding::Endpoint(fd) => assert_eq!(fd, ch.read_fd),
        _ => panic!("stage 1 must read the channel"),
    }
    assert!(matches!(second.output, Binding::Inherited));
    assert_eq!(second.close_fds, vec![ch.write_fd]);

    assert_eq!(run.finish(), (0, 0));
}

#[test]
fn middle_stage_closes_every_unrelated_endpoint() {
    let run = PipelineRun::begin(&vec![bytes("a"), bytes("b"), bytes("c")]).unwrap();
    assert_eq!(run.channels.len(), 2);
    let c0 = run.channel(0);
    let c1 = run.channel(1);

    let first = run.slot(0).clone().unwrap();
    assert_eq!(first.close_fds, vec![c0.read_fd, c1.read_fd, c1.write_fd]);

    let middle = run.slot(1).clone().unwrap();
    assert_eq!(middle.close_fds, vec![c0.write_fd, c1.read_fd]);

    let last = run.slot(2).clone().unwrap();
    assert_eq!(last.close_fds, vec![c0.read_fd, c0.write_fd, c1.write_fd]);

    run.finish();
}

#[test]
fn redirect_wins_over_channel_in_the_plan() {
    let run = PipelineRun::begin(&vec![bytes("a"), bytes("b < f.txt")]).unwrap();
    let ch = run.channel(0);
    let second = run.slot(1).clone().unwrap();
    match &second.input {
        Binding::File(p) => assert_eq!(p, &bytes("f.txt")),
        _ => panic!("explicit redirect must win over the channel"),
    }
    // the overridden read end is closed by that stage, not kept open
    assert!(second.close_fds.contains(&ch.read_fd));
    run.finish();
}

#[test]
fn stage_with_both_redirects_has_no_terminal_streams() {
    let run = PipelineRun::begin(&vec![bytes("sort < unsorted.txt > sorted.txt")]).unwrap();
    let plan = run.slot(0).clone().unwrap();
    assert_eq!(plan.argv, vec![bytes("sort")]);
    assert!(matches!(plan.input, Binding::File(_)));
    assert!(matches!(plan.output, Binding::File(_)));
    run.finish();
}

#[test]
fn no_redirect_token_never_opens_a_redirect() {
    let run = PipelineRun::begin(&vec![bytes("cat nonexistent.txt")]).unwrap();
    let plan = run.slot(0).clone().unwrap();
    assert!(matches!(plan.input, Binding::Inherited));
    assert!(matches!(plan.output, Binding::Inherited));
    // wiring such a stage touches nothing and cannot report RedirectOpenFailed
    assert!(matches!(wire_stage(&plan, 0, 1), Ok(())));
    run.finish();
}

#[test]
fn empty_line_spawns_no_process() {
    let run = PipelineRun::begin(&vec![bytes("")]).unwrap();
    assert_eq!(run.stage_count(), 1);
    assert!(run.slot(0).is_none());
    assert_eq!(run.finish(), (0, 0));
}

#[test]
fn empty_middle_stage_is_skipped_silently() {
    let run = PipelineRun::begin(&vec![bytes("echo hi"), bytes("  "), bytes("cat")]).unwrap();
    assert_eq!(run.channels.len(), 2);
    assert!(run.slot(0).is_some());
    assert!(run.slot(1).is_none());
    assert!(run.slot(2).is_some());
    run.finish();
}

#[test]
fn channel_preserves_byte_order() {
    let run = PipelineRun::begin(&vec![bytes("a"), bytes("b")]).unwrap();
    let ch = run.channel(0);
    nix::unistd::write(ch.write_fd, b"pipeline").unwrap();
    let mut buf = [0u8; 16];
    let n = nix::unistd::read(ch.read_fd, &mut buf).unwrap();
    assert_eq!(&buf[..n], b"pipeline");
    run.finish();
}

#[test]
fn finish_accounts_for_every_recorded_child() {
    let mut run = PipelineRun::begin(&vec![bytes("true")]).unwrap();
    // not a child of this process: the wait fails, but it is still attempted
    run.record_spawn(999_999_999);
    let (reaped, failed) = run.finish();
    assert_eq!(reaped + failed, 1);
    assert_eq!(reaped, 0);
}

#[test]
fn channel_allocation_failure_is_fatal_before_spawn() {
    let (soft, hard) = getrlimit(Resource::RLIMIT_NOFILE).unwrap();
    setrlimit(Resource::RLIMIT_NOFILE, 32, hard).unwrap();
    let stages: Vec<Vec<u8>> = (0..64).map(|_| bytes("cat")).collect();
    let r = PipelineRun::begin(&stages);
    setrlimit(Resource::RLIMIT_NOFILE, soft, hard).unwrap();
    assert!(matches!(r, Err(ShellError::ChannelAllocationFailed)));
}
