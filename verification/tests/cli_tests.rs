use copytej::ipc::pipe_server::{route_pipe_job, PipeAction, PipeJobSpec};
use copytej::{parse_cli_args, InitialArgs};

fn args(v: &[&str]) -> Vec<String> {
    v.iter().map(|s| s.to_string()).collect()
}

#[test]
fn no_arguments_no_job() {
    assert!(parse_cli_args(&args(&["copytej"])).is_none());
    assert!(parse_cli_args(&args(&[])).is_none());
    assert!(parse_cli_args(&args(&["copytej", "-m", "--dest", "D:\\x"])).is_none());
}

#[test]
fn sources_destination_and_mode() {
    let a = parse_cli_args(&args(&["copytej", "a.txt", "-d", "D:\\out", "b", "--move", "-x"])).unwrap();
    assert_eq!(a.src_paths, args(&["a.txt", "b"]));
    assert_eq!(a.dest_dir, Some("D:\\out".to_string()));
    assert!(a.is_move);
    let b = parse_cli_args(&args(&["copytej", "-m", "a", "-c", "--dest"])).unwrap();
    assert_eq!(b.src_paths, args(&["a"]));
    assert_eq!(b.dest_dir, None);
    assert!(!b.is_move);
    let c = parse_cli_args(&args(&["copytej", "--dest", "x", "--dest", "y", "s"])).unwrap();
    assert_eq!(c.dest_dir, Some("y".to_string()));
}

#[test]
fn initial_arguments_are_handed_out_once() {
    let mut init = InitialArgs { src_paths: args(&["a", "b"]), is_move: true };
    assert_eq!(init.take_cli_args(), (args(&["a", "b"]), true));
    assert_eq!(init.take_cli_args(), (args(&[]), true));
}

#[test]
fn pipe_jobs_without_destination_are_configured() {
    match route_pipe_job(PipeJobSpec { src_paths: args(&["a"]), dest_dir: String::new(), is_move: true }) {
        PipeAction::Configure { src_paths, is_move } => {
            assert_eq!(src_paths, args(&["a"]));
            assert!(is_move);
        }
        PipeAction::AddJob { .. } => panic!("no destination"),
    }
    match route_pipe_job(PipeJobSpec { src_paths: args(&["a"]), dest_dir: "D:\\".to_string(), is_move: false }) {
        PipeAction::AddJob { src_paths, dest_dir, is_move } => {
            assert_eq!(src_paths, args(&["a"]));
            assert_eq!(dest_dir, "D:\\");
            assert!(!is_move);
        }
        PipeAction::Configure { .. } => panic!("has a destination"),
    }
}

#[test]
fn a_launch_hands_over_its_job_and_leaves_its_sources() {
    let a = parse_cli_args(&args(&["copytej", "a", "b", "--move"])).unwrap();
    let spec = a.to_pipe_spec();
    assert_eq!(spec.src_paths, args(&["a", "b"]));
    assert_eq!(spec.dest_dir, "");
    assert!(spec.is_move);
    let d = parse_cli_args(&args(&["copytej", "a", "-d", "E:\\dst"])).unwrap();
    assert_eq!(d.to_pipe_spec().dest_dir, "E:\\dst");

    let kept = InitialArgs::from_launch(&Some(a));
    assert_eq!(kept.src_paths, args(&["a", "b"]));
    assert!(kept.is_move);
    let none = InitialArgs::from_launch(&None);
    assert!(none.src_paths.is_empty());
    assert!(!none.is_move);
}
