//! The command line and the single-instance hand-over: parsing the arguments
//! of a launch, the arguments kept for the window, and what a job handed over
//! by a second launch turns into.
use vstd::prelude::*;
use crate::ipc::pipe_server::PipeJobSpec;
use crate::text::{starts_with_char, str_eq};

verus! {

/// What a launch was asked to do.
pub struct CliArgs {
    pub src_paths: Vec<String>,
    pub dest_dir: Option<String>,
    pub is_move: bool,
}

/// The parse state: the sources seen, the destination, the mode.
pub struct CliState {
    pub src_paths: Seq<Seq<char>>,
    pub dest_dir: Option<Seq<char>>,
    pub is_move: bool,
}

/// One step of the parse from argument `i` on: `-d`/`--dest` takes the next
/// argument as destination (and is ignored when it is last), `-m`/`--move`
/// and `-c`/`--copy` set the mode, other arguments starting with `-` are
/// ignored and the rest are sources.
pub open spec fn cli_parse_from(args: Seq<Seq<char>>, i: int, st: CliState) -> CliState
    decreases args.len() - i,
{
    if i < 0 || i >= args.len() {
        st
    } else {
        let a = args[i];
        if a == "-d"@ || a == "--dest"@ {
            if i + 1 < args.len() {
                cli_parse_from(args, i + 2, CliState { dest_dir: Some(args[i + 1]), ..st })
            } else {
                cli_parse_from(args, i + 1, st)
            }
        } else if a == "-m"@ || a == "--move"@ {
            cli_parse_from(args, i + 1, CliState { is_move: true, ..st })
        } else if a == "-c"@ || a == "--copy"@ {
            cli_parse_from(args, i + 1, CliState { is_move: false, ..st })
        } else if a.len() > 0 && a[0] == '-' {
            cli_parse_from(args, i + 1, st)
        } else {
            cli_parse_from(args, i + 1, CliState { src_paths: st.src_paths.push(a), ..st })
        }
    }
}

/// The arguments of a launch (the program name first): nothing without
/// arguments or without a source, else the sources, destination and mode.
pub open spec fn spec_parse_cli_args(args: Seq<Seq<char>>) -> Option<CliState> {
    if args.len() <= 1 {
        None
    } else {
        let st = cli_parse_from(
            args,
            1,
            CliState { src_paths: Seq::empty(), dest_dir: None, is_move: false },
        );
        if st.src_paths.len() == 0 {
            None
        } else {
            Some(st)
        }
    }
}

/// The parse from argument `j` on reads only the arguments from `j` on.
proof fn lemma_parse_reads_from(a: Seq<Seq<char>>, b: Seq<Seq<char>>, j: int, st: CliState)
    requires
        a.len() == b.len(),
        forall|k: int| j <= k < a.len() ==> a[k] == b[k],
    ensures
        cli_parse_from(a, j, st) == cli_parse_from(b, j, st),
    decreases a.len() - j,
{
    if 0 <= j < a.len() {
        let x = a[j];
        assert(b[j] == x);
        if x == "-d"@ || x == "--dest"@ {
            if j + 1 < a.len() {
                assert(b[j + 1] == a[j + 1]);
                lemma_parse_reads_from(a, b, j + 2, CliState { dest_dir: Some(a[j + 1]), ..st });
            } else {
                lemma_parse_reads_from(a, b, j + 1, st);
            }
        } else if x == "-m"@ || x == "--move"@ {
            lemma_parse_reads_from(a, b, j + 1, CliState { is_move: true, ..st });
        } else if x == "-c"@ || x == "--copy"@ {
            lemma_parse_reads_from(a, b, j + 1, CliState { is_move: false, ..st });
        } else if x.len() > 0 && x[0] == '-' {
            lemma_parse_reads_from(a, b, j + 1, st);
        } else {
            lemma_parse_reads_from(a, b, j + 1, CliState { src_paths: st.src_paths.push(x), ..st });
        }
    }
}

/// The mode flags: `-c` and `--copy` are one flag that sets copy mode, and
/// `-m` and `--move` one flag that sets move mode, wherever they are read;
/// the rest of the command line is then read as before.
pub proof fn law_mode_flags(args: Seq<Seq<char>>, i: int, st: CliState)
    requires
        0 <= i < args.len(),
    ensures
        cli_parse_from(args.update(i, "-c"@), i, st) == cli_parse_from(args.update(i, "--copy"@), i, st),
        cli_parse_from(args.update(i, "-m"@), i, st) == cli_parse_from(args.update(i, "--move"@), i, st),
        cli_parse_from(args.update(i, "--copy"@), i, st) == cli_parse_from(
            args,
            i + 1,
            CliState { is_move: false, ..st },
        ),
        cli_parse_from(args.update(i, "--move"@), i, st) == cli_parse_from(
            args,
            i + 1,
            CliState { is_move: true, ..st },
        ),
{
    reveal_strlit("-d");
    reveal_strlit("--dest");
    reveal_strlit("-m");
    reveal_strlit("--move");
    reveal_strlit("-c");
    reveal_strlit("--copy");
    let c1 = args.update(i, "-c"@);
    let c2 = args.update(i, "--copy"@);
    let m1 = args.update(i, "-m"@);
    let m2 = args.update(i, "--move"@);
    let sc = CliState { is_move: false, ..st };
    let sm = CliState { is_move: true, ..st };
    lemma_parse_reads_from(c1, args, i + 1, sc);
    lemma_parse_reads_from(c2, args, i + 1, sc);
    lemma_parse_reads_from(m1, args, i + 1, sm);
    lemma_parse_reads_from(m2, args, i + 1, sm);
    assert(c1[i] == "-c"@ && c2[i] == "--copy"@ && m1[i] == "-m"@ && m2[i] == "--move"@);
    assert("-c"@[1] != "-d"@[1] && "-c"@[1] != "-m"@[1] && "-m"@[1] != "-d"@[1]);
    assert("--copy"@[2] != "--dest"@[2] && "--copy"@[2] != "--move"@[2] && "--move"@[2] != "--dest"@[2]);
    assert("-c"@.len() == 2 && "-d"@.len() == 2 && "-m"@.len() == 2);
    assert("--copy"@.len() == 6 && "--dest"@.len() == 6 && "--move"@.len() == 6);
    assert(cli_parse_from(c1, i, st) == cli_parse_from(c1, i + 1, sc));
    assert(cli_parse_from(c2, i, st) == cli_parse_from(c2, i + 1, sc));
    assert(cli_parse_from(m1, i, st) == cli_parse_from(m1, i + 1, sm));
    assert(cli_parse_from(m2, i, st) == cli_parse_from(m2, i + 1, sm));
}

/// The destination flags: `-d` and `--dest` are one flag that takes the
/// argument after it as the destination (a later one replaces an earlier
/// one) and goes on after that argument; last on the line it is ignored. An
/// argument that is no flag and does not start with `-` is a source, kept in
/// order.
pub proof fn law_destination_and_sources(args: Seq<Seq<char>>, i: int, st: CliState)
    requires
        0 <= i < args.len(),
    ensures
        cli_parse_from(args.update(i, "-d"@), i, st) == cli_parse_from(args.update(i, "--dest"@), i, st),
        i + 1 < args.len() ==> cli_parse_from(args.update(i, "-d"@), i, st) == cli_parse_from(
            args,
            i + 2,
            CliState { dest_dir: Some(args[i + 1]), ..st },
        ),
        i + 1 == args.len() ==> cli_parse_from(args.update(i, "-d"@), i, st) == st,
        args[i].len() > 0 && args[i][0] != '-' ==> cli_parse_from(args, i, st) == cli_parse_from(
            args,
            i + 1,
            CliState { src_paths: st.src_paths.push(args[i]), ..st },
        ),
{
    reveal_strlit("-d");
    reveal_strlit("--dest");
    reveal_strlit("-m");
    reveal_strlit("--move");
    reveal_strlit("-c");
    reveal_strlit("--copy");
    let d1 = args.update(i, "-d"@);
    let d2 = args.update(i, "--dest"@);
    assert(d1[i] == "-d"@ && d2[i] == "--dest"@);
    assert("-d"@.len() == 2 && "--dest"@.len() == 6);
    if i + 1 < args.len() {
        assert(d1[i + 1] == args[i + 1] && d2[i + 1] == args[i + 1]);
        let sd = CliState { dest_dir: Some(args[i + 1]), ..st };
        lemma_parse_reads_from(d1, args, i + 2, sd);
        lemma_parse_reads_from(d2, args, i + 2, sd);
        assert(cli_parse_from(d1, i, st) == cli_parse_from(d1, i + 2, sd));
        assert(cli_parse_from(d2, i, st) == cli_parse_from(d2, i + 2, sd));
    } else {
        assert(cli_parse_from(d1, i, st) == cli_parse_from(d1, i + 1, st));
        assert(cli_parse_from(d2, i, st) == cli_parse_from(d2, i + 1, st));
    }
    if args[i].len() > 0 && args[i][0] != '-' {
        assert(args[i] != "-d"@ && args[i] != "--dest"@ && args[i] != "-m"@ && args[i] != "--move"@
            && args[i] != "-c"@ && args[i] != "--copy"@) by {
            assert("-d"@[0] == '-' && "--dest"@[0] == '-' && "-m"@[0] == '-');
            assert("--move"@[0] == '-' && "-c"@[0] == '-' && "--copy"@[0] == '-');
        }
    }
}

/// A launch whose last argument is a copy flag (read as a flag, not as the
/// destination of a `-d` before it) copies; one whose last is a move flag
/// moves.
pub proof fn law_last_mode_flag_decides(args: Seq<Seq<char>>, st: CliState)
    ensures
        !cli_parse_from(args.push("--copy"@), args.len() as int, st).is_move,
        !cli_parse_from(args.push("-c"@), args.len() as int, st).is_move,
        cli_parse_from(args.push("--move"@), args.len() as int, st).is_move,
        cli_parse_from(args.push("-m"@), args.len() as int, st).is_move,
{
    let n = args.len() as int;
    law_mode_flags(args.push("-c"@), n, st);
    law_mode_flags(args.push("-m"@), n, st);
    assert(args.push("-c"@).update(n, "--copy"@) =~= args.push("--copy"@));
    assert(args.push("-c"@).update(n, "-c"@) =~= args.push("-c"@));
    assert(args.push("-m"@).update(n, "--move"@) =~= args.push("--move"@));
    assert(args.push("-m"@).update(n, "-m"@) =~= args.push("-m"@));
}

/// The views of a list of strings.
pub open spec fn views(v: Seq<String>) -> Seq<Seq<char>> {
    v.map_values(|s: String| s@)
}

/// The parse state a parse result stands for.
pub open spec fn cli_view(a: CliArgs) -> CliState {
    CliState {
        src_paths: views(a.src_paths@),
        dest_dir: match a.dest_dir {
            Some(d) => Some(d@),
            None => None,
        },
        is_move: a.is_move,
    }
}

/// Parses the arguments of a launch.
pub fn parse_cli_args(args: &Vec<String>) -> (r: Option<CliArgs>)
    ensures
        match r {
            Some(a) => spec_parse_cli_args(views(args@)) == Some(cli_view(a)),
            None => spec_parse_cli_args(views(args@)) is None,
        },
{
    let ghost argv = views(args@);
    if args.len() <= 1 {
        return None;
    }
    let mut src_paths: Vec<String> = Vec::new();
    let mut dest_dir: Option<String> = None;
    let mut is_move = false;
    let mut i: usize = 1;
    assert(views(src_paths@) =~= Seq::<Seq<char>>::empty());
    while i < args.len()
        invariant
            1 <= i <= args@.len() + 1,
            argv == views(args@),
            cli_parse_from(
                argv,
                1,
                CliState { src_paths: Seq::empty(), dest_dir: None, is_move: false },
            ) == cli_parse_from(
                argv,
                i as int,
                CliState {
                    src_paths: views(src_paths@),
                    dest_dir: match dest_dir {
                        Some(d) => Some(d@),
                        None => None,
                    },
                    is_move,
                },
            ),
        decreases args.len() + 1 - i,
    {
        let a = args[i].as_str();
        assert(argv[i as int] == a@);
        if str_eq(a, "-d") || str_eq(a, "--dest") {
            if i + 1 < args.len() {
                assert(argv[i + 1] == args@[i + 1]@);
                dest_dir = Some(args[i + 1].clone());
                i = i + 2;
            } else {
                i = i + 1;
            }
        } else if str_eq(a, "-m") || str_eq(a, "--move") {
            is_move = true;
            i = i + 1;
        } else if str_eq(a, "-c") || str_eq(a, "--copy") {
            is_move = false;
            i = i + 1;
        } else {
            if !starts_with_char(a, '-') {
                let ghost before = src_paths@;
                src_paths.push(args[i].clone());
                proof {
                    assert(views(src_paths@) =~= views(before).push(a@));
                }
            }
            i = i + 1;
        }
    }
    if src_paths.len() == 0 {
        None
    } else {
        Some(CliArgs { src_paths, dest_dir, is_move })
    }
}

impl CliArgs {
    /// The job a launch hands over to the running instance; a launch without
    /// a destination hands over an empty one.
    pub fn to_pipe_spec(&self) -> (s: PipeJobSpec)
        ensures
            views(s.src_paths@) == views(self.src_paths@),
            s.dest_dir@ == match self.dest_dir {
                Some(d) => d@,
                None => Seq::<char>::empty(),
            },
            s.is_move == self.is_move,
    {
        let src = self.src_paths.clone();
        proof {
            assert(views(src@) =~= views(self.src_paths@)) by {
                assert forall|k: int| 0 <= k < src@.len() implies src@[k]@ == self.src_paths@[k]@ by {
                    assert(src@[k] == self.src_paths@[k]);
                }
            }
        }
        let dest_dir = match &self.dest_dir {
            Some(d) => d.clone(),
            None => String::new(),
        };
        PipeJobSpec { src_paths: src, dest_dir, is_move: self.is_move }
    }
}

/// The sources and mode a launch brought, kept until the window asks for them.
pub struct InitialArgs {
    pub src_paths: Vec<String>,
    pub is_move: bool,
}

impl InitialArgs {
    /// What a launch leaves for the window: its sources and mode, or no
    /// sources and copying when it brought no job.
    pub fn from_launch(args: &Option<CliArgs>) -> (r: InitialArgs)
        ensures
            match args {
                Some(a) => views(r.src_paths@) == views(a.src_paths@) && r.is_move == a.is_move,
                None => r.src_paths@.len() == 0 && !r.is_move,
            },
    {
        match args {
            Some(a) => {
                let src = a.src_paths.clone();
                proof {
                    assert(views(src@) =~= views(a.src_paths@)) by {
                        assert forall|k: int| 0 <= k < src@.len() implies src@[k]@ == a.src_paths@[k]@ by {
                            assert(src@[k] == a.src_paths@[k]);
                        }
                    }
                }
                InitialArgs { src_paths: src, is_move: a.is_move }
            },
            None => InitialArgs { src_paths: Vec::new(), is_move: false },
        }
    }

    /// Hands the window the kept sources and mode; the sources are handed out
    /// once, the mode stays.
    pub fn take_cli_args(&mut self) -> (r: (Vec<String>, bool))
        ensures
            views(r.0@) == views(old(self).src_paths@),
            r.1 == old(self).is_move,
            final(self).src_paths@ == Seq::<String>::empty(),
            final(self).is_move == old(self).is_move,
    {
        let src = self.src_paths.clone();
        proof {
            assert(views(src@) =~= views(old(self).src_paths@)) by {
                assert forall|k: int| 0 <= k < src@.len() implies src@[k]@ == old(self).src_paths@[k]@ by {
                    assert(src@[k] == old(self).src_paths@[k]);
                }
            }
        }
        self.src_paths.clear();
        (src, self.is_move)
    }
}

} // verus!
