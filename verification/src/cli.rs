//! The command line of the console program:
//! `[options] <Target Path> <Link Path> [Home name]`, with `-f`/`--force` as the option.
use vstd::prelude::*;
use crate::text::{chars_of, str_eq, strings_view};
use crate::winpath::{has_disk, has_root, spec_has_root, spec_prefix};

verus! {

/// What the command line asks for.
pub struct CliArgs {
    /// `-f` or `--force` came before the first positional argument.
    pub force: bool,
    /// Where the positional arguments start (index into the arguments, the program name at 0).
    pub arg_index: usize,
    /// The target path, when the command line gives it.
    pub target: Option<String>,
    /// The link path, when the command line gives it.
    pub link: Option<String>,
    /// The name of the home directory under the link path.
    pub home_name: String,
}

/// An argument that starts with `-` is an option.
pub open spec fn is_option(a: Seq<char>) -> bool {
    a.len() > 0 && a[0] == '-'
}

/// The first argument at or after `i` that is not an option, or the number of arguments.
pub open spec fn first_positional(args: Seq<Seq<char>>, i: int) -> int
    decreases args.len() - i,
{
    if i >= args.len() {
        args.len() as int
    } else if i >= 0 && !is_option(args[i]) {
        i
    } else {
        first_positional(args, i + 1)
    }
}

/// Where the positional arguments start: at the first non-option after the program name,
/// or at 1 when every argument is an option.
pub open spec fn spec_arg_index(args: Seq<Seq<char>>) -> int {
    let p = first_positional(args, 1);
    if p < args.len() {
        p
    } else {
        1
    }
}

/// Some option before the first positional argument is `-f` or `--force`.
pub open spec fn spec_force(args: Seq<Seq<char>>) -> bool {
    exists|j: int|
        1 <= j < first_positional(args, 1) && (#[trigger] args[j] == "-f"@ || args[j]
            == "--force"@)
}

/// The argument at `i`, when there is one.
pub open spec fn arg_at(args: Seq<Seq<char>>, i: int) -> Option<Seq<char>> {
    if 0 <= i < args.len() {
        Some(args[i])
    } else {
        None
    }
}

/// The home directory's name: the positional argument after the link path, else `.home`.
pub open spec fn spec_home_name(args: Seq<Seq<char>>) -> Seq<char> {
    match arg_at(args, spec_arg_index(args) + 2) {
        Some(name) => name,
        None => ".home"@,
    }
}

pub open spec fn opt_view(o: Option<String>) -> Option<Seq<char>> {
    match o {
        Some(s) => Some(s@),
        None => None,
    }
}

fn starts_with_dash(a: &str) -> (r: bool)
    ensures
        r == is_option(a@),
{
    let v = chars_of(a);
    v.len() > 0 && v[0] == '-'
}

proof fn lemma_first_positional_bounds(args: Seq<Seq<char>>, i: int)
    requires
        0 <= i <= args.len(),
    ensures
        i <= first_positional(args, i) <= args.len(),
        forall|j: int| i <= j < first_positional(args, i) ==> is_option(#[trigger] args[j]),
        first_positional(args, i) < args.len() ==> !is_option(args[first_positional(args, i)]),
    decreases args.len() - i,
{
    if i < args.len() && is_option(args[i]) {
        lemma_first_positional_bounds(args, i + 1);
    }
}

/// Reads the command line `args` (the program name first) as the console program does.
pub fn parse_cli_args(args: &Vec<String>) -> (r: CliArgs)
    ensures
        r.force == spec_force(strings_view(args@)),
        r.arg_index == spec_arg_index(strings_view(args@)),
        opt_view(r.target) == arg_at(strings_view(args@), r.arg_index as int),
        opt_view(r.link) == arg_at(strings_view(args@), r.arg_index + 1),
        r.home_name@ == spec_home_name(strings_view(args@)),
{
    let ghost view = strings_view(args@);
    let mut force = false;
    let mut i: usize = 1;
    let mut found = false;
    proof {
        if args.len() >= 1 {
            lemma_first_positional_bounds(view, 1);
        }
    }
    while i < args.len()
        invariant_except_break
            1 <= i <= args@.len() || (i == 1 && args@.len() == 0),
            !found,
            first_positional(view, 1) == first_positional(view, i as int),
            forall|j: int| 1 <= j < i ==> is_option(#[trigger] view[j]),
            force == exists|j: int|
                1 <= j < i && (#[trigger] view[j] == "-f"@ || view[j] == "--force"@),
        invariant
            view == strings_view(args@),
        ensures
            found ==> (1 <= i < args@.len() && first_positional(view, 1) == i),
            !found ==> first_positional(view, 1) == args@.len(),
            force == exists|j: int|
                1 <= j < first_positional(view, 1) && (#[trigger] view[j] == "-f"@ || view[j]
                    == "--force"@),
        decreases args@.len() - i,
    {
        let a = args[i].as_str();
        assert(a@ == view[i as int]);
        if starts_with_dash(a) {
            if str_eq(a, "-f") || str_eq(a, "--force") {
                force = true;
            }
            i = i + 1;
        } else {
            found = true;
            break;
        }
    }
    let arg_index = if found {
        i
    } else {
        1
    };
    let target = if arg_index < args.len() {
        Some(args[arg_index].clone())
    } else {
        None
    };
    let link = if args.len() > arg_index && args.len() - arg_index > 1 {
        Some(args[arg_index + 1].clone())
    } else {
        None
    };
    let home_name = if args.len() > arg_index && args.len() - arg_index > 2 {
        args[arg_index + 2].clone()
    } else {
        ".home".to_owned()
    };
    CliArgs { force, arg_index, target, link, home_name }
}

/// The shape that the console program asks of a link path: it starts with a prefix such as
/// `X:` and it has a root, as in `X:\\work`.
pub fn link_path_has_disk_and_root(lpath: &str) -> (r: bool)
    requires
        lpath@.len() > 0,
    ensures
        r == (spec_prefix(lpath@) is Some && spec_has_root(lpath@)),
{
    has_disk(lpath) && has_root(lpath)
}

/// How a command line reads: the program name, then options (arguments that start with
/// `-`), then the positional arguments. Replacing the link path is asked for exactly when
/// one of the options is `-f` or `--force`; the positional arguments are, in order, the
/// target path, the link path and the home name, and the home name is `.home` when the
/// command line gives none.
pub proof fn lemma_cli_reading(prog: Seq<char>, opts: Seq<Seq<char>>, pos: Seq<Seq<char>>)
    requires
        forall|i: int| 0 <= i < opts.len() ==> is_option(#[trigger] opts[i]),
        pos.len() > 0 ==> !is_option(pos[0]),
    ensures
        ({
            let args = seq![prog] + opts + pos;
            &&& spec_force(args) == exists|i: int|
                0 <= i < opts.len() && (#[trigger] opts[i] == "-f"@ || opts[i] == "--force"@)
            &&& pos.len() > 0 ==> {
                &&& spec_arg_index(args) == opts.len() + 1
                &&& arg_at(args, spec_arg_index(args)) == Some(pos[0])
                &&& arg_at(args, spec_arg_index(args) + 1) == if pos.len() > 1 {
                    Some(pos[1])
                } else {
                    None
                }
                &&& spec_home_name(args) == if pos.len() > 2 {
                    pos[2]
                } else {
                    ".home"@
                }
            }
        }),
{
    let args = seq![prog] + opts + pos;
    let n: int = opts.len() + 1int;
    assert forall|j: int| 1 <= j < n implies #[trigger] args[j] == opts[j - 1] by {}
    assert forall|j: int| 0 <= j < pos.len() implies #[trigger] args[n + j] == pos[j] by {}
    lemma_first_positional_bounds(args, 1);
    let p = first_positional(args, 1);
    if p < n {
        assert(is_option(opts[p - 1]));
        assert(args[p] == opts[p - 1]);
    }
    if p > n {
        assert(is_option(args[n]));
        assert(args[n] == pos[0]);
    }
    assert(p == n);
    if exists|i: int| 0 <= i < opts.len() && (#[trigger] opts[i] == "-f"@ || opts[i] == "--force"@) {
        let i = choose|i: int| 0 <= i < opts.len() && (#[trigger] opts[i] == "-f"@ || opts[i] == "--force"@);
        assert(args[i + 1] == opts[i]);
    }
    if spec_force(args) {
        let j = choose|j: int|
            1 <= j < first_positional(args, 1) && (#[trigger] args[j] == "-f"@ || args[j]
                == "--force"@);
        assert(opts[j - 1] == args[j]);
    }
}

} // verus!
