//! Command-line splitting and the environment list handed to a user
//! program.

use vstd::prelude::*;

verus! {

/// The space byte, which separates arguments outside quotes.
pub const ARG_SEP: u8 = 32;

/// The double-quote byte, which toggles quoting.
pub const ARG_QUOTE: u8 = 34;

/// The state-machine splitting of a command line, scanning from `i` with
/// the quote state, the start of the argument in progress, and the
/// arguments already taken: a quote byte toggles quoting, a space outside
/// quotes ends the argument in progress (an empty one is dropped), and the
/// trailing argument is taken at the end.
pub open spec fn spec_split_args(
    s: Seq<u8>,
    i: int,
    in_quote: bool,
    start: int,
    acc: Seq<Seq<u8>>,
) -> Seq<Seq<u8>>
    decreases s.len() - i,
{
    if i < 0 || i >= s.len() {
        if start != s.len() {
            acc.push(s.subrange(start, s.len() as int))
        } else {
            acc
        }
    } else {
        let q = if s[i] == ARG_QUOTE {
            !in_quote
        } else {
            in_quote
        };
        if s[i] == ARG_SEP && !q {
            if start != i {
                spec_split_args(s, i + 1, q, i + 1, acc.push(s.subrange(start, i)))
            } else {
                spec_split_args(s, i + 1, q, i + 1, acc)
            }
        } else {
            spec_split_args(s, i + 1, q, start, acc)
        }
    }
}

/// The arguments of a command line.
pub open spec fn spec_args_of(s: Seq<u8>) -> Seq<Seq<u8>> {
    spec_split_args(s, 0, false, 0, Seq::<Seq<u8>>::empty())
}

/// Copy one range of a byte slice.
fn bytes_range(s: &[u8], from: usize, to: usize) -> (r: Vec<u8>)
    requires
        from <= to <= s@.len(),
    ensures
        r@ == s@.subrange(from as int, to as int),
{
    let mut r: Vec<u8> = Vec::new();
    let mut i: usize = from;
    while i < to
        invariant
            from <= i <= to <= s@.len(),
            r@ == s@.subrange(from as int, i as int),
        decreases to - i,
    {
        r.push(s[i]);
        proof {
            assert(r@ =~= s@.subrange(from as int, i + 1));
        }
        i = i + 1;
    }
    r
}

/// Split a command line into arguments: space-separated, with double
/// quotes protecting spaces, and empty arguments dropped.
pub fn get_args(command_line: &[u8]) -> (args: Vec<Vec<u8>>)
    ensures
        args@.map_values(|v: Vec<u8>| v@) == spec_args_of(command_line@),
{
    let ghost s = command_line@;
    let mut args: Vec<Vec<u8>> = Vec::new();
    let mut in_quote = false;
    let mut arg_start: usize = 0;
    let mut pos: usize = 0;
    proof {
        assert(args@.map_values(|v: Vec<u8>| v@) =~= Seq::<Seq<u8>>::empty());
    }
    while pos < command_line.len()
        invariant
            s == command_line@,
            arg_start <= pos <= s.len(),
            spec_args_of(s) == spec_split_args(
                s,
                pos as int,
                in_quote,
                arg_start as int,
                args@.map_values(|v: Vec<u8>| v@),
            ),
        decreases s.len() - pos,
    {
        let ghost acc0 = args@.map_values(|v: Vec<u8>| v@);
        if command_line[pos] == ARG_QUOTE {
            in_quote = !in_quote;
        }
        if command_line[pos] == ARG_SEP && !in_quote {
            if arg_start != pos {
                let piece = bytes_range(command_line, arg_start, pos);
                args.push(piece);
                proof {
                    assert(args@.map_values(|v: Vec<u8>| v@) =~= acc0.push(
                        s.subrange(arg_start as int, pos as int),
                    ));
                }
            }
            arg_start = pos + 1;
        }
        pos = pos + 1;
    }
    if arg_start != command_line.len() {
        let ghost acc0 = args@.map_values(|v: Vec<u8>| v@);
        let piece = bytes_range(command_line, arg_start, command_line.len());
        args.push(piece);
        proof {
            assert(args@.map_values(|v: Vec<u8>| v@) =~= acc0.push(
                s.subrange(arg_start as int, s.len() as int),
            ));
        }
    }
    args
}

/// The environment handed to a user program: the fixed toolchain
/// variables, then either the contents of the environment file the caller
/// read, or the default search path when there is none.
pub fn get_envs(environment_file: Option<String>) -> (envs: Vec<String>)
    ensures
        envs@.len() == 10,
        envs@[0]@ == "SHLVL=1"@,
        envs@[1]@ == "PWD=/"@,
        envs@[2]@ == "GCC_EXEC_PREFIX=/riscv64-linux-musl-native/bin/../lib/gcc/"@,
        envs@[3]@ == "COLLECT_GCC=./riscv64-linux-musl-native/bin/riscv64-linux-musl-gcc"@,
        envs@[4]@
            == "COLLECT_LTO_WRAPPER=/riscv64-linux-musl-native/bin/../libexec/gcc/riscv64-linux-musl/11.2.1/lto-wrapper"@,
        envs@[5]@
            == "COLLECT_GCC_OPTIONS='-march=rv64gc' '-mabi=lp64d' '-march=rv64imafdc' '-dumpdir' 'a.'"@,
        envs@[6]@ == "LIBRARY_PATH=/lib/"@,
        envs@[7]@ == "LD_LIBRARY_PATH=/lib/"@,
        envs@[8]@ == "LD_DEBUG=files"@,
        environment_file matches Some(content) ==> envs@[9]@ == content@,
        environment_file is None ==> envs@[9]@ == "PATH=/usr/sbin:/usr/bin:/sbin:/bin"@,
{
    let mut envs: Vec<String> = Vec::new();
    envs.push("SHLVL=1".to_owned());
    envs.push("PWD=/".to_owned());
    envs.push("GCC_EXEC_PREFIX=/riscv64-linux-musl-native/bin/../lib/gcc/".to_owned());
    envs.push("COLLECT_GCC=./riscv64-linux-musl-native/bin/riscv64-linux-musl-gcc".to_owned());
    envs.push(
        "COLLECT_LTO_WRAPPER=/riscv64-linux-musl-native/bin/../libexec/gcc/riscv64-linux-musl/11.2.1/lto-wrapper".to_owned(),
    );
    envs.push(
        "COLLECT_GCC_OPTIONS='-march=rv64gc' '-mabi=lp64d' '-march=rv64imafdc' '-dumpdir' 'a.'".to_owned(),
    );
    envs.push("LIBRARY_PATH=/lib/".to_owned());
    envs.push("LD_LIBRARY_PATH=/lib/".to_owned());
    envs.push("LD_DEBUG=files".to_owned());
    match environment_file {
        Some(content) => envs.push(content),
        None => envs.push("PATH=/usr/sbin:/usr/bin:/sbin:/bin".to_owned()),
    }
    envs
}

} // verus!
