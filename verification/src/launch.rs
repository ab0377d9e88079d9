//! What to run, in which environment, and how to open the file to record into.

use vstd::prelude::*;
use crate::error::Error;

verus! {

/// The shell that runs the recorded command, and the command recorded when
/// neither the user nor the environment names one.
pub const DEFAULT_SHELL: &'static str = "/bin/sh";

/// The option that makes the shell take its command from the next argument.
pub const SHELL_COMMAND_FLAG: &'static str = "-c";

/// The command that a session records: the one the user asked for, else the
/// user's shell, else `/bin/sh`.
pub open spec fn spec_recorded_command(command: Option<String>, shell: Option<String>) -> Seq<char> {
    match command {
        Some(c) => c@,
        None => match shell {
            Some(s) => s@,
            None => DEFAULT_SHELL@,
        },
    }
}

/// The argument vector of the child: always `/bin/sh`, `-c` and the
/// recorded command, which is `command` if the user gave one, else `shell`
/// (the value of `SHELL`) if it is set, else `/bin/sh`.
pub fn build_exec_args(command: Option<String>, shell: Option<String>) -> (args: Vec<String>)
    ensures
        args@.len() == 3,
        args@[0]@ == DEFAULT_SHELL@,
        args@[1]@ == SHELL_COMMAND_FLAG@,
        args@[2]@ == spec_recorded_command(command, shell),
{
    let recorded: String = match command {
        Some(c) => c,
        None => match shell {
            Some(s) => s,
            None => DEFAULT_SHELL.to_owned(),
        },
    };
    let mut args: Vec<String> = Vec::new();
    args.push(DEFAULT_SHELL.to_owned());
    args.push(SHELL_COMMAND_FLAG.to_owned());
    args.push(recorded);
    args
}

/// The byte `=`, which separates a variable's name from its value.
pub const EQUALS: u8 = 61;

/// The byte `,`, which separates the names in a list of variables.
pub const COMMA: u8 = 44;

/// The entry `ASCIINEMA_REC=1`, by which a child can tell that it is being recorded.
pub open spec fn recording_marker() -> Seq<u8> {
    seq![65u8, 83u8, 67u8, 73u8, 73u8, 78u8, 69u8, 77u8, 65u8, 95u8, 82u8, 69u8, 67u8, 61u8, 49u8]
}

/// One entry of an environment block: the key, `=`, the value.
pub open spec fn spec_format_env_var(key: Seq<u8>, value: Seq<u8>) -> Seq<u8> {
    key + seq![EQUALS] + value
}

/// One entry of an environment block: `key`, then `=`, then `value`.
pub fn format_env_var(key: &[u8], value: &[u8]) -> (entry: Vec<u8>)
    ensures
        entry@ == spec_format_env_var(key@, value@),
{
    let mut entry: Vec<u8> = Vec::new();
    entry.extend_from_slice(key);
    entry.push(EQUALS);
    entry.extend_from_slice(value);
    assert(entry@ =~= spec_format_env_var(key@, value@));
    entry
}

/// The entry `ASCIINEMA_REC=1`.
pub fn recording_marker_entry() -> (entry: Vec<u8>)
    ensures
        entry@ == recording_marker(),
{
    let mut entry: Vec<u8> = Vec::new();
    entry.push(65);
    entry.push(83);
    entry.push(67);
    entry.push(73);
    entry.push(73);
    entry.push(78);
    entry.push(69);
    entry.push(77);
    entry.push(65);
    entry.push(95);
    entry.push(82);
    entry.push(69);
    entry.push(67);
    entry.push(61);
    entry.push(49);
    assert(entry@ =~= recording_marker());
    entry
}

/// The child's environment: every variable of the parent's, in the order
/// given, as `key=value`, and `ASCIINEMA_REC=1` after them.
pub fn build_exec_env(vars: &Vec<(Vec<u8>, Vec<u8>)>) -> (env: Vec<Vec<u8>>)
    ensures
        env@.len() == vars@.len() + 1,
        forall|i: int|
            0 <= i < vars@.len() ==> (#[trigger] env@[i])@ == spec_format_env_var(
                vars@[i].0@,
                vars@[i].1@,
            ),
        env@[vars@.len() as int]@ == recording_marker(),
{
    let mut env: Vec<Vec<u8>> = Vec::new();
    let mut i: usize = 0;
    while i < vars.len()
        invariant
            i <= vars@.len(),
            env@.len() == i,
            forall|k: int|
                0 <= k < i ==> (#[trigger] env@[k])@ == spec_format_env_var(
                    vars@[k].0@,
                    vars@[k].1@,
                ),
        decreases vars@.len() - i,
    {
        let entry: Vec<u8> = format_env_var(vars[i].0.as_slice(), vars[i].1.as_slice());
        env.push(entry);
        i = i + 1;
    }
    env.push(recording_marker_entry());
    env
}

/// Whether `names[from..to]` is one whole entry of the comma-separated list `names`.
pub open spec fn is_entry(names: Seq<u8>, from: int, to: int) -> bool {
    &&& 0 <= from <= to <= names.len()
    &&& from == 0 || names[from - 1] == COMMA
    &&& to == names.len() || names[to] == COMMA
    &&& forall|k: int| from <= k < to ==> names[k] != COMMA
}

/// Whether `key` is one of the entries of the comma-separated list `names`.
pub open spec fn listed(names: Seq<u8>, key: Seq<u8>) -> bool {
    exists|from: int, to: int| #[trigger] is_entry(names, from, to) && names.subrange(from, to) == key
}

/// Whether `names[from..to]` equals `key`.
fn entry_equals(names: &[u8], from: usize, to: usize, key: &[u8]) -> (b: bool)
    requires
        from <= to <= names@.len(),
    ensures
        b == (names@.subrange(from as int, to as int) == key@),
{
    if to - from != key.len() {
        return false;
    }
    let mut k: usize = 0;
    while k < key.len()
        invariant
            from <= to <= names@.len(),
            to - from == key@.len(),
            k <= key@.len(),
            forall|j: int| 0 <= j < k ==> names@[from + j] == key@[j],
        decreases key@.len() - k,
    {
        if names[from + k] != key[k] {
            assert(names@.subrange(from as int, to as int)[k as int] != key@[k as int]);
            return false;
        }
        k = k + 1;
    }
    assert(names@.subrange(from as int, to as int) =~= key@);
    true
}

/// Whether `key` is one of the entries of the comma-separated list `names`.
/// The empty list has one entry, the empty name.
pub fn is_listed(names: &[u8], key: &[u8]) -> (b: bool)
    ensures
        b == listed(names@, key@),
{
    let mut from: usize = 0;
    loop
        invariant
            from <= names@.len(),
            from == 0 || names@[from - 1] == COMMA,
            forall|f: int, t: int|
                0 <= f < from && #[trigger] is_entry(names@, f, t) ==> names@.subrange(f, t)
                    != key@,
        decreases names@.len() - from,
    {
        let mut to: usize = from;
        while to < names.len() && names[to] != COMMA
            invariant
                from <= to <= names@.len(),
                forall|k: int| from <= k < to ==> names@[k] != COMMA,
            decreases names@.len() - to,
        {
            to = to + 1;
        }
        assert(is_entry(names@, from as int, to as int));
        if entry_equals(names, from, to, key) {
            return true;
        }
        assert forall|t: int| #[trigger] is_entry(names@, from as int, t) implies t == to by {
            if t < to {
                assert(names@[t] != COMMA);
            } else if t > to {
                assert(names@[to as int] == COMMA);
            }
        }
        if to == names.len() {
            assert forall|f: int, t: int| #[trigger] is_entry(names@, f, t) implies names@.subrange(
                f,
                t,
            ) != key@ by {
                if f > from {
                    assert(names@[f - 1] != COMMA);
                }
            }
            return false;
        }
        assert forall|f: int, t: int|
            0 <= f < to + 1 && #[trigger] is_entry(names@, f, t) implies names@.subrange(f, t)
            != key@ by {
            if f > from {
                assert(names@[f - 1] != COMMA);
            }
        }
        from = to + 1;
    }
}

/// The variables to keep with a recording: those of `vars` whose name is an
/// entry of the comma-separated list `names`, in the order of `vars`.
pub fn capture_env(names: &[u8], vars: &Vec<(Vec<u8>, Vec<u8>)>) -> (kept: Vec<(Vec<u8>, Vec<u8>)>)
    ensures
        kept@.map_values(|v: (Vec<u8>, Vec<u8>)| (v.0@, v.1@)) == vars@.map_values(
            |v: (Vec<u8>, Vec<u8>)| (v.0@, v.1@),
        ).filter(|v: (Seq<u8>, Seq<u8>)| listed(names@, v.0)),
{
    let ghost view = |v: (Vec<u8>, Vec<u8>)| (v.0@, v.1@);
    let ghost wanted = |v: (Seq<u8>, Seq<u8>)| listed(names@, v.0);
    let mut kept: Vec<(Vec<u8>, Vec<u8>)> = Vec::new();
    let mut i: usize = 0;
    proof {
        assert(vars@.take(0).map_values(view) =~= Seq::<(Seq<u8>, Seq<u8>)>::empty());
        assert(kept@.map_values(view) =~= Seq::<(Seq<u8>, Seq<u8>)>::empty());
    }
    while i < vars.len()
        invariant
            i <= vars@.len(),
            view == |v: (Vec<u8>, Vec<u8>)| (v.0@, v.1@),
            wanted == |v: (Seq<u8>, Seq<u8>)| listed(names@, v.0),
            kept@.map_values(view) == vars@.take(i as int).map_values(view).filter(wanted),
        decreases vars@.len() - i,
    {
        let keep: bool = is_listed(names, vars[i].0.as_slice());
        proof {
            let done = vars@.take(i as int).map_values(view);
            let more = vars@.take(i + 1).map_values(view);
            assert(more =~= done.push(view(vars@[i as int])));
            lemma_filter_push(done, view(vars@[i as int]), wanted);
        }
        if keep {
            let key: Vec<u8> = vars[i].0.clone();
            let value: Vec<u8> = vars[i].1.clone();
            assert(key@ == vars@[i as int].0@ && value@ == vars@[i as int].1@);
            proof {
                assert(kept@.push((key, value)).map_values(view) =~= kept@.map_values(view).push(
                    view(vars@[i as int]),
                ));
            }
            kept.push((key, value));
        }
        i = i + 1;
    }
    assert(vars@.take(vars@.len() as int) =~= vars@);
    kept
}

/// Filtering a sequence with one more element keeps that element if and only if it is wanted.
proof fn lemma_filter_push<A>(s: Seq<A>, a: A, wanted: spec_fn(A) -> bool)
    ensures
        s.push(a).filter(wanted) == if wanted(a) {
            s.filter(wanted).push(a)
        } else {
            s.filter(wanted)
        },
{
    reveal(Seq::filter);
    assert(s.push(a).drop_last() =~= s);
}

/// How the file to record into is to be opened.
#[derive(Clone, Copy, Debug, PartialEq, Eq, Structural)]
pub enum OutputMode {
    /// Create the file; it must not exist yet.
    CreateNew,
    /// Create the file or empty it, and begin a new recording.
    Overwrite,
    /// Add to the recording that the file holds, without a new header.
    Append,
}

/// How the destination is opened, or that it may not be.
pub open spec fn spec_output_mode(exists: bool, size: u64, append: bool, overwrite: bool) -> Result<
    OutputMode,
    Error,
> {
    if !exists {
        if overwrite {
            Ok(OutputMode::Overwrite)
        } else {
            Ok(OutputMode::CreateNew)
        }
    } else if size == 0 || overwrite {
        Ok(OutputMode::Overwrite)
    } else if append {
        Ok(OutputMode::Append)
    } else {
        Err(Error::FileConflict)
    }
}

/// Decides how to open the destination. A file that does not exist is
/// created, and so nothing is appended to it; one that exists and is empty
/// is treated as if overwriting had been asked for; one that exists and
/// holds something is overwritten or appended to as asked, and is a
/// `FileConflict` if neither was asked for. Asking for both is not allowed.
pub fn output_mode(exists: bool, size: u64, append: bool, overwrite: bool) -> (r: Result<
    OutputMode,
    Error,
>)
    requires
        !(append && overwrite),
    ensures
        r == spec_output_mode(exists, size, append, overwrite),
        r is Err <==> exists && size > 0 && !append && !overwrite,
        r is Err ==> r == Err::<OutputMode, Error>(Error::FileConflict),
        r == Ok::<OutputMode, Error>(OutputMode::Append) <==> exists && size > 0 && append,
{
    if !exists {
        if overwrite {
            Ok(OutputMode::Overwrite)
        } else {
            Ok(OutputMode::CreateNew)
        }
    } else if size == 0 || overwrite {
        Ok(OutputMode::Overwrite)
    } else if append {
        Ok(OutputMode::Append)
    } else {
        Err(Error::FileConflict)
    }
}

} // verus!
