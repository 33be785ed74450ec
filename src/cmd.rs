use vstd::prelude::*;

verus! {

/// The sub-command chosen on the command line.
#[derive(PartialEq, Eq, Structural, Clone, Copy, Debug)]
pub enum CmdType {
    Init,
    Run,
    Clean,
    Help,
}

/// The command named by the first argument after the program name, if any.
/// Each command has a one-letter short form; anything else asks for help.
pub open spec fn command_of(arg: Option<Seq<char>>) -> CmdType {
    match arg {
        None => CmdType::Help,
        Some(s) => if s == seq!['i'] || s == seq!['i', 'n', 'i', 't'] {
            CmdType::Init
        } else if s == seq!['r'] || s == seq!['r', 'u', 'n'] {
            CmdType::Run
        } else if s == seq!['c'] || s == seq!['c', 'l', 'e', 'a', 'n'] {
            CmdType::Clean
        } else {
            CmdType::Help
        },
    }
}

/// Character-wise equality of two strings.
pub fn text_equals(a: &str, b: &str) -> (r: bool)
    ensures
        r == (a@ == b@),
{
    let n = a.unicode_len();
    let m = b.unicode_len();
    if n != m {
        return false;
    }
    let mut i: usize = 0;
    while i < n
        invariant
            n == a@.len(),
            m == b@.len(),
            n == m,
            i <= n,
            a@.subrange(0, i as int) == b@.subrange(0, i as int),
        decreases n - i,
    {
        if a.get_char(i) != b.get_char(i) {
            return false;
        }
        assert(a@.subrange(0, i + 1) == a@.subrange(0, i as int).push(a@[i as int]));
        assert(b@.subrange(0, i + 1) == b@.subrange(0, i as int).push(b@[i as int]));
        i = i + 1;
    }
    assert(a@ == a@.subrange(0, n as int));
    assert(b@ == b@.subrange(0, n as int));
    true
}

/// The characters of an optional argument.
pub open spec fn arg_text(arg: Option<&str>) -> Option<Seq<char>> {
    match arg {
        None => None,
        Some(s) => Some(s@),
    }
}

/// Decides the command from the first argument after the program name.
pub fn parse_command(arg: Option<&str>) -> (r: CmdType)
    ensures
        r == command_of(arg_text(arg)),
{
    proof {
        reveal_strlit("i");
        reveal_strlit("init");
        reveal_strlit("r");
        reveal_strlit("run");
        reveal_strlit("c");
        reveal_strlit("clean");
        assert("i"@ =~= seq!['i']);
        assert("init"@ =~= seq!['i', 'n', 'i', 't']);
        assert("r"@ =~= seq!['r']);
        assert("run"@ =~= seq!['r', 'u', 'n']);
        assert("c"@ =~= seq!['c']);
        assert("clean"@ =~= seq!['c', 'l', 'e', 'a', 'n']);
    }
    match arg {
        None => CmdType::Help,
        Some(s) => {
            if text_equals(s, "i") || text_equals(s, "init") {
                CmdType::Init
            } else if text_equals(s, "r") || text_equals(s, "run") {
                CmdType::Run
            } else if text_equals(s, "c") || text_equals(s, "clean") {
                CmdType::Clean
            } else {
                CmdType::Help
            }
        },
    }
}

} // verus!
