//! Launch plans for the two services.
//!
//! Each service is started with a preferred launcher and a fallback: `uv`
//! when it is on the path, otherwise `python3` or `python` driving the
//! module directly. The strategies are tried in that fixed order and the
//! first available one wins; when none is available the caller records the
//! error. The lookup of an executable on the path happens outside the
//! crate; its raw output is reduced to a path here.

use vstd::prelude::*;
use vstd::string::StringExecFns;

verus! {

/// A fully decided way to start one service: the launcher executable and
/// its arguments, run in the engine directory with piped standard streams.
#[derive(Debug)]
pub struct LaunchCommand {
    pub program: String,
    pub args: Vec<String>,
}

/// The argument texts of a built argument list.
pub open spec fn args_view(args: Seq<String>) -> Seq<Seq<char>> {
    args.map_values(|s: String| s@)
}

/// Engine arguments under `uv`: serve the application module locally.
pub open spec fn engine_args_uv() -> Seq<Seq<char>> {
    seq!["run"@, "uvicorn"@, "src.main:app"@, "--host"@, "127.0.0.1"@, "--port"@, "8001"@]
}

/// Engine arguments under a Python interpreter.
pub open spec fn engine_args_python() -> Seq<Seq<char>> {
    seq!["-m"@, "uvicorn"@, "src.main:app"@, "--host"@, "127.0.0.1"@, "--port"@, "8001"@]
}

/// Proxy arguments under `uv`.
pub open spec fn litellm_args_uv() -> Seq<Seq<char>> {
    seq!["run"@, "litellm"@, "--config"@, "litellm_config.yaml"@, "--port"@, "4000"@]
}

/// Proxy arguments under a Python interpreter.
pub open spec fn litellm_args_python() -> Seq<Seq<char>> {
    seq!["-m"@, "litellm"@, "--config"@, "litellm_config.yaml"@, "--port"@, "4000"@]
}

/// The message recorded when no launcher is available at all.
pub open spec fn no_launcher_message() -> Seq<char> {
    "Neither uv nor python found on PATH"@
}

fn engine_uv_args() -> (v: Vec<String>)
    ensures
        args_view(v@) == engine_args_uv(),
{
    let mut v: Vec<String> = Vec::new();
    v.push(String::from_str("run"));
    v.push(String::from_str("uvicorn"));
    v.push(String::from_str("src.main:app"));
    v.push(String::from_str("--host"));
    v.push(String::from_str("127.0.0.1"));
    v.push(String::from_str("--port"));
    v.push(String::from_str("8001"));
    proof {
        assert(args_view(v@) =~= engine_args_uv());
    }
    v
}

fn engine_python_args() -> (v: Vec<String>)
    ensures
        args_view(v@) == engine_args_python(),
{
    let mut v: Vec<String> = Vec::new();
    v.push(String::from_str("-m"));
    v.push(String::from_str("uvicorn"));
    v.push(String::from_str("src.main:app"));
    v.push(String::from_str("--host"));
    v.push(String::from_str("127.0.0.1"));
    v.push(String::from_str("--port"));
    v.push(String::from_str("8001"));
    proof {
        assert(args_view(v@) =~= engine_args_python());
    }
    v
}

fn litellm_uv_args() -> (v: Vec<String>)
    ensures
        args_view(v@) == litellm_args_uv(),
{
    let mut v: Vec<String> = Vec::new();
    v.push(String::from_str("run"));
    v.push(String::from_str("litellm"));
    v.push(String::from_str("--config"));
    v.push(String::from_str("litellm_config.yaml"));
    v.push(String::from_str("--port"));
    v.push(String::from_str("4000"));
    proof {
        assert(args_view(v@) =~= litellm_args_uv());
    }
    v
}

fn litellm_python_args() -> (v: Vec<String>)
    ensures
        args_view(v@) == litellm_args_python(),
{
    let mut v: Vec<String> = Vec::new();
    v.push(String::from_str("-m"));
    v.push(String::from_str("litellm"));
    v.push(String::from_str("--config"));
    v.push(String::from_str("litellm_config.yaml"));
    v.push(String::from_str("--port"));
    v.push(String::from_str("4000"));
    proof {
        assert(args_view(v@) =~= litellm_args_python());
    }
    v
}

/// Decide how to start the cognitive engine, given which launchers the
/// caller found on the path: `uv` first, then `python3`, then `python`;
/// with none of them the start fails with a recorded message.
pub fn engine_launch_plan(uv: Option<String>, python3: Option<String>, python: Option<String>) -> (r:
    Result<LaunchCommand, String>)
    ensures
        (uv matches Some(u) ==> (r matches Ok(c) && c.program@ == u@ && args_view(c.args@)
            == engine_args_uv())),
        (python3 matches Some(p) ==> (uv is None ==> (r matches Ok(c) && c.program@ == p@
            && args_view(c.args@) == engine_args_python()))),
        (python matches Some(p) ==> (uv is None && python3 is None ==> (r matches Ok(c)
            && c.program@ == p@ && args_view(c.args@) == engine_args_python()))),
        (uv is None && python3 is None && python is None ==> (r matches Err(m) && m@
            == no_launcher_message())),
{
    match uv {
        Some(u) => Ok(LaunchCommand { program: u, args: engine_uv_args() }),
        None => {
            let interpreter = match python3 {
                Some(p) => p,
                None => match python {
                    Some(p) => p,
                    None => {
                        return Err(String::from_str("Neither uv nor python found on PATH"));
                    },
                },
            };
            Ok(LaunchCommand { program: interpreter, args: engine_python_args() })
        },
    }
}

/// Decide how to start the LiteLLM proxy, with the same launcher order as
/// for the engine.
pub fn litellm_launch_plan(uv: Option<String>, python3: Option<String>, python: Option<String>) -> (
    r: Result<LaunchCommand, String>)
    ensures
        (uv matches Some(u) ==> (r matches Ok(c) && c.program@ == u@ && args_view(c.args@)
            == litellm_args_uv())),
        (python3 matches Some(p) ==> (uv is None ==> (r matches Ok(c) && c.program@ == p@
            && args_view(c.args@) == litellm_args_python()))),
        (python matches Some(p) ==> (uv is None && python3 is None ==> (r matches Ok(c)
            && c.program@ == p@ && args_view(c.args@) == litellm_args_python()))),
        (uv is None && python3 is None && python is None ==> (r matches Err(m) && m@
            == no_launcher_message())),
{
    match uv {
        Some(u) => Ok(LaunchCommand { program: u, args: litellm_uv_args() }),
        None => {
            let interpreter = match python3 {
                Some(p) => p,
                None => match python {
                    Some(p) => p,
                    None => {
                        return Err(String::from_str("Neither uv nor python found on PATH"));
                    },
                },
            };
            Ok(LaunchCommand { program: interpreter, args: litellm_python_args() })
        },
    }
}

/// Bytes the path lookup treats as spacing when it trims its output.
pub open spec fn ascii_blank(b: u8) -> bool {
    b == 32 || b == 9 || b == 10 || b == 11 || b == 12 || b == 13
}

/// Length of the first output line: everything before the first newline.
pub open spec fn line_len(s: Seq<u8>) -> int
    decreases s.len(),
{
    if s.len() == 0 {
        0
    } else if s[0] == 10 {
        0
    } else {
        1 + line_len(s.skip(1))
    }
}

/// The first output line itself.
pub open spec fn first_line(s: Seq<u8>) -> Seq<u8> {
    s.take(line_len(s))
}

/// The text with leading spacing removed.
pub open spec fn trim_front(s: Seq<u8>) -> Seq<u8>
    decreases s.len(),
{
    if s.len() > 0 && ascii_blank(s[0]) {
        trim_front(s.skip(1))
    } else {
        s
    }
}

/// The text with trailing spacing removed.
pub open spec fn trim_back(s: Seq<u8>) -> Seq<u8>
    decreases s.len(),
{
    if s.len() > 0 && ascii_blank(s[s.len() - 1]) {
        trim_back(s.take(s.len() - 1))
    } else {
        s
    }
}

/// What the path lookup keeps of the tool's raw output: its first line,
/// stripped of surrounding spacing. Empty when the tool printed nothing.
pub open spec fn trimmed_first_line(s: Seq<u8>) -> Seq<u8> {
    trim_back(trim_front(first_line(s)))
}

/// `line_len` is exactly the position with no newline before it and a
/// newline at it (or the whole length, with no newline at all).
proof fn lemma_line_len_is(s: Seq<u8>, e: int)
    requires
        0 <= e <= s.len(),
        forall|j: int| 0 <= j < e ==> s[j] != 10,
        e < s.len() ==> s[e] == 10,
    ensures
        line_len(s) == e,
    decreases e,
{
    if s.len() == 0 || e == 0 {
    } else {
        assert(forall|j: int| 0 <= j < e - 1 ==> s.skip(1)[j] == s[j + 1]);
        lemma_line_len_is(s.skip(1), e - 1);
    }
}

/// `trim_front` drops exactly the run of leading spacing.
proof fn lemma_trim_front_is(s: Seq<u8>, a: int)
    requires
        0 <= a <= s.len(),
        forall|j: int| 0 <= j < a ==> ascii_blank(s[j]),
        a < s.len() ==> !ascii_blank(s[a]),
    ensures
        trim_front(s) == s.skip(a),
    decreases a,
{
    if a == 0 {
        assert(s.skip(0) =~= s);
    } else {
        assert(forall|j: int| 0 <= j < a - 1 ==> s.skip(1)[j] == s[j + 1]);
        lemma_trim_front_is(s.skip(1), a - 1);
        assert(s.skip(1).skip(a - 1) =~= s.skip(a));
    }
}

/// `trim_back` drops exactly the run of trailing spacing.
proof fn lemma_trim_back_is(s: Seq<u8>, b: int)
    requires
        0 <= b <= s.len(),
        forall|j: int| b <= j < s.len() ==> ascii_blank(s[j]),
        b > 0 ==> !ascii_blank(s[b - 1]),
    ensures
        trim_back(s) == s.take(b),
    decreases s.len(),
{
    if b == s.len() {
        assert(s.take(b) =~= s);
    } else {
        assert(ascii_blank(s[s.len() - 1]));
        let t = s.take(s.len() - 1);
        assert(forall|j: int| b <= j < t.len() ==> t[j] == s[j]);
        assert(b > 0 ==> t[b - 1] == s[b - 1]);
        lemma_trim_back_is(t, b);
        assert(t.take(b) =~= s.take(b));
    }
}

/// Whether a byte counts as spacing.
fn is_blank_byte(b: u8) -> (r: bool)
    ensures
        r == ascii_blank(b),
{
    b == 32 || b == 9 || b == 10 || b == 11 || b == 12 || b == 13
}

/// Reduce the path lookup's raw output to the executable path it names:
/// the first line, stripped of surrounding spacing — empty when the tool
/// printed nothing usable.
pub fn first_line_trimmed(out: &Vec<u8>) -> (r: Vec<u8>)
    ensures
        r@ == trimmed_first_line(out@),
{
    let n = out.len();
    let mut e: usize = 0;
    while e < n && out[e] != 10
        invariant
            e <= n == out@.len(),
            forall|j: int| 0 <= j < e ==> out@[j] != 10,
        decreases n - e,
    {
        e = e + 1;
    }
    proof {
        lemma_line_len_is(out@, e as int);
    }
    let ghost line = first_line(out@);
    proof {
        assert(line =~= out@.take(e as int));
    }
    let mut a: usize = 0;
    while a < e && is_blank_byte(out[a])
        invariant
            a <= e <= out@.len(),
            line == out@.take(e as int),
            forall|j: int| 0 <= j < a ==> ascii_blank(#[trigger] line[j]),
        decreases e - a,
    {
        proof {
            assert(line[a as int] == out@[a as int]);
        }
        a = a + 1;
    }
    proof {
        if a < e {
            assert(line[a as int] == out@[a as int]);
        }
        lemma_trim_front_is(line, a as int);
    }
    let ghost rest = line.skip(a as int);
    let mut b: usize = e;
    while b > a && is_blank_byte(out[b - 1])
        invariant
            a <= b <= e <= out@.len(),
            line == out@.take(e as int),
            rest == line.skip(a as int),
            forall|j: int| b - a <= j < rest.len() ==> ascii_blank(#[trigger] rest[j]),
        decreases b,
    {
        proof {
            assert(rest[b - 1 - a] == out@[b - 1]);
        }
        b = b - 1;
    }
    proof {
        if b > a {
            assert(rest[b - 1 - a] == out@[b - 1]);
        }
        lemma_trim_back_is(rest, b - a);
    }
    let mut r: Vec<u8> = Vec::new();
    let mut k: usize = a;
    while k < b
        invariant
            a <= k <= b <= out@.len(),
            r@.len() == k - a,
            forall|j: int| 0 <= j < k - a ==> r@[j] == out@[a + j],
        decreases b - k,
    {
        r.push(out[k]);
        k = k + 1;
    }
    proof {
        assert(r@ =~= rest.take(b - a));
    }
    r
}

} // verus!
