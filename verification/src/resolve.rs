//! Locating the cognitive engine's working directory.
//!
//! The caller probes the filesystem — an environment override, locations
//! relative to the bundled resources, and development-layout locations
//! walked from the current working directory — and hands the probed
//! candidates here. The choice among them, in priority order, and the error
//! that enumerates the checked locations when none fits, are decided in this
//! module; resolution is attempted once and never retried.

use vstd::prelude::*;
use vstd::string::StringExecFns;

verus! {

/// One location that may hold the engine: the directory it would be, and
/// whether the caller's probe found it usable (it exists and, for the
/// development layout, holds the known entry-point file).
pub struct Candidate {
    pub path: String,
    pub usable: bool,
}

/// Index of the first usable candidate; the length when none is usable.
pub open spec fn first_usable(cs: Seq<Candidate>) -> int
    decreases cs.len(),
{
    if cs.len() == 0 {
        0
    } else if cs[0].usable {
        0
    } else {
        1 + first_usable(cs.skip(1))
    }
}

/// Whether any candidate in the list is usable.
pub open spec fn any_usable(cs: Seq<Candidate>) -> bool {
    exists|i: int| 0 <= i < cs.len() && cs[i].usable
}

/// `first_usable` is exactly the index whose earlier entries are all
/// unusable and which is itself usable (or the length, when none is).
proof fn lemma_first_usable_is(cs: Seq<Candidate>, i: int)
    requires
        0 <= i <= cs.len(),
        forall|j: int| 0 <= j < i ==> !(#[trigger] cs[j]).usable,
        i < cs.len() ==> cs[i].usable,
    ensures
        first_usable(cs) == i,
    decreases i,
{
    if cs.len() == 0 || i == 0 {
    } else {
        assert(!cs[0].usable);
        assert(forall|j: int| 0 <= j < i - 1 ==> cs.skip(1)[j] == cs[j + 1]);
        lemma_first_usable_is(cs.skip(1), i - 1);
    }
}

/// The directory chosen from the two probed lists: the first usable
/// resource-relative location, else the first usable development-layout
/// location, else none.
pub open spec fn resolved_from_lists(res: Seq<Candidate>, dev: Seq<Candidate>) -> Option<
    Seq<char>,
> {
    if any_usable(res) {
        Some(res[first_usable(res)].path@)
    } else if any_usable(dev) {
        Some(dev[first_usable(dev)].path@)
    } else {
        None
    }
}

/// The directory resolution chooses: the environment override wins whenever
/// its probe succeeded, then the probed lists in order.
pub open spec fn resolved_dir(
    env_dir: Option<Candidate>,
    res: Seq<Candidate>,
    dev: Seq<Candidate>,
) -> Option<Seq<char>> {
    match env_dir {
        Some(c) => if c.usable {
            Some(c.path@)
        } else {
            resolved_from_lists(res, dev)
        },
        None => resolved_from_lists(res, dev),
    }
}

/// The decimal digit for a value below ten.
pub open spec fn digit_char(d: nat) -> char {
    if d == 0 {
        '0'
    } else if d == 1 {
        '1'
    } else if d == 2 {
        '2'
    } else if d == 3 {
        '3'
    } else if d == 4 {
        '4'
    } else if d == 5 {
        '5'
    } else if d == 6 {
        '6'
    } else if d == 7 {
        '7'
    } else if d == 8 {
        '8'
    } else {
        '9'
    }
}

/// The decimal digits of a number, most significant first.
pub open spec fn dec_digits(n: nat) -> Seq<char>
    decreases n,
{
    if n < 10 {
        seq![digit_char(n)]
    } else {
        dec_digits(n / 10).push(digit_char(n % 10))
    }
}

/// The error recorded when no location holds the engine, naming everything
/// that was checked.
pub open spec fn resolution_error_message(n_dev: nat, cwd: Seq<char>) -> Seq<char> {
    "Cannot locate cognitive-engine directory. Checked env VOCO_ENGINE_DIR, resource_dir, and "@
        + dec_digits(n_dev) + " relative paths from "@ + cwd + "."@
}

/// One decimal digit as text.
fn digit_string(d: u64) -> (s: String)
    requires
        d < 10,
    ensures
        s@ == seq![digit_char(d as nat)],
{
    proof {
        reveal_strlit("0");
        reveal_strlit("1");
        reveal_strlit("2");
        reveal_strlit("3");
        reveal_strlit("4");
        reveal_strlit("5");
        reveal_strlit("6");
        reveal_strlit("7");
        reveal_strlit("8");
        reveal_strlit("9");
    }
    let s = match d {
        0 => String::from_str("0"),
        1 => String::from_str("1"),
        2 => String::from_str("2"),
        3 => String::from_str("3"),
        4 => String::from_str("4"),
        5 => String::from_str("5"),
        6 => String::from_str("6"),
        7 => String::from_str("7"),
        8 => String::from_str("8"),
        _ => String::from_str("9"),
    };
    proof {
        assert(s@ =~= seq![digit_char(d as nat)]);
    }
    s
}

/// A number in decimal, most significant digit first.
pub fn dec_u64(n: u64) -> (s: String)
    ensures
        s@ == dec_digits(n as nat),
    decreases n,
{
    if n < 10 {
        digit_string(n)
    } else {
        let mut s = dec_u64(n / 10);
        let d = digit_string(n % 10);
        s.append(d.as_str());
        proof {
            assert(s@ =~= dec_digits(n as nat));
        }
        s
    }
}

/// Choose the engine directory from the probed candidates, in priority
/// order: the environment override, the resource-relative locations, the
/// development-layout locations. When nothing is usable, the error message
/// enumerates what was checked: the environment variable, the resource
/// directory, and how many paths relative to the given working directory.
pub fn resolve_engine_dir(
    env_dir: Option<Candidate>,
    resource_candidates: Vec<Candidate>,
    dev_candidates: Vec<Candidate>,
    cwd: String,
) -> (r: Result<String, String>)
    ensures
        (resolved_dir(env_dir, resource_candidates@, dev_candidates@) matches Some(p) ==> (
        r matches Ok(q) && q@ == p)),
        (resolved_dir(env_dir, resource_candidates@, dev_candidates@) is None ==> (r matches Err(m)
            && m@ == resolution_error_message(dev_candidates@.len(), cwd@))),
{
    if let Some(c) = env_dir {
        if c.usable {
            return Ok(c.path);
        }
    }
    let mut i: usize = 0;
    while i < resource_candidates.len()
        invariant
            i <= resource_candidates@.len(),
            (env_dir matches Some(c) ==> !c.usable),
            forall|j: int| 0 <= j < i ==> !(#[trigger] resource_candidates@[j]).usable,
        decreases resource_candidates@.len() - i,
    {
        if resource_candidates[i].usable {
            proof {
                lemma_first_usable_is(resource_candidates@, i as int);
                assert(resource_candidates@[i as int].usable);
                assert(any_usable(resource_candidates@));
            }
            return Ok(resource_candidates[i].path.clone());
        }
        i = i + 1;
    }
    let mut k: usize = 0;
    while k < dev_candidates.len()
        invariant
            k <= dev_candidates@.len(),
            (env_dir matches Some(c) ==> !c.usable),
            !any_usable(resource_candidates@),
            forall|j: int| 0 <= j < k ==> !(#[trigger] dev_candidates@[j]).usable,
        decreases dev_candidates@.len() - k,
    {
        if dev_candidates[k].usable {
            proof {
                lemma_first_usable_is(dev_candidates@, k as int);
                assert(dev_candidates@[k as int].usable);
                assert(any_usable(dev_candidates@));
            }
            return Ok(dev_candidates[k].path.clone());
        }
        k = k + 1;
    }
    let mut m = String::from_str(
        "Cannot locate cognitive-engine directory. Checked env VOCO_ENGINE_DIR, resource_dir, and ",
    );
    let count = dec_u64(dev_candidates.len() as u64);
    m.append(count.as_str());
    m.append(" relative paths from ");
    m.append(cwd.as_str());
    m.append(".");
    Err(m)
}

} // verus!
