//! How the simulation is launched: the variables of its environment, with
//! numbers written out as the companion process reads them.

use vstd::prelude::*;
use vstd::string::StringExecFns;

verus! {

/// The character of a digit below 16.
pub open spec fn digit_char(d: int) -> char {
    if d == 0 {
        '0'
    } else if d == 1 {
        '1'
    } else if d == 2 {
        '2'
    } else if d == 3 {
        '3'
    } else if d == 4 {
        '4'
    } else if d == 5 {
        '5'
    } else if d == 6 {
        '6'
    } else if d == 7 {
        '7'
    } else if d == 8 {
        '8'
    } else if d == 9 {
        '9'
    } else if d == 10 {
        'a'
    } else if d == 11 {
        'b'
    } else if d == 12 {
        'c'
    } else if d == 13 {
        'd'
    } else if d == 14 {
        'e'
    } else {
        'f'
    }
}

/// `n` in decimal digits, without leading zeros.
pub open spec fn decimal(n: nat) -> Seq<char>
    decreases n,
{
    if n < 10 {
        seq![digit_char(n as int)]
    } else {
        decimal(n / 10).push(digit_char((n % 10) as int))
    }
}

/// A file descriptor in decimal digits, with a minus sign where it is
/// negative.
pub open spec fn signed_decimal(n: int) -> Seq<char> {
    if n < 0 {
        seq!['-'] + decimal((-n) as nat)
    } else {
        decimal(n as nat)
    }
}

/// Hexadecimal digit number `i` of `x`, counted from the most significant
/// of eight.
pub open spec fn hex_digit(x: u32, i: int) -> char {
    if i == 0 {
        digit_char(x as int / 0x1000_0000 % 16)
    } else if i == 1 {
        digit_char(x as int / 0x100_0000 % 16)
    } else if i == 2 {
        digit_char(x as int / 0x10_0000 % 16)
    } else if i == 3 {
        digit_char(x as int / 0x1_0000 % 16)
    } else if i == 4 {
        digit_char(x as int / 0x1000 % 16)
    } else if i == 5 {
        digit_char(x as int / 0x100 % 16)
    } else if i == 6 {
        digit_char(x as int / 0x10 % 16)
    } else {
        digit_char(x as int % 16)
    }
}

/// `x` in eight lower-case hexadecimal digits.
pub open spec fn hex8(x: u32) -> Seq<char> {
    Seq::new(8, |i: int| hex_digit(x, i))
}

fn digit_str(d: u64) -> (r: &'static str)
    requires
        d < 16,
    ensures
        r@ == seq![digit_char(d as int)],
{
    proof {
        reveal_strlit("0");
        reveal_strlit("1");
        reveal_strlit("2");
        reveal_strlit("3");
        reveal_strlit("4");
        reveal_strlit("5");
        reveal_strlit("6");
        reveal_strlit("7");
        reveal_strlit("8");
        reveal_strlit("9");
        reveal_strlit("a");
        reveal_strlit("b");
        reveal_strlit("c");
        reveal_strlit("d");
        reveal_strlit("e");
        reveal_strlit("f");
    }
    let r = if d == 0 {
        "0"
    } else if d == 1 {
        "1"
    } else if d == 2 {
        "2"
    } else if d == 3 {
        "3"
    } else if d == 4 {
        "4"
    } else if d == 5 {
        "5"
    } else if d == 6 {
        "6"
    } else if d == 7 {
        "7"
    } else if d == 8 {
        "8"
    } else if d == 9 {
        "9"
    } else if d == 10 {
        "a"
    } else if d == 11 {
        "b"
    } else if d == 12 {
        "c"
    } else if d == 13 {
        "d"
    } else if d == 14 {
        "e"
    } else {
        "f"
    };
    assert(r@ =~= seq![digit_char(d as int)]);
    r
}

fn push_decimal(out: &mut String, n: u64)
    ensures
        final(out)@ == old(out)@ + decimal(n as nat),
    decreases n,
{
    if n < 10 {
        out.append(digit_str(n));
        assert(out@ =~= old(out)@ + decimal(n as nat));
    } else {
        push_decimal(out, n / 10);
        out.append(digit_str(n % 10));
        assert(out@ =~= old(out)@ + decimal(n as nat));
    }
}

/// Writes a number in decimal digits.
pub fn format_decimal(n: u64) -> (r: String)
    ensures
        r@ == decimal(n as nat),
{
    let mut out = String::new();
    push_decimal(&mut out, n);
    assert(out@ =~= decimal(n as nat));
    out
}

/// Writes a file descriptor in decimal digits.
pub fn format_fd(fd: i32) -> (r: String)
    ensures
        r@ == signed_decimal(fd as int),
{
    let mut out = String::new();
    if fd < 0 {
        proof {
            reveal_strlit("-");
        }
        out.append("-");
        assert(out@ =~= seq!['-']);
        let magnitude: u64 = (-(fd as i64)) as u64;
        push_decimal(&mut out, magnitude);
    } else {
        push_decimal(&mut out, fd as u64);
        assert(out@ =~= decimal(fd as nat));
    }
    out
}

/// Writes a number in eight lower-case hexadecimal digits.
pub fn format_hex8(x: u32) -> (r: String)
    ensures
        r@ == hex8(x),
{
    let wide: u64 = x as u64;
    let mut out = String::new();
    out.append(digit_str(wide / 0x1000_0000 % 16));
    out.append(digit_str(wide / 0x100_0000 % 16));
    out.append(digit_str(wide / 0x10_0000 % 16));
    out.append(digit_str(wide / 0x1_0000 % 16));
    out.append(digit_str(wide / 0x1000 % 16));
    out.append(digit_str(wide / 0x100 % 16));
    out.append(digit_str(wide / 0x10 % 16));
    out.append(digit_str(wide % 16));
    assert(out@ =~= hex8(x));
    out
}

/// What the simulation is told through its environment.
pub struct LaunchEnvironment {
    /// `FUZZTB_TARGET`: path of the target binary.
    pub target: String,
    /// `FUZZTB_IGNOREMIN`: lowest address whose control flow is recorded, in
    /// eight hexadecimal digits.
    pub ignore_min: String,
    /// `FUZZTB_SHMEM`: name of the shared segment.
    pub shmem: String,
    /// `FUZZTB_SHMEM_SIZE`: size of the shared segment.
    pub shmem_size: String,
    /// `FUZZTB_REQ_PIPE`: descriptor from which the simulation reads requests.
    pub req_pipe: String,
    /// `FUZZTB_RESP_PIPE`: descriptor to which the simulation writes
    /// responses.
    pub resp_pipe: String,
    /// `FUZZTB_STDOUT`: descriptor for the simulation's console output.
    pub stdout: String,
}

/// Name of the variable that holds the target path.
pub const ENV_TARGET: &'static str = "FUZZTB_TARGET";

/// Name of the variable that holds the lowest recorded address.
pub const ENV_IGNOREMIN: &'static str = "FUZZTB_IGNOREMIN";

/// Name of the variable that holds the name of the shared segment.
pub const ENV_SHMEM: &'static str = "FUZZTB_SHMEM";

/// Name of the variable that holds the size of the shared segment.
pub const ENV_SHMEM_SIZE: &'static str = "FUZZTB_SHMEM_SIZE";

/// Name of the variable that holds the request pipe's descriptor.
pub const ENV_REQ_PIPE: &'static str = "FUZZTB_REQ_PIPE";

/// Name of the variable that holds the response pipe's descriptor.
pub const ENV_RESP_PIPE: &'static str = "FUZZTB_RESP_PIPE";

/// Name of the variable that holds the console descriptor.
pub const ENV_STDOUT: &'static str = "FUZZTB_STDOUT";

/// Size of the segment that host and simulation share.
pub const SHMEM_SIZE: usize = 4096;

/// Number of segment names that the host tries before it gives up.
pub const SHMEM_NAME_TRIES: usize = 512;

/// Lays out the environment of the simulation.
pub fn launch_environment(
    target: String,
    ignore_addresses_min: u32,
    shmem: String,
    segment_size: usize,
    req_pipe: i32,
    resp_pipe: i32,
    stdout: i32,
) -> (r: LaunchEnvironment)
    ensures
        r.target == target,
        r.ignore_min@ == hex8(ignore_addresses_min),
        r.shmem == shmem,
        r.shmem_size@ == decimal(segment_size as nat),
        r.req_pipe@ == signed_decimal(req_pipe as int),
        r.resp_pipe@ == signed_decimal(resp_pipe as int),
        r.stdout@ == signed_decimal(stdout as int),
{
    LaunchEnvironment {
        target,
        ignore_min: format_hex8(ignore_addresses_min),
        shmem,
        shmem_size: format_decimal(segment_size as u64),
        req_pipe: format_fd(req_pipe),
        resp_pipe: format_fd(resp_pipe),
        stdout: format_fd(stdout),
    }
}

/// The name of the segment that process `pid` makes as its `index`-th.
pub open spec fn segment_name(pid: u32, index: usize) -> Seq<char> {
    "/libafl_"@ + decimal(pid as nat) + seq!['_'] + decimal(index as nat)
}

/// Writes the name of a shared segment.
pub fn shmem_path(pid: u32, index: usize) -> (r: String)
    ensures
        r@ == segment_name(pid, index),
{
    proof {
        reveal_strlit("_");
    }
    let mut out = String::from_str("/libafl_");
    push_decimal(&mut out, pid as u64);
    out.append("_");
    push_decimal(&mut out, index as u64);
    assert(out@ =~= segment_name(pid, index));
    out
}

} // verus!
