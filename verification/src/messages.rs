//! Diagnostic message construction: decimal rendering of exit codes and
//! the exact texts shown on the error screen.

use vstd::prelude::*;

verus! {

/// The character for one decimal digit.
pub open spec fn dec_digit(d: int) -> char
    recommends
        0 <= d < 10,
{
    if d == 0 {
        '0'
    } else if d == 1 {
        '1'
    } else if d == 2 {
        '2'
    } else if d == 3 {
        '3'
    } else if d == 4 {
        '4'
    } else if d == 5 {
        '5'
    } else if d == 6 {
        '6'
    } else if d == 7 {
        '7'
    } else if d == 8 {
        '8'
    } else {
        '9'
    }
}

/// The decimal digits of a non-negative number, most significant first.
pub open spec fn dec_seq(n: nat) -> Seq<char>
    decreases n,
{
    if n < 10 {
        seq![dec_digit(n as int)]
    } else {
        dec_seq(n / 10) + seq![dec_digit((n % 10) as int)]
    }
}

/// The decimal rendering of a signed number: a minus sign before the
/// digits of its magnitude when it is negative.
pub open spec fn signed_dec_seq(n: int) -> Seq<char> {
    if n < 0 {
        seq!['-'] + dec_seq((-n) as nat)
    } else {
        dec_seq(n as nat)
    }
}

/// A one-character string slice for a decimal digit.
fn digit_str(d: u32) -> (s: &'static str)
    requires
        d < 10,
    ensures
        s@ == seq![dec_digit(d as int)],
{
    proof {
        reveal_strlit("0");
        reveal_strlit("1");
        reveal_strlit("2");
        reveal_strlit("3");
        reveal_strlit("4");
        reveal_strlit("5");
        reveal_strlit("6");
        reveal_strlit("7");
        reveal_strlit("8");
        reveal_strlit("9");
    }
    let s: &'static str = if d == 0 {
        "0"
    } else if d == 1 {
        "1"
    } else if d == 2 {
        "2"
    } else if d == 3 {
        "3"
    } else if d == 4 {
        "4"
    } else if d == 5 {
        "5"
    } else if d == 6 {
        "6"
    } else if d == 7 {
        "7"
    } else if d == 8 {
        "8"
    } else {
        "9"
    };
    proof {
        assert(s@ =~= seq![dec_digit(d as int)]);
    }
    s
}

/// Appends the decimal digits of `n` to `out`.
fn push_decimal_u32(out: &mut String, n: u32)
    ensures
        final(out)@ == old(out)@ + dec_seq(n as nat),
    decreases n,
{
    if n < 10 {
        out.append(digit_str(n));
    } else {
        push_decimal_u32(out, n / 10);
        out.append(digit_str(n % 10));
    }
    proof {
        assert(out@ =~= old(out)@ + dec_seq(n as nat));
    }
}

/// Appends the signed decimal rendering of `n` to `out`.
fn push_decimal_i32(out: &mut String, n: i32)
    ensures
        final(out)@ == old(out)@ + signed_dec_seq(n as int),
{
    if n >= 0 {
        push_decimal_u32(out, n as u32);
    } else {
        proof {
            reveal_strlit("-");
        }
        out.append("-");
        let mag: u32 = if n == i32::MIN {
            2_147_483_648
        } else {
            (-n) as u32
        };
        push_decimal_u32(out, mag);
        proof {
            assert(out@ =~= old(out)@ + signed_dec_seq(n as int));
        }
    }
}

/// The decimal rendering of an exit code, or `unknown` when the process
/// was terminated without one.
pub open spec fn exit_code_seq(code: Option<i32>) -> Seq<char> {
    match code {
        Some(c) => signed_dec_seq(c as int),
        None => "unknown"@,
    }
}

/// The message for a run whose child process exited without success:
/// the captured standard-error text after the exit code when there is
/// any, the bare exit code otherwise.
pub open spec fn exit_message_spec(code: Option<i32>, err: Seq<char>) -> Seq<char> {
    if err.len() > 0 {
        "Exit code "@ + exit_code_seq(code) + "\n\n"@ + err
    } else {
        "Process exited with code: "@ + exit_code_seq(code)
    }
}

/// The message for a run whose setup executable could not be started;
/// it quotes the attempted path and the underlying error text.
pub open spec fn spawn_message_spec(path: Seq<char>, err: Seq<char>) -> Seq<char> {
    "Failed to start setup script at '"@ + path + "': "@ + err
}

/// The message for a run whose exit status could not be observed.
pub open spec fn wait_message_spec(err: Seq<char>) -> Seq<char> {
    "Failed to wait for process: "@ + err
}

/// Appends the rendering of an exit code to `out`.
fn push_exit_code(out: &mut String, code: Option<i32>)
    ensures
        final(out)@ == old(out)@ + exit_code_seq(code),
{
    match code {
        Some(c) => push_decimal_i32(out, c),
        None => out.append("unknown"),
    }
}

/// Builds the error-screen message for a child process that exited
/// without success, from its exit code and the accumulated
/// standard-error text.
pub fn exit_message(code: Option<i32>, err: &String) -> (r: String)
    ensures
        r@ == exit_message_spec(code, err@),
{
    let mut r = String::new();
    if err.as_str().is_empty() {
        r.append("Process exited with code: ");
        push_exit_code(&mut r, code);
    } else {
        r.append("Exit code ");
        push_exit_code(&mut r, code);
        r.append("\n\n");
        r.append(err.as_str());
    }
    proof {
        assert(r@ =~= exit_message_spec(code, err@));
    }
    r
}

/// Builds the error-screen message for a setup executable that could
/// not be started.
pub fn spawn_error_message(path: &str, err: &str) -> (r: String)
    ensures
        r@ == spawn_message_spec(path@, err@),
{
    let mut r = String::from_str("Failed to start setup script at '");
    r.append(path);
    r.append("': ");
    r.append(err);
    proof {
        assert(r@ =~= spawn_message_spec(path@, err@));
    }
    r
}

/// Builds the error-screen message for a wait that itself failed.
pub fn wait_error_message(err: &str) -> (r: String)
    ensures
        r@ == wait_message_spec(err@),
{
    let mut r = String::from_str("Failed to wait for process: ");
    r.append(err);
    proof {
        assert(r@ =~= wait_message_spec(err@));
    }
    r
}

/// Appends one line read from the child's standard error to the
/// accumulated error buffer, with its line terminator restored: the
/// full history is kept, since the buffer becomes the error report.
pub fn append_stderr_line(buffer: &mut String, line: &str)
    ensures
        final(buffer)@ == old(buffer)@ + line@ + "\n"@,
{
    buffer.append(line);
    buffer.append("\n");
    proof {
        assert(buffer@ =~= old(buffer)@ + line@ + "\n"@);
    }
}

/// `needle` occurs contiguously somewhere in `hay`.
pub open spec fn contains_seq(hay: Seq<char>, needle: Seq<char>) -> bool {
    exists|i: int|
        0 <= i && i + needle.len() <= hay.len() && #[trigger] hay.subrange(i, i + needle.len())
            == needle
}

/// A spawn-failure message always contains the attempted path.
pub proof fn lemma_spawn_message_contains_path(path: Seq<char>, err: Seq<char>)
    ensures
        contains_seq(spawn_message_spec(path, err), path),
{
    let prefix = "Failed to start setup script at '"@;
    let msg = spawn_message_spec(path, err);
    assert(msg.subrange(prefix.len() as int, prefix.len() + path.len() as int) =~= path);
}

} // verus!
