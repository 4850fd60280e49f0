use vstd::prelude::*;
use vstd::string::StringExecFns;
use vstd::utf8::{decode_utf8, valid_utf8};
use crate::error::ErrorKind;
use crate::status::{ServiceState, state_from_str, state_of_token, unknown_status_text};

verus! {

/// `bytes` without its zero bytes, the rest kept in order.
pub open spec fn without_zeros(bytes: Seq<u8>) -> Seq<u8> {
    bytes.filter(|b: u8| b != 0)
}

/// Whether a character has the Unicode White_Space property.
pub open spec fn is_white_space(c: char) -> bool {
    let u = c as u32;
    ||| 0x9 <= u <= 0xd
    ||| u == 0x20 || u == 0x85 || u == 0xa0 || u == 0x1680
    ||| 0x2000 <= u <= 0x200a
    ||| u == 0x2028 || u == 0x2029 || u == 0x202f || u == 0x205f || u == 0x3000
}

/// The text without its leading white space.
pub open spec fn trim_start(s: Seq<char>) -> Seq<char>
    decreases s.len(),
{
    if s.len() > 0 && is_white_space(s[0]) {
        trim_start(s.drop_first())
    } else {
        s
    }
}

/// The text without its trailing white space.
pub open spec fn trim_end(s: Seq<char>) -> Seq<char>
    decreases s.len(),
{
    if s.len() > 0 && is_white_space(s.last()) {
        trim_end(s.drop_last())
    } else {
        s
    }
}

/// The text without its leading and trailing white space.
pub open spec fn trimmed(s: Seq<char>) -> Seq<char> {
    trim_end(trim_start(s))
}

/// Relies on `std::str::from_utf8`: it accepts exactly the well-formed UTF-8
/// byte strings and decodes them.
#[verifier::external_body]
fn utf8_text(bytes: &[u8]) -> (r: Option<&str>)
    ensures
        r is Some <==> valid_utf8(bytes@),
        r is Some ==> r->0@ == decode_utf8(bytes@),
{
    std::str::from_utf8(bytes).ok()
}

/// Relies on `str::trim`: the text without its leading and trailing characters
/// of the Unicode White_Space property.
#[verifier::external_body]
fn trim_text(s: &str) -> (r: &str)
    ensures
        r@ == trimmed(s@),
{
    s.trim()
}

/// Drops the zero bytes that the tool interleaves with its wide-character output.
pub fn remove_zeros(bytes: &[u8]) -> (r: Vec<u8>)
    ensures
        r@ == without_zeros(bytes@),
{
    let mut r: Vec<u8> = Vec::new();
    let mut i: usize = 0;
    while i < bytes.len()
        invariant
            i <= bytes@.len(),
            r@ == without_zeros(bytes@.subrange(0, i as int)),
        decreases bytes@.len() - i,
    {
        proof {
            reveal(Seq::filter);
            assert(bytes@.subrange(0, i + 1).drop_last() =~= bytes@.subrange(0, i as int));
        }
        if bytes[i] != 0 {
            r.push(bytes[i]);
        }
        i = i + 1;
    }
    assert(bytes@.subrange(0, bytes@.len() as int) =~= bytes@);
    r
}

/// The status token in a status command's output: zero bytes dropped,
/// decoded as UTF-8, trimmed. `None` where the bytes are no UTF-8.
pub open spec fn status_token(stdout: Seq<u8>) -> Option<Seq<char>> {
    if valid_utf8(without_zeros(stdout)) {
        Some(trimmed(decode_utf8(without_zeros(stdout))))
    } else {
        None
    }
}

/// The state that a status command's output reports, if any.
pub open spec fn reported_state(stdout: Seq<u8>) -> Option<ServiceState> {
    match status_token(stdout) {
        Some(t) => state_of_token(t),
        None => None,
    }
}

/// Reads the state out of what a status command printed.
pub fn run_nssm_status_cmd_extract_status(stdout: &[u8]) -> (r: Result<ServiceState, ErrorKind>)
    ensures
        match reported_state(stdout@) {
            Some(s) => r == Ok::<ServiceState, ErrorKind>(s),
            None => r is Err,
        },
        status_token(stdout@) is Some && state_of_token(status_token(stdout@)->0) is None
            ==> r->Err_0.text() == unknown_status_text(status_token(stdout@)->0),
{
    let cleaned = remove_zeros(stdout);
    match utf8_text(cleaned.as_slice()) {
        Some(text) => state_from_str(trim_text(text)),
        None => Err(ErrorKind::Msg(String::from_str("Unable to convert the status output from UTF-8"))),
    }
}

/// How one argument shows on a command line: an empty one as an explicit `""`.
pub open spec fn shown(arg: Seq<char>) -> Seq<char> {
    if arg.len() == 0 {
        "\"\""@
    } else {
        arg
    }
}

/// The arguments shown on one line, separated by single spaces.
pub open spec fn shown_line(args: Seq<Seq<char>>) -> Seq<char>
    decreases args.len(),
{
    if args.len() == 0 {
        Seq::empty()
    } else if args.len() == 1 {
        shown(args[0])
    } else {
        shown_line(args.drop_last()) + " "@ + shown(args.last())
    }
}

/// Renders a tool invocation for the log and for error messages.
pub fn command_line(args: &Vec<String>) -> (r: String)
    ensures
        r@ == shown_line(args@.map_values(|s: String| s@)),
{
    let ghost a = args@.map_values(|s: String| s@);
    let mut r = String::new();
    let mut i: usize = 0;
    while i < args.len()
        invariant
            i <= args@.len(),
            a == args@.map_values(|s: String| s@),
            r@ == shown_line(a.subrange(0, i as int)),
        decreases args@.len() - i,
    {
        assert(a.subrange(0, i + 1).drop_last() =~= a.subrange(0, i as int));
        if i > 0 {
            r.append(" ");
        }
        if args[i].as_str().is_empty() {
            r.append("\"\"");
        } else {
            r.append(args[i].as_str());
        }
        i = i + 1;
        proof {
            if i == 1 {
                assert(r@ =~= shown_line(a.subrange(0, 1)));
            }
        }
    }
    assert(a.subrange(0, i as int) =~= a);
    r
}

/// Why running the tool failed.
#[derive(Debug)]
pub enum CommandError {
    /// The process could not be started; the system's reason.
    SpawnFailed(String),
    /// The process ended unsuccessfully; `code` is absent where a signal ended it.
    NonZeroExit { code: Option<i32>, stdout: Vec<u8>, stderr: Vec<u8> },
}

/// What `String::from_utf8_lossy` makes of some bytes.
pub uninterp spec fn lossy_text(b: Seq<u8>) -> Seq<char>;

/// Relies on `String::from_utf8_lossy`: it decodes the bytes, with a
/// replacement character for each ill-formed part, so well-formed UTF-8 is
/// decoded unchanged.
#[verifier::external_body]
fn lossy(b: &[u8]) -> (r: String)
    ensures
        r@ == lossy_text(b@),
        valid_utf8(b@) ==> r@ == decode_utf8(b@),
{
    String::from_utf8_lossy(b).into_owned()
}

pub open spec fn digit_char(d: nat) -> char {
    if d == 0 { '0' } else if d == 1 { '1' } else if d == 2 { '2' } else if d == 3 { '3' }
    else if d == 4 { '4' } else if d == 5 { '5' } else if d == 6 { '6' } else if d == 7 { '7' }
    else if d == 8 { '8' } else { '9' }
}

/// The decimal digits of `n`, most significant first.
pub open spec fn digits(n: nat) -> Seq<char>
    decreases n,
{
    if n < 10 {
        seq![digit_char(n)]
    } else {
        digits(n / 10).push(digit_char(n % 10))
    }
}

/// An integer in decimal, with a leading `-` where it is negative.
pub open spec fn decimal(n: int) -> Seq<char> {
    if n < 0 {
        seq!['-'] + digits((-n) as nat)
    } else {
        digits(n as nat)
    }
}

fn digit_text(d: u64) -> (r: &'static str)
    requires
        d < 10,
    ensures
        r@ == seq![digit_char(d as nat)],
{
    proof {
        reveal_strlit("0");
        reveal_strlit("1");
        reveal_strlit("2");
        reveal_strlit("3");
        reveal_strlit("4");
        reveal_strlit("5");
        reveal_strlit("6");
        reveal_strlit("7");
        reveal_strlit("8");
        reveal_strlit("9");
    }
    match d {
        0 => "0",
        1 => "1",
        2 => "2",
        3 => "3",
        4 => "4",
        5 => "5",
        6 => "6",
        7 => "7",
        8 => "8",
        _ => "9",
    }
}

fn append_digits(s: &mut String, n: u64)
    ensures
        final(s)@ == old(s)@ + digits(n as nat),
    decreases n,
{
    if n >= 10 {
        append_digits(s, n / 10);
    }
    s.append(digit_text(n % 10));
    assert(final(s)@ =~= old(s)@ + digits(n as nat));
}

/// Writes an integer in decimal.
pub fn decimal_text(n: i32) -> (r: String)
    ensures
        r@ == decimal(n as int),
{
    let mut s = String::new();
    if n < 0 {
        proof {
            reveal_strlit("-");
        }
        s.append("-");
        let m: i64 = -(n as i64);
        append_digits(&mut s, m as u64);
        assert(s@ =~= decimal(n as int));
    } else {
        append_digits(&mut s, n as u64);
        assert(s@ =~= decimal(n as int));
    }
    s
}

/// Captured output as it is shown: zero bytes dropped, decoded, trimmed.
pub open spec fn shown_output(b: Seq<u8>) -> Seq<char> {
    trimmed(lossy_text(without_zeros(b)))
}

pub open spec fn exit_code_text(code: Option<i32>) -> Seq<char> {
    match code {
        Some(c) => decimal(c as int),
        None => "NIL"@,
    }
}

/// The causal chain, outermost layer first, that a failed run of the
/// command shown as `shown` reports.
pub open spec fn failure_layers(shown: Seq<char>, e: CommandError) -> Seq<Seq<char>> {
    match e {
        CommandError::SpawnFailed(d) => seq!["Unable to create command '"@ + shown + "'"@, d@],
        CommandError::NonZeroExit { code, stdout, stderr } => seq![
            shown + " { exit code: "@ + exit_code_text(code) + ", stdout: \""@ + shown_output(stdout@)
                + "\", stderr: \""@ + shown_output(stderr@) + "\" }"@,
        ],
    }
}

fn output_text(b: &Vec<u8>) -> (r: String)
    ensures
        r@ == shown_output(b@),
{
    let cleaned = remove_zeros(b.as_slice());
    let text = lossy(cleaned.as_slice());
    String::from_str(trim_text(text.as_str()))
}

/// Describes why the command shown as `shown` failed, outermost layer first.
pub fn failure_cause(shown: &str, e: &CommandError) -> (r: Vec<String>)
    ensures
        r@.map_values(|s: String| s@) == failure_layers(shown@, *e),
{
    let mut r: Vec<String> = Vec::new();
    match e {
        CommandError::SpawnFailed(d) => {
            let mut m = String::from_str("Unable to create command '");
            m.append(shown);
            m.append("'");
            r.push(m);
            r.push(d.clone());
        },
        CommandError::NonZeroExit { code, stdout, stderr } => {
            let mut m = String::from_str(shown);
            m.append(" { exit code: ");
            let c = match code {
                Some(c) => decimal_text(*c),
                None => String::from_str("NIL"),
            };
            m.append(c.as_str());
            m.append(", stdout: \"");
            m.append(output_text(stdout).as_str());
            m.append("\", stderr: \"");
            m.append(output_text(stderr).as_str());
            m.append("\" }");
            r.push(m);
        },
    }
    assert(r@.map_values(|s: String| s@) =~= failure_layers(shown@, *e));
    r
}

} // verus!
