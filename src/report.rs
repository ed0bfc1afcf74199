use vstd::prelude::*;
use vstd::string::{StrSliceExecFns, StringExecFns};

verus! {

/// Minimum width of the pid column.
pub const PID_WIDTH: usize = 6;

/// Minimum width of the command column.
pub const COMM_WIDTH: usize = 15;

/// The character of a decimal digit.
pub open spec fn digit_char(d: nat) -> char {
    seq!['0', '1', '2', '3', '4', '5', '6', '7', '8', '9'][d as int]
}

/// The decimal text of `n`, without leading zeros.
pub open spec fn decimal(n: nat) -> Seq<char>
    decreases n,
{
    if n < 10 {
        seq![digit_char(n)]
    } else {
        decimal(n / 10) + seq![digit_char(n % 10)]
    }
}

/// `n` spaces.
pub open spec fn spaces(n: nat) -> Seq<char> {
    Seq::new(n, |i: int| ' ')
}

/// `s` left-aligned in a column of at least `w` characters.
pub open spec fn pad_right(s: Seq<char>, w: nat) -> Seq<char> {
    if s.len() >= w {
        s
    } else {
        s + spaces((w - s.len()) as nat)
    }
}

/// The audit line for one execution.
pub open spec fn line_spec(pid: u32, comm: Seq<char>, filename: Seq<char>) -> Seq<char> {
    "PID: "@ + pad_right(decimal(pid as nat), PID_WIDTH as nat) + " | COMM: "@ + pad_right(
        comm,
        COMM_WIDTH as nat,
    ) + " | FILENAME: "@ + filename
}

fn digit_str(d: u32) -> (s: &'static str)
    requires
        d < 10,
    ensures
        s@ == seq![digit_char(d as nat)],
{
    proof {
        reveal_strlit("0");
        reveal_strlit("1");
        reveal_strlit("2");
        reveal_strlit("3");
        reveal_strlit("4");
        reveal_strlit("5");
        reveal_strlit("6");
        reveal_strlit("7");
        reveal_strlit("8");
        reveal_strlit("9");
    }
    match d {
        0 => "0",
        1 => "1",
        2 => "2",
        3 => "3",
        4 => "4",
        5 => "5",
        6 => "6",
        7 => "7",
        8 => "8",
        _ => "9",
    }
}

fn append_decimal(out: &mut String, n: u32)
    ensures
        final(out)@ == old(out)@ + decimal(n as nat),
    decreases n,
{
    if n >= 10 {
        append_decimal(out, n / 10);
    }
    out.append(digit_str(n % 10));
    assert(final(out)@ =~= old(out)@ + decimal(n as nat));
}

fn append_padded(out: &mut String, s: &str, width: usize)
    ensures
        final(out)@ == old(out)@ + pad_right(s@, width as nat),
{
    out.append(s);
    let len = s.unicode_len();
    let mut n: usize = len;
    proof {
        reveal_strlit(" ");
        assert(spaces(0) =~= Seq::<char>::empty());
        assert(out@ =~= old(out)@ + s@ + spaces(0));
    }
    while n < width
        invariant
            len == s@.len(),
            len <= n,
            n <= width || n == len,
            out@ == old(out)@ + s@ + spaces((n - len) as nat),
        decreases width - n,
    {
        out.append(" ");
        n = n + 1;
        proof {
            reveal_strlit(" ");
            assert(spaces((n - len) as nat) =~= spaces((n - 1 - len) as nat) + " "@);
            assert(out@ =~= old(out)@ + s@ + spaces((n - len) as nat));
        }
    }
    assert(out@ =~= old(out)@ + pad_right(s@, width as nat));
}

/// Formats the audit line `PID: <pid> | COMM: <comm> | FILENAME: <filename>`,
/// the pid left-aligned in six columns and the command in fifteen.
pub fn format_line(pid: u32, comm: &str, filename: &str) -> (r: String)
    ensures
        r@ == line_spec(pid, comm@, filename@),
{
    let mut out = String::new();
    out.append("PID: ");
    let mut digits = String::new();
    append_decimal(&mut digits, pid);
    append_padded(&mut out, digits.as_str(), PID_WIDTH);
    out.append(" | COMM: ");
    append_padded(&mut out, comm, COMM_WIDTH);
    out.append(" | FILENAME: ");
    out.append(filename);
    proof {
        assert(digits@ =~= decimal(pid as nat));
        assert(out@ =~= line_spec(pid, comm@, filename@));
    }
    out
}

} // verus!
