//! The archive file-name formula.
//!
//! An archive's file lives at `<output>/<createdAt>-<archiveId>.zip`, with
//! `createdAt` printed as the integer Unix timestamp in decimal. No file
//! path is ever stored: creation and retention both compute the name from
//! this formula, so its exact character sequence is a compatibility
//! contract.

use vstd::prelude::*;

verus! {

/// The decimal digit character for `d` (meaningful for `0 <= d <= 9`).
pub open spec fn dec_digit(d: int) -> char {
    if d == 0 {
        '0'
    } else if d == 1 {
        '1'
    } else if d == 2 {
        '2'
    } else if d == 3 {
        '3'
    } else if d == 4 {
        '4'
    } else if d == 5 {
        '5'
    } else if d == 6 {
        '6'
    } else if d == 7 {
        '7'
    } else if d == 8 {
        '8'
    } else {
        '9'
    }
}

/// The decimal digits of a nonnegative `n`, most significant first.
pub open spec fn dec_str(n: int) -> Seq<char>
    decreases n,
{
    if n < 10 {
        seq![dec_digit(n)]
    } else {
        dec_str(n / 10) + seq![dec_digit(n % 10)]
    }
}

/// The decimal rendering of a signed timestamp: a leading `-` for a
/// negative value, plain digits otherwise.
pub open spec fn dec_str_signed(n: int) -> Seq<char> {
    if n < 0 {
        seq!['-'] + dec_str(-n)
    } else {
        dec_str(n)
    }
}

/// The file name of the archive made at `created_at` with token `id`:
/// `<created_at>-<id>.zip`.
pub open spec fn archive_file_name(created_at: int, id: Seq<char>) -> Seq<char> {
    dec_str_signed(created_at) + seq!['-'] + id + seq!['.', 'z', 'i', 'p']
}

/// The full path of that archive under the output root `out`:
/// `<out>/<created_at>-<id>.zip`.
pub open spec fn archive_path(out: Seq<char>, created_at: int, id: Seq<char>) -> Seq<char> {
    out + seq!['/'] + archive_file_name(created_at, id)
}

/// The one-character string for the decimal digit `d`.
fn digit_str(d: u64) -> (r: &'static str)
    requires
        d < 10,
    ensures
        r@ == seq![dec_digit(d as int)],
{
    match d {
        0 => {
            proof {
                reveal_strlit("0");
            }
            "0"
        },
        1 => {
            proof {
                reveal_strlit("1");
            }
            "1"
        },
        2 => {
            proof {
                reveal_strlit("2");
            }
            "2"
        },
        3 => {
            proof {
                reveal_strlit("3");
            }
            "3"
        },
        4 => {
            proof {
                reveal_strlit("4");
            }
            "4"
        },
        5 => {
            proof {
                reveal_strlit("5");
            }
            "5"
        },
        6 => {
            proof {
                reveal_strlit("6");
            }
            "6"
        },
        7 => {
            proof {
                reveal_strlit("7");
            }
            "7"
        },
        8 => {
            proof {
                reveal_strlit("8");
            }
            "8"
        },
        _ => {
            proof {
                reveal_strlit("9");
            }
            "9"
        },
    }
}

/// Appends the decimal digits of `n` to `out`.
fn push_decimal(n: u64, out: &mut String)
    ensures
        final(out)@ == old(out)@ + dec_str(n as int),
    decreases n,
{
    if n >= 10 {
        push_decimal(n / 10, out);
    }
    out.append(digit_str(n % 10));
    proof {
        assert(final(out)@ =~= old(out)@ + dec_str(n as int));
    }
}

/// Renders a nonnegative decimal number.
pub fn format_decimal(n: u64) -> (s: String)
    ensures
        s@ == dec_str(n as int),
{
    let mut s = String::new();
    push_decimal(n, &mut s);
    proof {
        assert(s@ =~= dec_str(n as int));
    }
    s
}

/// Renders a signed timestamp in decimal.
pub fn format_timestamp(n: i64) -> (s: String)
    ensures
        s@ == dec_str_signed(n as int),
{
    if n >= 0 {
        format_decimal(n as u64)
    } else {
        let mag: u64 = if n == i64::MIN {
            9223372036854775808u64
        } else {
            (-n) as u64
        };
        assert(mag == -(n as int));
        let mut s = String::new();
        proof {
            reveal_strlit("-");
        }
        s.append("-");
        push_decimal(mag, &mut s);
        proof {
            assert(s@ =~= dec_str_signed(n as int));
        }
        s
    }
}

/// Builds the full archive path `<out>/<created_at>-<id>.zip`. Creation and
/// retention both call this, so a record's backing file is always found at
/// the name it was created under.
pub fn format_archive_path(out: &str, created_at: i64, id: &str) -> (r: String)
    ensures
        r@ == archive_path(out@, created_at as int, id@),
{
    proof {
        reveal_strlit("/");
        reveal_strlit("-");
        reveal_strlit(".zip");
    }
    let mut s = String::new();
    s.append(out);
    s.append("/");
    let ts = format_timestamp(created_at);
    s.append(ts.as_str());
    s.append("-");
    s.append(id);
    s.append(".zip");
    proof {
        assert(s@ =~= archive_path(out@, created_at as int, id@));
    }
    s
}

/// Recomputes the backing-file path of every eviction candidate from its
/// record alone, under the directory's output root: the same formula that
/// named the file at creation, applied in the same order as the
/// candidates.
pub fn candidate_paths(cands: &Vec<crate::record::ArchiveRecord>, out: &str) -> (paths: Vec<
    String,
>)
    ensures
        paths@.len() == cands@.len(),
        forall|i: int|
            0 <= i < cands@.len() ==> (#[trigger] paths@[i])@ == archive_path(
                out@,
                cands@[i].created_at as int,
                cands@[i].archive_id@,
            ),
{
    let mut paths: Vec<String> = Vec::new();
    let mut i: usize = 0;
    while i < cands.len()
        invariant
            0 <= i <= cands@.len(),
            paths@.len() == i,
            forall|j: int|
                0 <= j < i ==> (#[trigger] paths@[j])@ == archive_path(
                    out@,
                    cands@[j].created_at as int,
                    cands@[j].archive_id@,
                ),
        decreases cands@.len() - i,
    {
        let c = &cands[i];
        paths.push(format_archive_path(out, c.created_at, c.archive_id.as_str()));
        i = i + 1;
    }
    paths
}

/// Every character of a nonnegative decimal rendering is a digit, and there
/// is at least one: the file name therefore always matches the
/// `<digits>-<id>.zip` pattern for nonnegative timestamps.
pub proof fn lemma_dec_str_digits(n: int)
    requires
        n >= 0,
    ensures
        dec_str(n).len() >= 1,
        forall|i: int| 0 <= i < dec_str(n).len() ==> '0' <= #[trigger] dec_str(n)[i] <= '9',
    decreases n,
{
    if n >= 10 {
        lemma_dec_str_digits(n / 10);
        assert forall|i: int| 0 <= i < dec_str(n).len() implies '0' <= #[trigger] dec_str(n)[i]
            <= '9' by {
            if i < dec_str(n / 10).len() {
                assert(dec_str(n)[i] == dec_str(n / 10)[i]);
            }
        }
    }
}

} // verus!
