//! The failure record: a small human-readable text file naming the
//! downloader's exit code and carrying its captured standard-error output.
//! The layout is fixed — a prefix line with the decimal exit code, a blank
//! line, the stderr bytes, and a final newline — so every failure of the same
//! kind produces a record of the same shape.

use vstd::prelude::*;

verus! {

/// The newline byte, `'\n'`.
pub const NEWLINE: u8 = 10;

/// Decimal digits of `n`, most significant first, as ASCII bytes.
pub open spec fn decimal_digits(n: nat) -> Seq<u8>
    decreases n,
{
    if n < 10 {
        seq![(48 + n) as u8]
    } else {
        decimal_digits(n / 10) + seq![(48 + n % 10) as u8]
    }
}

/// Decimal rendering of a possibly negative exit code, as ASCII bytes.
pub open spec fn decimal_code(code: int) -> Seq<u8> {
    if code < 0 {
        seq![45u8] + decimal_digits((-code) as nat)
    } else {
        decimal_digits(code as nat)
    }
}

/// The fixed opening text of a diagnostics record:
/// `"Exited with error code: "`.
pub open spec fn diagnostics_prefix() -> Seq<u8> {
    seq![
        69u8,
        120u8,
        105u8,
        116u8,
        101u8,
        100u8,
        32u8,
        119u8,
        105u8,
        116u8,
        104u8,
        32u8,
        101u8,
        114u8,
        114u8,
        111u8,
        114u8,
        32u8,
        99u8,
        111u8,
        100u8,
        101u8,
        58u8,
        32u8,
    ]
}

/// The whole diagnostics record for exit code `code` and captured standard
/// error `stderr`: prefix, decimal code, blank line, stderr, final newline.
pub open spec fn diagnostics_content_spec(code: int, stderr: Seq<u8>) -> Seq<u8> {
    diagnostics_prefix() + decimal_code(code) + seq![NEWLINE, NEWLINE] + stderr + seq![NEWLINE]
}

/// Decimal digits of `n`, most significant first.
pub fn decimal_bytes_u64(n: u64) -> (r: Vec<u8>)
    ensures
        r@ == decimal_digits(n as nat),
{
    let mut digits: Vec<u8> = Vec::new();
    let mut m: u64 = n;
    proof {
        assert(decimal_digits(m as nat) + digits@ =~= decimal_digits(m as nat));
    }
    while m >= 10
        invariant
            decimal_digits(n as nat) == decimal_digits(m as nat) + digits@,
        decreases m,
    {
        let d: u8 = (m % 10) as u8 + 48;
        let ghost prev = digits@;
        digits.insert(0, d);
        proof {
            assert(digits@ =~= seq![d] + prev);
            assert(decimal_digits(m as nat) == decimal_digits((m as nat) / 10) + seq![
                (48 + (m as nat) % 10) as u8,
            ]);
            assert((m / 10) as nat == (m as nat) / 10);
            assert(d == (48 + (m as nat) % 10) as u8);
            assert(decimal_digits((m as nat) / 10) + seq![d] + prev =~= decimal_digits(
                (m as nat) / 10,
            ) + (seq![d] + prev));
        }
        m = m / 10;
    }
    let d: u8 = m as u8 + 48;
    let ghost prev = digits@;
    digits.insert(0, d);
    proof {
        assert(digits@ =~= seq![d] + prev);
        assert(decimal_digits(m as nat) == seq![d]);
        assert(decimal_digits(n as nat) =~= digits@);
    }
    digits
}

/// Decimal rendering of the exit code `code`, with a leading minus sign when
/// it is negative.
pub fn decimal_bytes_i32(code: i32) -> (r: Vec<u8>)
    ensures
        r@ == decimal_code(code as int),
{
    if code < 0 {
        let magnitude: u64 = (-(code as i64)) as u64;
        proof {
            assert(magnitude as int == -(code as int));
        }
        let mut r: Vec<u8> = Vec::new();
        r.push(45);
        let ds = decimal_bytes_u64(magnitude);
        let out = crate::paths::append_bytes(&r, &ds);
        proof {
            assert(r@ =~= seq![45u8]);
            assert(out@ =~= decimal_code(code as int));
        }
        out
    } else {
        decimal_bytes_u64(code as u64)
    }
}

/// The fixed opening text of a diagnostics record.
pub fn diagnostics_prefix_bytes() -> (r: Vec<u8>)
    ensures
        r@ == diagnostics_prefix(),
{
    let mut r: Vec<u8> = Vec::new();
    r.push(69);
    r.push(120);
    r.push(105);
    r.push(116);
    r.push(101);
    r.push(100);
    r.push(32);
    r.push(119);
    r.push(105);
    r.push(116);
    r.push(104);
    r.push(32);
    r.push(101);
    r.push(114);
    r.push(114);
    r.push(111);
    r.push(114);
    r.push(32);
    r.push(99);
    r.push(111);
    r.push(100);
    r.push(101);
    r.push(58);
    r.push(32);
    proof {
        assert(r@ =~= diagnostics_prefix());
    }
    r
}

/// Build the diagnostics record for exit code `code` and captured standard
/// error `stderr`.
pub fn diagnostics_content(code: i32, stderr: &Vec<u8>) -> (r: Vec<u8>)
    ensures
        r@ == diagnostics_content_spec(code as int, stderr@),
{
    let mut r = diagnostics_prefix_bytes();
    let ds = decimal_bytes_i32(code);
    let mut r = crate::paths::append_bytes(&r, &ds);
    r.push(NEWLINE);
    r.push(NEWLINE);
    let mut r = crate::paths::append_bytes(&r, stderr);
    r.push(NEWLINE);
    proof {
        assert(r@ =~= diagnostics_content_spec(code as int, stderr@));
    }
    r
}

/// Law: the diagnostics record has a fixed layout, whatever the failure. It
/// opens with the fixed prefix, carries the decimal exit code, a blank line,
/// the captured standard error, and closes with a newline — so rerunning a
/// failing job yields a record of the same shape, differing only in the
/// captured text.
pub proof fn lemma_diagnostics_shape(code: int, stderr: Seq<u8>)
    ensures
        ({
            let c = diagnostics_content_spec(code, stderr);
            c.len() == diagnostics_prefix().len() + decimal_code(code).len() + 3 + stderr.len()
                && c.subrange(0, diagnostics_prefix().len() as int) == diagnostics_prefix()
                && c.subrange(
                c.len() - stderr.len() - 1,
                c.len() - 1,
            ) == stderr
                && c.last() == NEWLINE
        }),
{
    let c = diagnostics_content_spec(code, stderr);
    assert(c.subrange(0, diagnostics_prefix().len() as int) =~= diagnostics_prefix());
    assert(c.subrange(c.len() - stderr.len() - 1, c.len() - 1) =~= stderr);
}

} // verus!
