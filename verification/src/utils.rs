//! Path checks and the formatting of numbers and sizes.

use crate::errors::FileSystemError;
use crate::text::{chars_of, decimal, push_decimal, signed_decimal};
use vstd::prelude::*;
use vstd::string::StringExecFns;

verus! {

/// Accepts a path that exists. `exists` is what the file system answered
/// for `path`.
pub fn validate_path_exists(path: &str, exists: bool) -> (r: Result<(), FileSystemError>)
    ensures
        exists ==> r is Ok,
        !exists ==> (r matches Err(FileSystemError::PathNotFound(p)) && p@ == path@),
{
    if !exists {
        return Err(FileSystemError::PathNotFound(path.to_owned()));
    }
    Ok(())
}

/// The absolute form of `path`. `resolved` is what the file system answered
/// when asked to resolve it; a refusal is reported with the path it was for.
pub fn canonicalize_path(path: &str, resolved: Result<String, std::io::Error>) -> (r: Result<
    String,
    FileSystemError,
>)
    ensures
        match resolved {
            Ok(absolute) => r == Ok::<String, FileSystemError>(absolute),
            Err(cause) => (r matches Err(FileSystemError::CanonicalizeFailed { path: p, source })
                && p@ == path@ && source == cause),
        },
{
    match resolved {
        Ok(absolute) => Ok(absolute),
        Err(source) => Err(FileSystemError::CanonicalizeFailed { path: path.to_owned(), source }),
    }
}

/// The first `k` characters of `s` with separators: a comma stands before
/// every character but the first whose distance to the end of `s` is a
/// multiple of three.
pub open spec fn grouped_prefix(s: Seq<char>, k: nat) -> Seq<char>
    decreases k,
{
    if k == 0 {
        Seq::empty()
    } else {
        let i = k - 1;
        let head = grouped_prefix(s, i as nat);
        if i > 0 && (s.len() - i) % 3 == 0 {
            head.push(',').push(s[i])
        } else {
            head.push(s[i])
        }
    }
}

/// `n` in base ten with thousands separators. The groups are counted from
/// the right over the whole rendering, a minus sign included.
pub open spec fn formatted_number(n: int) -> Seq<char> {
    let plain = signed_decimal(n);
    grouped_prefix(plain, plain.len())
}

/// Formats `n` with a comma between groups of three digits: `1234567`
/// becomes `1,234,567`.
pub fn format_number(n: i64) -> (out: String)
    ensures
        out@ == formatted_number(n as int),
{
    let mut plain = String::new();
    if n < 0 {
        plain.push('-');
        push_decimal(&mut plain, (-(n as i128)) as u128);
        assert(plain@ =~= signed_decimal(n as int));
    } else {
        push_decimal(&mut plain, n as u128);
        assert(plain@ =~= signed_decimal(n as int));
    }
    let v = chars_of(plain.as_str());
    let mut out = String::new();
    let mut i: usize = 0;
    while i < v.len()
        invariant
            i <= v.len(),
            out@ == grouped_prefix(v@, i as nat),
        decreases v.len() - i,
    {
        if i > 0 && (v.len() - i) % 3 == 0 {
            out.push(',');
        }
        out.push(v[i]);
        i += 1;
    }
    out
}

/// `1024` to the power `e`.
pub open spec fn pow1024(e: nat) -> nat
    decreases e,
{
    if e == 0 {
        1
    } else {
        1024 * pow1024((e - 1) as nat)
    }
}

/// The unit in which a size is shown: the largest of B, KB, MB, GB, TB and
/// PB that does not exceed it, counted from zero.
pub open spec fn unit_exponent(bytes: nat) -> nat {
    if bytes < pow1024(1) {
        0
    } else if bytes < pow1024(2) {
        1
    } else if bytes < pow1024(3) {
        2
    } else if bytes < pow1024(4) {
        3
    } else if bytes < pow1024(5) {
        4
    } else {
        5
    }
}

/// The name of the unit `1024` to the power `e`.
pub open spec fn unit_name(e: nat) -> Seq<char> {
    if e == 0 {
        "B"@
    } else if e == 1 {
        "KB"@
    } else if e == 2 {
        "MB"@
    } else if e == 3 {
        "GB"@
    } else if e == 4 {
        "TB"@
    } else {
        "PB"@
    }
}

/// `bytes / scale` in tenths, rounded to the nearest tenth; a value exactly
/// halfway between two tenths goes to the even one.
pub open spec fn rounded_tenths(bytes: nat, scale: nat) -> nat {
    let whole = (bytes * 10) / scale;
    let rest = (bytes * 10) % scale;
    if 2 * rest > scale || (2 * rest == scale && whole % 2 == 1) {
        whole + 1
    } else {
        whole
    }
}

/// A size in human-readable form: whole bytes below 1024, else one decimal
/// place in the largest fitting unit.
pub open spec fn formatted_bytes(bytes: nat) -> Seq<char> {
    let e = unit_exponent(bytes);
    if e == 0 {
        decimal(bytes) + " B"@
    } else {
        let tenths = rounded_tenths(bytes, pow1024(e));
        decimal(tenths / 10) + "."@ + decimal(tenths % 10) + " "@ + unit_name(e)
    }
}

/// The powers of 1024 that name a unit.
pub proof fn lemma_pow1024()
    ensures
        pow1024(1) == 1024,
        pow1024(2) == 1048576,
        pow1024(3) == 1073741824,
        pow1024(4) == 1099511627776,
        pow1024(5) == 1125899906842624,
{
    reveal_with_fuel(pow1024, 6);
}

/// Formats a size in bytes for reading: `1536` becomes `1.5 KB`.
pub fn format_bytes(bytes: usize) -> (out: String)
    ensures
        out@ == formatted_bytes(bytes as nat),
{
    proof {
        lemma_pow1024();
    }
    let b: u128 = bytes as u128;
    let mut out = String::new();
    if b < 1024 {
        push_decimal(&mut out, b);
        out.append(" B");
        return out;
    }
    let (scale, unit): (u128, &str) = if b < 1048576 {
        (1024, "KB")
    } else if b < 1073741824 {
        (1048576, "MB")
    } else if b < 1099511627776 {
        (1073741824, "GB")
    } else if b < 1125899906842624 {
        (1099511627776, "TB")
    } else {
        (1125899906842624, "PB")
    };
    assert(scale == pow1024(unit_exponent(bytes as nat)));
    assert(unit@ == unit_name(unit_exponent(bytes as nat)));
    let whole: u128 = (b * 10) / scale;
    let rest: u128 = (b * 10) % scale;
    let tenths: u128 = if 2 * rest > scale || (2 * rest == scale && whole % 2 == 1) {
        whole + 1
    } else {
        whole
    };
    push_decimal(&mut out, tenths / 10);
    out.append(".");
    push_decimal(&mut out, tenths % 10);
    out.append(" ");
    out.append(unit);
    out
}

} // verus!
