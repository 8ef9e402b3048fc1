//! The fixed tables of the compression function: per-step shift amounts
//! and per-step additive constants.
use vstd::prelude::*;

verus! {

/// Shift amount for step `i`.  Each 16-step quartile cycles through four
/// amounts: 7,12,17,22 then 5,9,14,20 then 4,11,16,23 then 6,10,15,21.
#[verifier::opaque]
pub open spec fn shift_entry(i: int) -> u32 {
    let j = i % 4;
    if i < 16 {
        if j == 0 { 7 } else if j == 1 { 12 } else if j == 2 { 17 } else { 22 }
    } else if i < 32 {
        if j == 0 { 5 } else if j == 1 { 9 } else if j == 2 { 14 } else { 20 }
    } else if i < 48 {
        if j == 0 { 4 } else if j == 1 { 11 } else if j == 2 { 16 } else { 23 }
    } else {
        if j == 0 { 6 } else if j == 1 { 10 } else if j == 2 { 15 } else { 21 }
    }
}

/// Additive constant for step `i`: the standard table, the integer part
/// of `abs(sin(i + 1)) * 2^32`, supplied as literals.
#[verifier::opaque]
pub open spec fn sine_entry(i: int) -> u32 {
    if i == 0 {
        0xd76aa478
    } else if i == 1 {
        0xe8c7b756
    } else if i == 2 {
        0x242070db
    } else if i == 3 {
        0xc1bdceee
    } else if i == 4 {
        0xf57c0faf
    } else if i == 5 {
        0x4787c62a
    } else if i == 6 {
        0xa8304613
    } else if i == 7 {
        0xfd469501
    } else if i == 8 {
        0x698098d8
    } else if i == 9 {
        0x8b44f7af
    } else if i == 10 {
        0xffff5bb1
    } else if i == 11 {
        0x895cd7be
    } else if i == 12 {
        0x6b901122
    } else if i == 13 {
        0xfd987193
    } else if i == 14 {
        0xa679438e
    } else if i == 15 {
        0x49b40821
    } else if i == 16 {
        0xf61e2562
    } else if i == 17 {
        0xc040b340
    } else if i == 18 {
        0x265e5a51
    } else if i == 19 {
        0xe9b6c7aa
    } else if i == 20 {
        0xd62f105d
    } else if i == 21 {
        0x02441453
    } else if i == 22 {
        0xd8a1e681
    } else if i == 23 {
        0xe7d3fbc8
    } else if i == 24 {
        0x21e1cde6
    } else if i == 25 {
        0xc33707d6
    } else if i == 26 {
        0xf4d50d87
    } else if i == 27 {
        0x455a14ed
    } else if i == 28 {
        0xa9e3e905
    } else if i == 29 {
        0xfcefa3f8
    } else if i == 30 {
        0x676f02d9
    } else if i == 31 {
        0x8d2a4c8a
    } else if i == 32 {
        0xfffa3942
    } else if i == 33 {
        0x8771f681
    } else if i == 34 {
        0x6d9d6122
    } else if i == 35 {
        0xfde5380c
    } else if i == 36 {
        0xa4beea44
    } else if i == 37 {
        0x4bdecfa9
    } else if i == 38 {
        0xf6bb4b60
    } else if i == 39 {
        0xbebfbc70
    } else if i == 40 {
        0x289b7ec6
    } else if i == 41 {
        0xeaa127fa
    } else if i == 42 {
        0xd4ef3085
    } else if i == 43 {
        0x04881d05
    } else if i == 44 {
        0xd9d4d039
    } else if i == 45 {
        0xe6db99e5
    } else if i == 46 {
        0x1fa27cf8
    } else if i == 47 {
        0xc4ac5665
    } else if i == 48 {
        0xf4292244
    } else if i == 49 {
        0x432aff97
    } else if i == 50 {
        0xab9423a7
    } else if i == 51 {
        0xfc93a039
    } else if i == 52 {
        0x655b59c3
    } else if i == 53 {
        0x8f0ccc92
    } else if i == 54 {
        0xffeff47d
    } else if i == 55 {
        0x85845dd1
    } else if i == 56 {
        0x6fa87e4f
    } else if i == 57 {
        0xfe2ce6e0
    } else if i == 58 {
        0xa3014314
    } else if i == 59 {
        0x4e0811a1
    } else if i == 60 {
        0xf7537e82
    } else if i == 61 {
        0xbd3af235
    } else if i == 62 {
        0x2ad7d2bb
    } else {
        0xeb86d391
    }
}

/// Shift amount for step `i`, as executable code.
pub fn shift_at(i: usize) -> (r: u32)
    requires
        i < 64,
    ensures
        r == shift_entry(i as int),
        0 < r < 32,
{
    proof {
        reveal(shift_entry);
    }
    let j = i % 4;
    if i < 16 {
        if j == 0 { 7 } else if j == 1 { 12 } else if j == 2 { 17 } else { 22 }
    } else if i < 32 {
        if j == 0 { 5 } else if j == 1 { 9 } else if j == 2 { 14 } else { 20 }
    } else if i < 48 {
        if j == 0 { 4 } else if j == 1 { 11 } else if j == 2 { 16 } else { 23 }
    } else {
        if j == 0 { 6 } else if j == 1 { 10 } else if j == 2 { 15 } else { 21 }
    }
}

/// Additive constant for step `i`, as executable code.
pub fn sine_at(i: usize) -> (r: u32)
    requires
        i < 64,
    ensures
        r == sine_entry(i as int),
{
    proof {
        reveal(sine_entry);
    }
    match i {
        0 => 0xd76aa478,
        1 => 0xe8c7b756,
        2 => 0x242070db,
        3 => 0xc1bdceee,
        4 => 0xf57c0faf,
        5 => 0x4787c62a,
        6 => 0xa8304613,
        7 => 0xfd469501,
        8 => 0x698098d8,
        9 => 0x8b44f7af,
        10 => 0xffff5bb1,
        11 => 0x895cd7be,
        12 => 0x6b901122,
        13 => 0xfd987193,
        14 => 0xa679438e,
        15 => 0x49b40821,
        16 => 0xf61e2562,
        17 => 0xc040b340,
        18 => 0x265e5a51,
        19 => 0xe9b6c7aa,
        20 => 0xd62f105d,
        21 => 0x02441453,
        22 => 0xd8a1e681,
        23 => 0xe7d3fbc8,
        24 => 0x21e1cde6,
        25 => 0xc33707d6,
        26 => 0xf4d50d87,
        27 => 0x455a14ed,
        28 => 0xa9e3e905,
        29 => 0xfcefa3f8,
        30 => 0x676f02d9,
        31 => 0x8d2a4c8a,
        32 => 0xfffa3942,
        33 => 0x8771f681,
        34 => 0x6d9d6122,
        35 => 0xfde5380c,
        36 => 0xa4beea44,
        37 => 0x4bdecfa9,
        38 => 0xf6bb4b60,
        39 => 0xbebfbc70,
        40 => 0x289b7ec6,
        41 => 0xeaa127fa,
        42 => 0xd4ef3085,
        43 => 0x04881d05,
        44 => 0xd9d4d039,
        45 => 0xe6db99e5,
        46 => 0x1fa27cf8,
        47 => 0xc4ac5665,
        48 => 0xf4292244,
        49 => 0x432aff97,
        50 => 0xab9423a7,
        51 => 0xfc93a039,
        52 => 0x655b59c3,
        53 => 0x8f0ccc92,
        54 => 0xffeff47d,
        55 => 0x85845dd1,
        56 => 0x6fa87e4f,
        57 => 0xfe2ce6e0,
        58 => 0xa3014314,
        59 => 0x4e0811a1,
        60 => 0xf7537e82,
        61 => 0xbd3af235,
        62 => 0x2ad7d2bb,
        _ => 0xeb86d391,
    }
}

} // verus!
