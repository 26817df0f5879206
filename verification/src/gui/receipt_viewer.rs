use vstd::prelude::*;
use crate::text::push_char;

verus! {

/// The 64-bit FNV-1a hash of a byte sequence.
pub open spec fn fnv1a(data: Seq<u8>) -> u64
    decreases data.len(),
{
    if data.len() == 0 {
        0xcbf29ce484222325
    } else {
        vstd::wrapping::u64_specs::wrapping_mul(
            fnv1a(data.drop_last()) ^ (data.last() as u64),
            0x100000001b3,
        )
    }
}

/// The key under which a bitmap's texture is cached: the FNV-1a hash of its bytes.
pub fn hash_bytes(data: &[u8]) -> (hash: u64)
    ensures
        hash == fnv1a(data@),
{
    let mut hash: u64 = 0xcbf29ce484222325;
    let n = data.len();
    let mut i: usize = 0;
    while i < n
        invariant
            n == data@.len(),
            0 <= i <= n,
            hash == fnv1a(data@.take(i as int)),
        decreases n - i,
    {
        proof {
            assert(data@.take(i + 1).drop_last() =~= data@.take(i as int));
        }
        hash = hash ^ (data[i] as u64);
        hash = hash.wrapping_mul(0x100000001b3);
        i = i + 1;
    }
    assert(data@.take(n as int) =~= data@);
    hash
}

/// Screen size, in points, of text printed at a font size.
pub open spec fn display_size_spec(font_size: u32) -> u32 {
    if font_size <= 8 {
        11
    } else if font_size <= 12 {
        13
    } else if font_size <= 20 {
        15
    } else if font_size <= 32 {
        18
    } else {
        22
    }
}

/// Screen size, in points, of text printed at a font size.
pub fn text_display_size(font_size: u32) -> (points: u32)
    ensures
        points == display_size_spec(font_size),
{
    if font_size <= 8 {
        11
    } else if font_size <= 12 {
        13
    } else if font_size <= 20 {
        15
    } else if font_size <= 32 {
        18
    } else {
        22
    }
}

/// The rule drawn for a paper cut: one box-drawing dash per character of the line.
pub fn separator_text(max_chars: u32) -> (line: String)
    ensures
        line@ == Seq::new(max_chars as nat, |i: int| '─'),
{
    let mut line = String::new();
    let mut i: u32 = 0;
    while i < max_chars
        invariant
            0 <= i <= max_chars,
            line@ == Seq::new(i as nat, |k: int| '─'),
        decreases max_chars - i,
    {
        push_char(&mut line, '─');
        i = i + 1;
        assert(line@ =~= Seq::new(i as nat, |k: int| '─'));
    }
    line
}

} // verus!
