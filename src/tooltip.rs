//! The tooltip as the shell's fixed-size wide-character field holds it.
use vstd::prelude::*;
use vstd::string::*;

verus! {

/// Code units in the shell's tooltip field.
pub const TOOLTIP_CAPACITY: usize = 128;

/// UTF-16 encoding of one character: one unit in the basic plane, else a
/// surrogate pair.
pub open spec fn utf16_of_char(c: char) -> Seq<u16> {
    let v = c as u32;
    if v < 0x10000 {
        seq![v as u16]
    } else {
        let u = (v - 0x10000) as u32;
        seq![(0xD800 + u / 0x400) as u16, (0xDC00 + u % 0x400) as u16]
    }
}

/// UTF-16 encoding of a string.
pub open spec fn utf16(s: Seq<char>) -> Seq<u16>
    decreases s.len(),
{
    if s.len() == 0 {
        Seq::empty()
    } else {
        utf16(s.drop_last()) + utf16_of_char(s.last())
    }
}

/// UTF-16 encoding followed by a terminating zero.
pub open spec fn wide(s: Seq<char>) -> Seq<u16> {
    utf16(s).push(0u16)
}

/// The tooltip field: the leading units of the terminated encoding that fit,
/// zero after them; all zero when there is no tooltip.
pub open spec fn field_of(tooltip: Option<Seq<char>>) -> Seq<u16> {
    Seq::new(
        TOOLTIP_CAPACITY as nat,
        |i: int|
            match tooltip {
                Some(t) => if i < wide(t).len() {
                    wide(t)[i]
                } else {
                    0u16
                },
                None => 0u16,
            },
    )
}

/// Encodes `s` as UTF-16 with a terminating zero.
pub fn encode_wide(s: &str) -> (r: Vec<u16>)
    ensures
        r@ == wide(s@),
{
    let n: usize = s.unicode_len();
    let mut out: Vec<u16> = Vec::new();
    let mut i: usize = 0;
    while i < n
        invariant
            n == s@.len(),
            i <= n,
            out@ == utf16(s@.subrange(0, i as int)),
        decreases n - i,
    {
        let c: char = s.get_char(i);
        let v: u32 = c as u32;
        if v < 0x10000 {
            out.push(v as u16);
        } else {
            let u: u32 = v - 0x10000;
            out.push((0xD800 + u / 0x400) as u16);
            out.push((0xDC00 + u % 0x400) as u16);
        }
        proof {
            let p = s@.subrange(0, i + 1);
            assert(p.drop_last() =~= s@.subrange(0, i as int));
            assert(p.last() == c);
        }
        i = i + 1;
    }
    assert(s@.subrange(0, n as int) =~= s@);
    out.push(0u16);
    out
}

/// The tooltip field for `tooltip`. Text longer than the field is cut off,
/// never refused.
pub fn tooltip_field(tooltip: Option<&str>) -> (r: Vec<u16>)
    ensures
        r@ == field_of(match tooltip {
            Some(t) => Some(t@),
            None => None,
        }),
        r@.len() == TOOLTIP_CAPACITY,
{
    let tip: Vec<u16> = match tooltip {
        Some(t) => encode_wide(t),
        None => Vec::new(),
    };
    let ghost model = match tooltip {
        Some(t) => Some(t@),
        None => None,
    };
    let mut out: Vec<u16> = Vec::new();
    let mut i: usize = 0;
    while i < TOOLTIP_CAPACITY
        invariant
            i <= TOOLTIP_CAPACITY,
            out@.len() == i,
            model is Some ==> tip@ == wide(model->0),
            model is None ==> tip@.len() == 0,
            forall|j: int| 0 <= j < i ==> out@[j] == field_of(model)[j],
        decreases TOOLTIP_CAPACITY - i,
    {
        if i < tip.len() {
            out.push(tip[i]);
        } else {
            out.push(0u16);
        }
        i = i + 1;
    }
    assert(out@ =~= field_of(model));
    out
}

} // verus!
