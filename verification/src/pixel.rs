//! Channel-order swap and alpha premultiplication over 4-byte-stride pixel
//! buffers, the two passes of the image normalizer, together with signature
//! probes for the container formats the decoder boundary distinguishes.

use vstd::prelude::*;
use vstd::arithmetic::div_mod::lemma_div_multiples_vanish;

verus! {

/// One channel premultiplied by an alpha value: integer arithmetic with
/// truncating division, no further rounding.
pub open spec fn premul(c: u8, a: u8) -> u8 {
    ((c * a) / 255) as u8
}

/// The byte at index `i` after the channel-order swap: within each 4-byte
/// pixel, bytes 0 and 2 trade places and bytes 1 and 3 stay.
pub open spec fn swap_index(s: Seq<u8>, i: int) -> u8 {
    if i % 4 == 0 {
        s[i + 2]
    } else if i % 4 == 2 {
        s[i - 2]
    } else {
        s[i]
    }
}

/// The whole buffer after the channel-order swap.
pub open spec fn swapped(s: Seq<u8>) -> Seq<u8> {
    Seq::new(s.len(), |i: int| swap_index(s, i))
}

/// The byte at index `i` after swapping channel order and premultiplying
/// each colour channel by the pixel's alpha; the alpha byte itself passes
/// through unchanged.
pub open spec fn premul_swap_index(s: Seq<u8>, i: int) -> u8 {
    let base = i - i % 4;
    let a = s[base + 3];
    if i % 4 == 0 {
        premul(s[base + 2], a)
    } else if i % 4 == 1 {
        premul(s[base + 1], a)
    } else if i % 4 == 2 {
        premul(s[base], a)
    } else {
        s[i]
    }
}

/// The whole buffer after swap-and-premultiply.
pub open spec fn swapped_premultiplied(s: Seq<u8>) -> Seq<u8> {
    Seq::new(s.len(), |i: int| premul_swap_index(s, i))
}

/// A pixel base that starts strictly inside a whole-stride buffer has its
/// whole 4-byte block inside the buffer.
pub proof fn lemma_block_in_bounds(base: int, len: int)
    requires
        0 <= base < len,
        base % 4 == 0,
        len % 4 == 0,
    ensures
        base + 4 <= len,
{
    assert(base + 4 <= len) by (nonlinear_arith)
        requires
            0 <= base < len,
            base % 4 == 0,
            len % 4 == 0,
    ;
}

/// Swaps bytes 0 and 2 of every 4-byte pixel in place, turning R,G,B,A
/// channel order into B,G,R,A (and back).
pub fn byte_swap(data: &mut Vec<u8>)
    requires
        old(data).len() % 4 == 0,
    ensures
        final(data)@ == swapped(old(data)@),
{
    let ghost orig: Seq<u8> = data@;
    let length = data.len();
    let mut i: usize = 0;
    while i < length
        invariant
            data@.len() == length,
            length % 4 == 0,
            i % 4 == 0,
            i <= length,
            orig == old(data)@,
            orig.len() == length,
            forall|j: int| 0 <= j < i ==> data@[j] == swapped(orig)[j],
            forall|j: int| i <= j < length ==> data@[j] == orig[j],
        decreases length - i,
    {
        proof {
            lemma_block_in_bounds(i as int, length as int);
        }
        let r = data[i + 2];
        let b = data[i];
        data.set(i + 2, b);
        data.set(i, r);
        proof {
            let ii = i as int;
            assert((ii + 1) % 4 == 1);
            assert((ii + 2) % 4 == 2);
            assert((ii + 3) % 4 == 3);
            assert(data@[ii] == swapped(orig)[ii]);
            assert(data@[ii + 1] == swapped(orig)[ii + 1]);
            assert(data@[ii + 2] == swapped(orig)[ii + 2]);
            assert(data@[ii + 3] == swapped(orig)[ii + 3]);
        }
        i = i + 4;
    }
    assert(data@ =~= swapped(orig));
}

/// The product of a colour channel and an alpha byte stays within `u32`
/// range, and its truncating division by 255 stays within `u8` range.
proof fn lemma_premul_bounds(c: u8, a: u8)
    ensures
        c * a <= 65025,
        (c * a) / 255 <= 255,
{
    assert(c * a <= 65025) by (nonlinear_arith)
        requires
            c <= 255,
            a <= 255,
    ;
}

/// Swaps bytes 0 and 2 of every 4-byte pixel and scales each colour channel
/// by the pixel's alpha (`channel * alpha / 255`, truncating); the alpha
/// byte is passed through unchanged.
pub fn byte_swap_and_premultiply(data: &mut Vec<u8>)
    requires
        old(data).len() % 4 == 0,
    ensures
        final(data)@ == swapped_premultiplied(old(data)@),
{
    let ghost orig: Seq<u8> = data@;
    let length = data.len();
    let mut i: usize = 0;
    while i < length
        invariant
            data@.len() == length,
            length % 4 == 0,
            i % 4 == 0,
            i <= length,
            orig == old(data)@,
            orig.len() == length,
            forall|j: int| 0 <= j < i ==> data@[j] == swapped_premultiplied(orig)[j],
            forall|j: int| i <= j < length ==> data@[j] == orig[j],
        decreases length - i,
    {
        proof {
            lemma_block_in_bounds(i as int, length as int);
        }
        let r = data[i + 2];
        let g = data[i + 1];
        let b = data[i];
        let a = data[i + 3];
        proof {
            lemma_premul_bounds(r, a);
            lemma_premul_bounds(g, a);
            lemma_premul_bounds(b, a);
        }
        let pr = ((r as u32) * (a as u32) / 255) as u8;
        let pg = ((g as u32) * (a as u32) / 255) as u8;
        let pb = ((b as u32) * (a as u32) / 255) as u8;
        data.set(i, pr);
        data.set(i + 1, pg);
        data.set(i + 2, pb);
        proof {
            let ii = i as int;
            assert((ii + 1) % 4 == 1);
            assert((ii + 2) % 4 == 2);
            assert((ii + 3) % 4 == 3);
            assert(pr == premul(orig[ii + 2], orig[ii + 3]));
            assert(pg == premul(orig[ii + 1], orig[ii + 3]));
            assert(pb == premul(orig[ii], orig[ii + 3]));
            assert(data@[ii] == swapped_premultiplied(orig)[ii]);
            assert(data@[ii + 1] == swapped_premultiplied(orig)[ii + 1]);
            assert(data@[ii + 2] == swapped_premultiplied(orig)[ii + 2]);
            assert(data@[ii + 3] == swapped_premultiplied(orig)[ii + 3]);
        }
        i = i + 4;
    }
    assert(data@ =~= swapped_premultiplied(orig));
}

/// The channel-order swap is its own inverse: applied twice to a
/// whole-stride buffer it restores the original bytes.
pub proof fn lemma_byte_swap_involution(s: Seq<u8>)
    requires
        s.len() % 4 == 0,
    ensures
        swapped(swapped(s)) == s,
{
    let t = swapped(s);
    assert forall|i: int| 0 <= i < s.len() implies swapped(t)[i] == s[i] by {
        if i % 4 == 0 {
            lemma_block_in_bounds(i, s.len() as int);
            assert(swapped(t)[i] == t[i + 2]);
            assert(t[i + 2] == s[i]);
        } else if i % 4 == 2 {
            lemma_block_in_bounds(i - 2, s.len() as int);
            assert(swapped(t)[i] == t[i - 2]);
            assert(t[i - 2] == s[i]);
        }
    };
    assert(swapped(t) =~= s);
}

/// At full opacity premultiplication changes nothing: a pixel whose alpha
/// byte is 255 has the same four bytes under swap-and-premultiply as under
/// the plain channel swap.
pub proof fn lemma_premultiply_opaque_is_swap(s: Seq<u8>, base: int)
    requires
        s.len() % 4 == 0,
        0 <= base < s.len(),
        base % 4 == 0,
        s[base + 3] == 255,
    ensures
        swapped_premultiplied(s)[base] == swapped(s)[base],
        swapped_premultiplied(s)[base + 1] == swapped(s)[base + 1],
        swapped_premultiplied(s)[base + 2] == swapped(s)[base + 2],
        swapped_premultiplied(s)[base + 3] == swapped(s)[base + 3],
{
    lemma_block_in_bounds(base, s.len() as int);
    lemma_div_multiples_vanish(s[base + 2] as int, 255);
    lemma_div_multiples_vanish(s[base + 1] as int, 255);
    lemma_div_multiples_vanish(s[base] as int, 255);
}

/// A fully transparent pixel premultiplies to zero in every colour channel,
/// whatever its source colour was; its alpha byte stays zero.
pub proof fn lemma_premultiply_transparent(s: Seq<u8>, base: int)
    requires
        s.len() % 4 == 0,
        0 <= base < s.len(),
        base % 4 == 0,
        s[base + 3] == 0,
    ensures
        swapped_premultiplied(s)[base] == 0,
        swapped_premultiplied(s)[base + 1] == 0,
        swapped_premultiplied(s)[base + 2] == 0,
        swapped_premultiplied(s)[base + 3] == 0,
{
    lemma_block_in_bounds(base, s.len() as int);
}

/// True when the buffer begins with a GIF signature (`GIF87a` or `GIF89a`).
pub open spec fn spec_is_gif(s: Seq<u8>) -> bool {
    s.len() >= 6 && s[0] == 71u8 && s[1] == 73u8 && s[2] == 70u8 && s[3] == 56u8 && (s[4] == 55u8
        || s[4] == 57u8) && s[5] == 97u8
}

/// Detects a GIF-origin buffer by its signature; such a buffer carries
/// non-premultiplied alpha and must take the premultiplying path.
pub fn is_gif(buffer: &[u8]) -> (r: bool)
    ensures
        r == spec_is_gif(buffer@),
{
    buffer.len() >= 6 && buffer[0] == 71u8 && buffer[1] == 73u8 && buffer[2] == 70u8 && buffer[3]
        == 56u8 && (buffer[4] == 55u8 || buffer[4] == 57u8) && buffer[5] == 97u8
}

/// True when the buffer begins with the 8-byte PNG file signature.
pub open spec fn spec_is_png(s: Seq<u8>) -> bool {
    s.len() >= 8 && s[0] == 137u8 && s[1] == 80u8 && s[2] == 78u8 && s[3] == 71u8 && s[4] == 13u8
        && s[5] == 10u8 && s[6] == 26u8 && s[7] == 10u8
}

/// Detects a PNG container by its signature; such a buffer goes to the PNG
/// decoder rather than the general-purpose one.
pub fn is_png(buffer: &[u8]) -> (r: bool)
    ensures
        r == spec_is_png(buffer@),
{
    buffer.len() >= 8 && buffer[0] == 137u8 && buffer[1] == 80u8 && buffer[2] == 78u8 && buffer[3]
        == 71u8 && buffer[4] == 13u8 && buffer[5] == 10u8 && buffer[6] == 26u8 && buffer[7] == 10u8
}

} // verus!
