//! The frame side of running ffmpeg under an agent: raw RGB8 frames are
//! cut from what ffmpeg writes, one whole frame at a time, and each is
//! stored under a numbered name.
use vstd::prelude::*;
use crate::text::{append_str, decimal, from_chars, push_decimal};

verus! {

/// The size in bytes of a raw RGB8 frame: three bytes a pixel.
pub open spec fn rgb_frame_size(width: nat, height: nat) -> nat {
    width * height * 3
}

/// The size of a raw RGB8 frame of this width and height.
pub fn frame_size(width: u32, height: u32) -> (n: usize)
    requires
        rgb_frame_size(width as nat, height as nat) <= usize::MAX,
    ensures
        n == rgb_frame_size(width as nat, height as nat),
{
    assert(width as nat * height as nat * 3 <= usize::MAX);
    assert((width as nat) * (height as nat) <= usize::MAX) by (nonlinear_arith)
        requires
            (width as nat) * (height as nat) * 3 <= usize::MAX;
    let wh = (width as usize) * (height as usize);
    wh * 3
}

/// Appends the bytes just read (the first `size` of the read buffer) to
/// the bytes waiting to make up a frame.
pub fn append_read(buffer: &mut Vec<u8>, read: &[u8], size: usize)
    requires
        size <= read@.len(),
    ensures
        final(buffer)@ == old(buffer)@ + read@.subrange(0, size as int),
{
    let ghost start = buffer@;
    let mut i: usize = 0;
    while i < size
        invariant
            i <= size,
            size <= read@.len(),
            buffer@ == start + read@.subrange(0, i as int),
        decreases size - i,
    {
        buffer.push(read[i]);
        assert(read@.subrange(0, i + 1) =~= read@.subrange(0, i as int).push(read@[i as int]));
        i = i + 1;
    }
}

/// Takes a whole frame from the front of the buffer when one is there;
/// the rest stays for the next frame.
pub fn take_frame(buffer: &mut Vec<u8>, frame_size: usize) -> (f: Option<Vec<u8>>)
    ensures
        f is Some <==> old(buffer)@.len() >= frame_size,
        f matches Some(x) ==> x@ == old(buffer)@.take(frame_size as int)
            && final(buffer)@ == old(buffer)@.skip(frame_size as int),
        f is None ==> final(buffer)@ == old(buffer)@,
{
    if buffer.len() < frame_size {
        return None;
    }
    let mut rest = buffer.split_off(frame_size);
    std::mem::swap(buffer, &mut rest);
    Some(rest)
}

/// One read of ffmpeg's output: the bytes read join the buffer, and at
/// most one whole frame is taken from its front.
pub fn frame_after_read(buffer: &mut Vec<u8>, read: &[u8], size: usize, frame_size: usize) -> (f: Option<Vec<u8>>)
    requires
        size <= read@.len(),
    ensures
        ({
            let joined = old(buffer)@ + read@.subrange(0, size as int);
            &&& f is Some <==> joined.len() >= frame_size
            &&& f matches Some(x) ==> x@ == joined.take(frame_size as int)
                && final(buffer)@ == joined.skip(frame_size as int)
            &&& f is None ==> final(buffer)@ == joined
        }),
{
    append_read(buffer, read, size);
    take_frame(buffer, frame_size)
}

/// Cutting a frame from the front of the buffer loses no byte and
/// reorders none: the frame followed by what is left is the buffer.
pub proof fn lemma_frame_split(buffer: Seq<u8>, frame_size: int)
    requires
        0 <= frame_size <= buffer.len(),
    ensures
        buffer.take(frame_size) + buffer.skip(frame_size) == buffer,
{
    assert(buffer.take(frame_size) + buffer.skip(frame_size) =~= buffer);
}

/// A number written in decimal with zeros in front up to `width` digits.
pub open spec fn zero_padded(n: nat, width: nat) -> Seq<char> {
    let d = decimal(n);
    if d.len() >= width {
        d
    } else {
        Seq::new((width - d.len()) as nat, |i: int| '0') + d
    }
}

/// The name of the frame at this index: `frame-` and the index in four
/// digits at least.
pub fn frame_name(index: u64) -> (s: String)
    ensures
        s@ == "frame-"@ + zero_padded(index as nat, 4),
{
    let mut digits: Vec<char> = Vec::new();
    push_decimal(&mut digits, index);
    assert(digits@ =~= decimal(index as nat));
    let mut out: Vec<char> = Vec::new();
    append_str(&mut out, "frame-");
    let ghost head = out@;
    let mut pad: usize = 0;
    let fill: usize = if digits.len() < 4 { 4 - digits.len() } else { 0 };
    while pad < fill
        invariant
            pad <= fill,
            out@ == head + Seq::new(pad as nat, |i: int| '0'),
        decreases fill - pad,
    {
        out.push('0');
        assert(Seq::new((pad + 1) as nat, |i: int| '0') =~= Seq::new(pad as nat, |i: int| '0').push('0'));
        pad = pad + 1;
    }
    let ghost padded = out@;
    let mut i: usize = 0;
    while i < digits.len()
        invariant
            i <= digits.len(),
            out@ == padded + digits@.subrange(0, i as int),
        decreases digits.len() - i,
    {
        out.push(digits[i]);
        assert(digits@.subrange(0, i + 1) =~= digits@.subrange(0, i as int).push(digits@[i as int]));
        i = i + 1;
    }
    assert(digits@.subrange(0, digits.len() as int) =~= digits@);
    proof {
        if digits.len() >= 4 {
            assert(Seq::new(0, |i: int| '0') =~= Seq::<char>::empty());
            assert(out@ =~= head + decimal(index as nat));
        } else {
            assert(out@ =~= head + (Seq::new((4 - decimal(index as nat).len()) as nat, |i: int| '0') + decimal(index as nat)));
        }
    }
    from_chars(&out)
}

/// Where the frame at this index is saved: `output/<name>.jpg`.
pub fn frame_path(index: u64) -> (s: String)
    ensures
        s@ == "output/frame-"@ + zero_padded(index as nat, 4) + ".jpg"@,
{
    let name = frame_name(index);
    let mut out: Vec<char> = Vec::new();
    append_str(&mut out, "output/");
    append_str(&mut out, name.as_str());
    append_str(&mut out, ".jpg");
    proof {
        reveal_strlit("output/");
        reveal_strlit("frame-");
        reveal_strlit("output/frame-");
        assert("output/"@ + ("frame-"@ + zero_padded(index as nat, 4)) =~= "output/frame-"@ + zero_padded(index as nat, 4));
    }
    from_chars(&out)
}

} // verus!
