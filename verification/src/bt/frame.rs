//! The command frame: eleven bytes, closed by a checksum that brings their
//! sum to zero modulo 256.

use vstd::prelude::*;

verus! {

/// Number of bytes in a command frame.
pub const FRAME_LEN: usize = 11;

/// The fields of a lighting command, each one byte wide on the wire.
#[derive(Clone, Copy, Debug, PartialEq, Eq)]
pub struct CmdData {
    pub mode: u8,
    pub rgb: [u8; 3],
    pub bpm: u8,
    pub duration: u8,
}

impl Default for CmdData {
    /// The command with every field zero.
    fn default() -> (d: Self)
        ensures
            d.mode == 0,
            d.rgb@ == seq![0u8, 0u8, 0u8],
            d.bpm == 0,
            d.duration == 0,
    {
        CmdData { mode: 0, rgb: [0, 0, 0], bpm: 0, duration: 0 }
    }
}

/// A request from the presentation side to the dispatcher.
#[derive(Clone, Copy, Debug, PartialEq, Eq)]
pub enum BtCommands {
    SetMode(CmdData),
}

/// The four bytes that open every command frame.
pub open spec fn header() -> Seq<u8> {
    seq![0xFCu8, 0x04u8, 0x01u8, 0x06u8]
}

/// The six field bytes of a command, in wire order.
pub open spec fn fields(d: CmdData) -> Seq<u8> {
    seq![d.mode, d.rgb[0], d.rgb[1], d.rgb[2], d.bpm, d.duration]
}

/// Sum of the bytes of `s`, as a mathematical integer.
pub open spec fn byte_sum(s: Seq<u8>) -> int
    decreases s.len(),
{
    if s.len() == 0 {
        0
    } else {
        byte_sum(s.drop_last()) + s.last() as int
    }
}

/// The byte that, appended to `s`, brings the sum to a multiple of 256.
pub open spec fn checksum(s: Seq<u8>) -> u8 {
    ((256 - byte_sum(s) % 256) % 256) as u8
}

/// The frame of a command: header, fields, checksum over both.
pub open spec fn frame(d: CmdData) -> Seq<u8> {
    (header() + fields(d)).push(checksum(header() + fields(d)))
}

/// The frame of a command as the array that goes out on the wire.
pub open spec fn encoded(d: CmdData) -> [u8; 11] {
    [
        0xFCu8,
        0x04u8,
        0x01u8,
        0x06u8,
        d.mode,
        d.rgb[0],
        d.rgb[1],
        d.rgb[2],
        d.bpm,
        d.duration,
        checksum(header() + fields(d)),
    ]
}

/// Appending a byte adds it to the sum.
pub proof fn lemma_byte_sum_push(s: Seq<u8>, b: u8)
    ensures
        byte_sum(s.push(b)) == byte_sum(s) + b as int,
{
    assert(s.push(b).drop_last() =~= s);
}

/// One step of the running checksum: subtracting the next byte with
/// wraparound gives the checksum of the longer sequence.
pub proof fn lemma_checksum_push(s: Seq<u8>, b: u8)
    ensures
        checksum(s.push(b)) == vstd::wrapping::u8_specs::wrapping_sub(checksum(s), b),
{
    lemma_byte_sum_push(s, b);
}

/// A sequence closed by its checksum sums to zero modulo 256.
pub proof fn lemma_checksum_closes(s: Seq<u8>)
    ensures
        byte_sum(s.push(checksum(s))) % 256 == 0,
{
    lemma_byte_sum_push(s, checksum(s));
}

/// The frame is laid out as the wire expects: eleven bytes, the header in
/// front, the fields behind it in their order, the checksum of these ten at
/// the end.
pub proof fn lemma_frame_layout(d: CmdData)
    ensures
        frame(d).len() == FRAME_LEN,
        frame(d).subrange(0, 4) == header(),
        frame(d).subrange(4, 10) == fields(d),
        frame(d)[10] == checksum(frame(d).subrange(0, 10)),
        byte_sum(frame(d)) % 256 == 0,
{
    let body = header() + fields(d);
    assert(frame(d).subrange(0, 4) =~= header());
    assert(frame(d).subrange(4, 10) =~= fields(d));
    assert(frame(d).subrange(0, 10) =~= body);
    lemma_checksum_closes(body);
}

/// Encoding is a function of the six field bytes and one to one: commands
/// with the same fields have the same frame, and commands with the same
/// frame have the same fields.
pub proof fn lemma_frame_determined_by_fields(a: CmdData, b: CmdData)
    ensures
        fields(a) == fields(b) <==> frame(a) == frame(b),
{
    if frame(a) == frame(b) {
        lemma_frame_layout(a);
        lemma_frame_layout(b);
    }
}

/// Closing a sequence with its checksum is not its own inverse: done twice
/// it does not give the sequence back, but appends the checksum and then a
/// zero.
pub proof fn lemma_closing_is_not_an_involution(s: Seq<u8>)
    ensures
        s.push(checksum(s)).push(checksum(s.push(checksum(s)))) != s,
        checksum(s.push(checksum(s))) == 0,
{
    lemma_checksum_closes(s);
    assert(s.push(checksum(s)).push(checksum(s.push(checksum(s)))).len() == s.len() + 2);
}

/// Computes the checksum of `bytes` by wraparound subtraction from zero.
pub fn checksum_of(bytes: &[u8]) -> (c: u8)
    ensures
        c == checksum(bytes@),
{
    let mut acc: u8 = 0;
    let mut i: usize = 0;
    assert(bytes@.subrange(0, 0) =~= Seq::<u8>::empty());
    while i < bytes.len()
        invariant
            i <= bytes.len(),
            acc == checksum(bytes@.subrange(0, i as int)),
        decreases bytes.len() - i,
    {
        proof {
            lemma_checksum_push(bytes@.subrange(0, i as int), bytes@[i as int]);
            assert(bytes@.subrange(0, i as int).push(bytes@[i as int]) =~= bytes@.subrange(
                0,
                i + 1,
            ));
        }
        acc = acc.wrapping_sub(bytes[i]);
        i += 1;
    }
    assert(bytes@.subrange(0, i as int) =~= bytes@);
    acc
}

/// Builds the frame of a command: the header, the six fields, and the
/// checksum that closes them.
pub fn command(d: CmdData) -> (cmd: [u8; 11])
    ensures
        cmd == encoded(d),
        cmd@ == frame(d),
        byte_sum(cmd@) % 256 == 0,
{
    let mut cmd: [u8; 11] = [
        0xFC,
        0x04,
        0x01,
        0x06,
        d.mode,
        d.rgb[0],
        d.rgb[1],
        d.rgb[2],
        d.bpm,
        d.duration,
        0x00,
    ];
    let ghost body = header() + fields(d);
    // The last byte is still zero, which leaves the running checksum as it is.
    let sum = checksum_of(cmd.as_slice());
    proof {
        assert(cmd@ =~= body.push(0u8));
        lemma_checksum_push(body, 0u8);
    }
    cmd[10] = sum;
    proof {
        assert(cmd@ =~= body.push(checksum(body)));
        assert(cmd =~= encoded(d));
        lemma_checksum_closes(body);
    }
    cmd
}

} // verus!
