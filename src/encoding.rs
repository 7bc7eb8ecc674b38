use vstd::prelude::*;

verus! {

/// Largest value of a 32-bit command word, plus one.
pub const WORD_LIMIT: u64 = 0x1_0000_0000;

/// A command word split into its fields.
#[derive(Clone, Copy, Debug, PartialEq, Eq, Structural)]
pub struct CommandWord {
    /// Bits 7..0.
    pub port: usize,
    /// Bits 15..8.
    pub pin: usize,
    /// Bits 31..16.
    pub extra: usize,
}

impl CommandWord {
    /// All fields fit their bit ranges.
    pub open spec fn in_range(self) -> bool {
        self.port < 0x100 && self.pin < 0x100 && self.extra < 0x1_0000
    }
}

/// The fields of a command word, as numbers.
pub open spec fn decode_spec(data: nat) -> CommandWord {
    CommandWord {
        port: (data % 0x100) as usize,
        pin: ((data / 0x100) % 0x100) as usize,
        extra: ((data / 0x1_0000) % 0x1_0000) as usize,
    }
}

/// The command word that packs the given fields.
pub open spec fn encode_spec(w: CommandWord) -> nat {
    (w.port + w.pin * 0x100 + w.extra * 0x1_0000) as nat
}

/// Splits a command word into port (bits 7..0), pin (bits 15..8) and extra
/// configuration (bits 31..16). Higher bits are ignored.
pub fn decode(data: usize) -> (r: CommandWord)
    ensures
        r == decode_spec(data as nat),
        r.in_range(),
{
    let port = data & 0xFF;
    let pin = (data >> 8) & 0xFF;
    let extra = (data >> 16) & 0xFFFF;
    assert(port == data % 0x100) by (bit_vector)
        requires port == data & 0xFF;
    assert(pin == (data / 0x100) % 0x100) by (bit_vector)
        requires pin == (data >> 8) & 0xFF;
    assert(extra == (data / 0x1_0000) % 0x1_0000) by (bit_vector)
        requires extra == (data >> 16) & 0xFFFF;
    CommandWord { port, pin, extra }
}

/// Packs port, pin and extra configuration into a command word.
pub fn encode(w: CommandWord) -> (r: usize)
    requires
        w.in_range(),
    ensures
        r as nat == encode_spec(w),
        (r as nat) < WORD_LIMIT,
{
    let r = w.port | (w.pin << 8) | (w.extra << 16);
    let (p, q, e) = (w.port, w.pin, w.extra);
    assert(p | (q << 8) | (e << 16) == p + q * 0x100 + e * 0x1_0000
        && p + q * 0x100 + e * 0x1_0000 < 0x1_0000_0000) by (bit_vector)
        requires p < 0x100, q < 0x100, e < 0x1_0000;
    r
}

/// Decoding a 32-bit command word and packing its fields again gives back
/// the same word.
pub proof fn lemma_encode_decode(data: nat)
    requires
        data < WORD_LIMIT,
    ensures
        decode_spec(data).in_range(),
        encode_spec(decode_spec(data)) == data,
{
    let w = decode_spec(data);
    assert(data % 0x100 < 0x100);
    assert((data / 0x100) % 0x100 < 0x100);
    assert(data / 0x1_0000 < 0x1_0000) by (nonlinear_arith)
        requires data < 0x1_0000_0000;
    assert(data == data % 0x100 + (data / 0x100) * 0x100) by (nonlinear_arith);
    let h = data / 0x100;
    assert(h == h % 0x100 + (h / 0x100) * 0x100) by (nonlinear_arith);
    assert(h / 0x100 == data / 0x1_0000) by (nonlinear_arith)
        requires h == data / 0x100;
}

/// Packing in-range fields and decoding the word gives back the same fields.
pub proof fn lemma_decode_encode(w: CommandWord)
    requires
        w.in_range(),
    ensures
        encode_spec(w) < WORD_LIMIT,
        decode_spec(encode_spec(w)) == w,
{
    let (p, q, e) = (w.port as int, w.pin as int, w.extra as int);
    let d = p + q * 0x100 + e * 0x1_0000;
    assert(d % 0x100 == p && (d / 0x100) % 0x100 == q && (d / 0x1_0000) % 0x1_0000 == e
        && d < 0x1_0000_0000) by (nonlinear_arith)
        requires 0 <= p < 0x100, 0 <= q < 0x100, 0 <= e < 0x1_0000, d == p + q * 0x100 + e * 0x1_0000;
}

} // verus!
