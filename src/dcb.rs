//! The device-control block: its semantic fields, its packed 28-byte layout
//! (little-endian), and the line settings stored in it.

use vstd::prelude::*;

verus! {

/// Size in bytes of the packed control block.
pub const DCB_SIZE: usize = 28;

/// Binary mode; the host requires it to be set.
pub const DCBF_BINARY: u16 = 0x0001;
/// Parity checking is enabled.
pub const DCBF_PARITY: u16 = 0x0002;
/// CTS is monitored for output flow control.
pub const DCBF_OUTX_CTS_FLOW: u16 = 0x0004;
/// DSR is monitored for output flow control.
pub const DCBF_OUTX_DSR_FLOW: u16 = 0x0008;
/// Low bit of the two-bit DTR control field.
pub const DCBF_DTR_CONTROL_LO: u16 = 0x0010;
/// High bit of the two-bit DTR control field.
pub const DCBF_DTR_CONTROL_HI: u16 = 0x0020;
/// The driver is sensitive to the state of the DSR line.
pub const DCBF_DSR_SENSITIVITY: u16 = 0x0040;
/// Transmission continues after the input buffer signalled XOFF.
pub const DCBF_TX_CONTINUE_ON_XOFF: u16 = 0x0080;
/// XON/XOFF flow control is used during transmission.
pub const DCBF_OUTX: u16 = 0x0100;
/// XON/XOFF flow control is used during reception.
pub const DCBF_INX: u16 = 0x0200;
/// Bytes received with parity errors are replaced by the error character.
pub const DCBF_ERROR_CHAR: u16 = 0x0400;
/// Null bytes are discarded on reception.
pub const DCBF_NULL: u16 = 0x0800;
/// Low bit of the two-bit RTS control field.
pub const DCBF_RTS_CONTROL_LO: u16 = 0x1000;
/// High bit of the two-bit RTS control field.
pub const DCBF_RTS_CONTROL_HI: u16 = 0x2000;
/// Reads and writes are aborted when an error occurs.
pub const DCBF_ABORT_ON_ERROR: u16 = 0x4000;
/// Reserved.
pub const DCBF_DUMMY: u16 = 0x8000;

/// Both bits of the DTR control field.
pub const DCBF_DTR_MASK: u16 = 0x0030;

/// The configuration of a serial line, as the host's control block holds it.
#[derive(Clone, Copy, Debug, PartialEq, Eq, Structural)]
pub struct DCB {
    pub dcb_length: u32,
    pub baud_rate: u32,
    pub flags: u16,
    pub f_dummy: u16,
    pub w_reserved: u16,
    pub xon_lim: u16,
    pub xoff_lim: u16,
    pub byte_size: u8,
    pub parity: u8,
    pub stop_bits: u8,
    pub xon_char: u8,
    pub xoff_char: u8,
    pub error_char: u8,
    pub eof_char: u8,
    pub evt_char: u8,
    pub w_reserved1: u16,
}

/// Parity scheme of a serial line.
#[allow(non_camel_case_types)]
#[derive(Clone, Copy, Debug, PartialEq, Eq, Structural)]
pub enum Parity {
    NO,
    ODD,
    EVEN,
    MARK,
    SPACE,
}

/// Number of stop bits of a serial line.
#[allow(non_camel_case_types)]
#[derive(Clone, Copy, Debug, PartialEq, Eq, Structural)]
pub enum StopBits {
    ONE,
    ONE5,
    TWO,
}

/// How the DTR line is driven.
#[allow(non_camel_case_types)]
#[derive(Clone, Copy, Debug, PartialEq, Eq, Structural)]
pub enum DTR_CONTROL {
    DISABLE,
    ENABLE,
    HANDSHAKE,
}

pub open spec fn parity_code(p: Parity) -> u8 {
    match p {
        Parity::NO => 0,
        Parity::ODD => 1,
        Parity::EVEN => 2,
        Parity::MARK => 3,
        Parity::SPACE => 4,
    }
}

pub open spec fn stop_bits_code(s: StopBits) -> u8 {
    match s {
        StopBits::ONE => 0,
        StopBits::ONE5 => 1,
        StopBits::TWO => 2,
    }
}

impl Parity {
    /// The code that the control block stores for this parity.
    pub fn code(&self) -> (r: u8)
        ensures
            r == parity_code(*self),
    {
        match self {
            Parity::NO => 0,
            Parity::ODD => 1,
            Parity::EVEN => 2,
            Parity::MARK => 3,
            Parity::SPACE => 4,
        }
    }

    /// The parity that a control-block code stands for, if any.
    pub fn from_code(c: u8) -> (r: Option<Parity>)
        ensures
            c <= 4 <==> r.is_some(),
            r matches Some(p) ==> parity_code(p) == c,
    {
        match c {
            0 => Some(Parity::NO),
            1 => Some(Parity::ODD),
            2 => Some(Parity::EVEN),
            3 => Some(Parity::MARK),
            4 => Some(Parity::SPACE),
            _ => None,
        }
    }
}

impl StopBits {
    /// The code that the control block stores for this number of stop bits.
    pub fn code(&self) -> (r: u8)
        ensures
            r == stop_bits_code(*self),
    {
        match self {
            StopBits::ONE => 0,
            StopBits::ONE5 => 1,
            StopBits::TWO => 2,
        }
    }

    /// The number of stop bits that a control-block code stands for, if any.
    pub fn from_code(c: u8) -> (r: Option<StopBits>)
        ensures
            c <= 2 <==> r.is_some(),
            r matches Some(s) ==> stop_bits_code(s) == c,
    {
        match c {
            0 => Some(StopBits::ONE),
            1 => Some(StopBits::ONE5),
            2 => Some(StopBits::TWO),
            _ => None,
        }
    }
}

/// The two DTR bits that each mode stands for.
pub open spec fn dtr_pattern(control: DTR_CONTROL) -> u16 {
    match control {
        DTR_CONTROL::DISABLE => 0x0000,
        DTR_CONTROL::ENABLE => 0x0010,
        DTR_CONTROL::HANDSHAKE => 0x0030,
    }
}

/// The flags with the DTR field replaced by the pattern of `control`.
pub open spec fn flags_with_dtr(flags: u16, control: DTR_CONTROL) -> u16 {
    (flags & !DCBF_DTR_MASK) | dtr_pattern(control)
}

/// The little-endian 16-bit value stored at `i`.
pub open spec fn u16_at(s: Seq<u8>, i: int) -> u16 {
    (s[i] as u16) | ((s[i + 1] as u16) << 8u16)
}

/// The little-endian 32-bit value stored at `i`.
pub open spec fn u32_at(s: Seq<u8>, i: int) -> u32 {
    (s[i] as u32) | ((s[i + 1] as u32) << 8u32) | ((s[i + 2] as u32) << 16u32) | ((s[i + 3]
        as u32) << 24u32)
}

/// The control block that a 28-byte image holds.
pub open spec fn dcb_from_bytes(s: Seq<u8>) -> DCB {
    DCB {
        dcb_length: u32_at(s, 0),
        baud_rate: u32_at(s, 4),
        flags: u16_at(s, 8),
        f_dummy: u16_at(s, 10),
        w_reserved: u16_at(s, 12),
        xon_lim: u16_at(s, 14),
        xoff_lim: u16_at(s, 16),
        byte_size: s[18],
        parity: s[19],
        stop_bits: s[20],
        xon_char: s[21],
        xoff_char: s[22],
        error_char: s[23],
        eof_char: s[24],
        evt_char: s[25],
        w_reserved1: u16_at(s, 26),
    }
}

/// The packed image of a control block: each field in order, little-endian.
pub open spec fn dcb_bytes(d: DCB) -> Seq<u8> {
    seq![
        d.dcb_length as u8, (d.dcb_length >> 8u32) as u8, (d.dcb_length >> 16u32) as u8,
        (d.dcb_length >> 24u32) as u8,
        d.baud_rate as u8, (d.baud_rate >> 8u32) as u8, (d.baud_rate >> 16u32) as u8,
        (d.baud_rate >> 24u32) as u8,
        d.flags as u8, (d.flags >> 8u16) as u8,
        d.f_dummy as u8, (d.f_dummy >> 8u16) as u8,
        d.w_reserved as u8, (d.w_reserved >> 8u16) as u8,
        d.xon_lim as u8, (d.xon_lim >> 8u16) as u8,
        d.xoff_lim as u8, (d.xoff_lim >> 8u16) as u8,
        d.byte_size, d.parity, d.stop_bits,
        d.xon_char, d.xoff_char, d.error_char, d.eof_char, d.evt_char,
        d.w_reserved1 as u8, (d.w_reserved1 >> 8u16) as u8,
    ]
}

proof fn lemma_u16_bytes(b0: u8, b1: u8)
    by (bit_vector)
    ensures
        ((b0 as u16) | ((b1 as u16) << 8u16)) as u8 == b0,
        (((b0 as u16) | ((b1 as u16) << 8u16)) >> 8u16) as u8 == b1,
{
}

proof fn lemma_u32_bytes(b0: u8, b1: u8, b2: u8, b3: u8)
    by (bit_vector)
    ensures
        ((b0 as u32) | ((b1 as u32) << 8u32) | ((b2 as u32) << 16u32) | ((b3 as u32) << 24u32))
            as u8 == b0,
        (((b0 as u32) | ((b1 as u32) << 8u32) | ((b2 as u32) << 16u32) | ((b3 as u32) << 24u32))
            >> 8u32) as u8 == b1,
        (((b0 as u32) | ((b1 as u32) << 8u32) | ((b2 as u32) << 16u32) | ((b3 as u32) << 24u32))
            >> 16u32) as u8 == b2,
        (((b0 as u32) | ((b1 as u32) << 8u32) | ((b2 as u32) << 16u32) | ((b3 as u32) << 24u32))
            >> 24u32) as u8 == b3,
{
}

proof fn lemma_u16_value(v: u16)
    by (bit_vector)
    ensures
        ((v as u8) as u16) | ((((v >> 8u16) as u8) as u16) << 8u16) == v,
{
}

proof fn lemma_u32_value(v: u32)
    by (bit_vector)
    ensures
        ((v as u8) as u32) | ((((v >> 8u32) as u8) as u32) << 8u32) | ((((v >> 16u32) as u8)
            as u32) << 16u32) | ((((v >> 24u32) as u8) as u32) << 24u32) == v,
{
}

/// Encoding a decoded image gives the image back: the codec loses nothing.
pub proof fn lemma_encode_decode(raw: Seq<u8>)
    requires
        raw.len() == DCB_SIZE,
    ensures
        dcb_bytes(dcb_from_bytes(raw)) == raw,
{
    lemma_u32_bytes(raw[0], raw[1], raw[2], raw[3]);
    lemma_u32_bytes(raw[4], raw[5], raw[6], raw[7]);
    lemma_u16_bytes(raw[8], raw[9]);
    lemma_u16_bytes(raw[10], raw[11]);
    lemma_u16_bytes(raw[12], raw[13]);
    lemma_u16_bytes(raw[14], raw[15]);
    lemma_u16_bytes(raw[16], raw[17]);
    lemma_u16_bytes(raw[26], raw[27]);
    assert(dcb_bytes(dcb_from_bytes(raw)) =~= raw);
}

/// Decoding an encoded block gives the block back.
pub proof fn lemma_decode_encode(d: DCB)
    ensures
        dcb_bytes(d).len() == DCB_SIZE,
        dcb_from_bytes(dcb_bytes(d)) == d,
{
    lemma_u32_value(d.dcb_length);
    lemma_u32_value(d.baud_rate);
    lemma_u16_value(d.flags);
    lemma_u16_value(d.f_dummy);
    lemma_u16_value(d.w_reserved);
    lemma_u16_value(d.xon_lim);
    lemma_u16_value(d.xoff_lim);
    lemma_u16_value(d.w_reserved1);
}

/// Setting a DTR mode and reading the block back through its packed image
/// leaves exactly that mode's two-bit pattern (00, 01 or 11) in the DTR field,
/// and every other flag bit as it was.
pub proof fn lemma_dtr_control_decoded(d: DCB, control: DTR_CONTROL)
    ensures
        ({
            let back = dcb_from_bytes(dcb_bytes(DCB { flags: flags_with_dtr(d.flags, control), ..d }));
            &&& back.flags & DCBF_DTR_MASK == dtr_pattern(control)
            &&& back.flags & !DCBF_DTR_MASK == d.flags & !DCBF_DTR_MASK
            &&& back.flags & DCBF_DTR_MASK == 0x0000 || back.flags & DCBF_DTR_MASK == 0x0010
                || back.flags & DCBF_DTR_MASK == 0x0030
        }),
{
    let set = DCB { flags: flags_with_dtr(d.flags, control), ..d };
    lemma_decode_encode(set);
    let f = d.flags;
    let p = dtr_pattern(control);
    assert(p == 0x0000u16 || p == 0x0010u16 || p == 0x0030u16);
    assert((p == 0x0000u16 || p == 0x0010u16 || p == 0x0030u16) ==> ((f & !0x0030u16) | p)
        & 0x0030u16 == p && ((f & !0x0030u16) | p) & !0x0030u16 == f & !0x0030u16)
        by (bit_vector);
}

fn read_u16(raw: &[u8], i: usize) -> (r: u16)
    requires
        i + 1 < raw@.len(),
    ensures
        r == u16_at(raw@, i as int),
{
    (raw[i] as u16) | ((raw[i + 1] as u16) << 8u16)
}

fn read_u32(raw: &[u8], i: usize) -> (r: u32)
    requires
        i + 3 < raw@.len(),
    ensures
        r == u32_at(raw@, i as int),
{
    (raw[i] as u32) | ((raw[i + 1] as u32) << 8u32) | ((raw[i + 2] as u32) << 16u32) | ((raw[i
        + 3] as u32) << 24u32)
}

fn push_u16(out: &mut Vec<u8>, v: u16)
    ensures
        final(out)@ == old(out)@ + seq![v as u8, (v >> 8u16) as u8],
{
    out.push(v as u8);
    out.push((v >> 8u16) as u8);
}

fn push_u32(out: &mut Vec<u8>, v: u32)
    ensures
        final(out)@ == old(out)@ + seq![
            v as u8,
            (v >> 8u32) as u8,
            (v >> 16u32) as u8,
            (v >> 24u32) as u8,
        ],
{
    out.push(v as u8);
    out.push((v >> 8u32) as u8);
    out.push((v >> 16u32) as u8);
    out.push((v >> 24u32) as u8);
}

impl DCB {
    /// Reads a control block from its packed image; `None` unless the image
    /// is exactly `DCB_SIZE` bytes long.
    pub fn decode(raw: &[u8]) -> (r: Option<DCB>)
        ensures
            r.is_some() <==> raw@.len() == DCB_SIZE,
            r matches Some(d) ==> d == dcb_from_bytes(raw@),
    {
        if raw.len() != DCB_SIZE {
            return None;
        }
        Some(
            DCB {
                dcb_length: read_u32(raw, 0),
                baud_rate: read_u32(raw, 4),
                flags: read_u16(raw, 8),
                f_dummy: read_u16(raw, 10),
                w_reserved: read_u16(raw, 12),
                xon_lim: read_u16(raw, 14),
                xoff_lim: read_u16(raw, 16),
                byte_size: raw[18],
                parity: raw[19],
                stop_bits: raw[20],
                xon_char: raw[21],
                xoff_char: raw[22],
                error_char: raw[23],
                eof_char: raw[24],
                evt_char: raw[25],
                w_reserved1: read_u16(raw, 26),
            },
        )
    }

    /// The packed image of this control block, as the host expects it.
    pub fn encode(&self) -> (r: Vec<u8>)
        ensures
            r@ == dcb_bytes(*self),
            r@.len() == DCB_SIZE,
    {
        let mut out: Vec<u8> = Vec::new();
        push_u32(&mut out, self.dcb_length);
        push_u32(&mut out, self.baud_rate);
        push_u16(&mut out, self.flags);
        push_u16(&mut out, self.f_dummy);
        push_u16(&mut out, self.w_reserved);
        push_u16(&mut out, self.xon_lim);
        push_u16(&mut out, self.xoff_lim);
        out.push(self.byte_size);
        out.push(self.parity);
        out.push(self.stop_bits);
        out.push(self.xon_char);
        out.push(self.xoff_char);
        out.push(self.error_char);
        out.push(self.eof_char);
        out.push(self.evt_char);
        push_u16(&mut out, self.w_reserved1);
        assert(out@ =~= dcb_bytes(*self));
        out
    }

    /// Sets the two DTR bits to the pattern of `control`, leaving every
    /// other bit and field as it was.
    pub fn set_dtr_control(&mut self, control: DTR_CONTROL)
        ensures
            *final(self) == (DCB { flags: flags_with_dtr(old(self).flags, control), ..*old(self) }),
    {
        let f = self.flags;
        match control {
            DTR_CONTROL::DISABLE => {
                self.flags = f & !(DCBF_DTR_CONTROL_LO | DCBF_DTR_CONTROL_HI);
                assert(f & !(0x0010u16 | 0x0020u16) == (f & !0x0030u16) | 0x0000u16)
                    by (bit_vector);
            },
            DTR_CONTROL::ENABLE => {
                self.flags = (f & !DCBF_DTR_CONTROL_HI) | DCBF_DTR_CONTROL_LO;
                assert((f & !0x0020u16) | 0x0010u16 == (f & !0x0030u16) | 0x0010u16)
                    by (bit_vector);
            },
            DTR_CONTROL::HANDSHAKE => {
                self.flags = f | (DCBF_DTR_CONTROL_LO | DCBF_DTR_CONTROL_HI);
                assert(f | (0x0010u16 | 0x0020u16) == (f & !0x0030u16) | 0x0030u16)
                    by (bit_vector);
            },
        }
    }
}

} // verus!
