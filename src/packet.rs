//! Packet type and packet framing parameters.
use vstd::prelude::*;
use crate::bytes::u16_to_be;

verus! {

/// The modem's packet type.
#[derive(Copy, Clone, Debug, PartialEq, Eq, Structural)]
pub enum PacketType {
    /// Frequency-shift keying (not driven by this library beyond the command).
    GFSK,
    /// Long-range spread spectrum.
    LoRa,
}

impl PacketType {
    /// The packet type code.
    pub open spec fn spec_code(self) -> u8 {
        match self {
            PacketType::GFSK => 0,
            PacketType::LoRa => 1,
        }
    }

    /// The packet type code.
    pub fn code(self) -> (r: u8)
        ensures
            r == self.spec_code(),
    {
        match self {
            PacketType::GFSK => 0,
            PacketType::LoRa => 1,
        }
    }
}

/// The nine parameter bytes of the packet framing command.
#[derive(Copy, Clone, Debug, PartialEq, Eq)]
pub struct PacketParams {
    inner: [u8; 9],
}

impl PacketParams {
    /// The nine bytes sent to the chip.
    pub closed spec fn bytes(self) -> Seq<u8> {
        self.inner@
    }

    /// The nine bytes sent to the chip.
    pub fn to_bytes(self) -> (r: [u8; 9])
        ensures
            r@ == self.bytes(),
    {
        self.inner
    }
}

/// Whether the packet carries an explicit header.
#[derive(Copy, Clone, Debug, PartialEq, Eq, Structural)]
pub enum LoRaHeaderType {
    /// Explicit header: variable length.
    VarLen,
    /// Implicit header: fixed length.
    FixedLen,
}

impl LoRaHeaderType {
    /// The header type code.
    pub open spec fn spec_code(self) -> u8 {
        match self {
            LoRaHeaderType::VarLen => 0,
            LoRaHeaderType::FixedLen => 1,
        }
    }

    /// The header type code.
    pub fn code(self) -> (r: u8)
        ensures
            r == self.spec_code(),
    {
        match self {
            LoRaHeaderType::VarLen => 0,
            LoRaHeaderType::FixedLen => 1,
        }
    }
}

/// Whether the packet carries a CRC.
#[derive(Copy, Clone, Debug, PartialEq, Eq, Structural)]
pub enum LoRaCrcType {
    /// No CRC.
    CrcOff,
    /// With CRC.
    CrcOn,
}

impl LoRaCrcType {
    /// The CRC type code.
    pub open spec fn spec_code(self) -> u8 {
        match self {
            LoRaCrcType::CrcOff => 0,
            LoRaCrcType::CrcOn => 1,
        }
    }

    /// The CRC type code.
    pub fn code(self) -> (r: u8)
        ensures
            r == self.spec_code(),
    {
        match self {
            LoRaCrcType::CrcOff => 0,
            LoRaCrcType::CrcOn => 1,
        }
    }
}

/// Whether the I and Q signals are swapped.
#[derive(Copy, Clone, Debug, PartialEq, Eq, Structural)]
pub enum LoRaInvertIq {
    /// Standard.
    Standard,
    /// Inverted.
    Inverted,
}

impl LoRaInvertIq {
    /// The IQ setup code.
    pub open spec fn spec_code(self) -> u8 {
        match self {
            LoRaInvertIq::Standard => 0,
            LoRaInvertIq::Inverted => 1,
        }
    }

    /// The IQ setup code.
    pub fn code(self) -> (r: u8)
        ensures
            r == self.spec_code(),
    {
        match self {
            LoRaInvertIq::Standard => 0,
            LoRaInvertIq::Inverted => 1,
        }
    }
}

/// The framing of a long-range packet.
#[derive(Copy, Clone, Debug, PartialEq, Eq, Structural)]
pub struct LoRaPacketParams {
    /// The preamble length, in symbols.
    pub preamble_len: u16,
    /// The header type.
    pub header_type: LoRaHeaderType,
    /// The payload length, in bytes.
    pub payload_len: u8,
    /// The CRC type.
    pub crc_type: LoRaCrcType,
    /// The IQ setup.
    pub invert_iq: LoRaInvertIq,
}

impl LoRaPacketParams {
    /// The parameter bytes: the preamble length big-endian, header type,
    /// payload length, CRC type, IQ setup, then three zero bytes.
    pub open spec fn spec_bytes(self) -> Seq<u8> {
        seq![
            (self.preamble_len / 256) as u8,
            (self.preamble_len % 256) as u8,
            self.header_type.spec_code(),
            self.payload_len,
            self.crc_type.spec_code(),
            self.invert_iq.spec_code(),
            0u8,
            0u8,
            0u8,
        ]
    }

    /// The packet framing command's parameters for these settings.
    pub closed spec fn spec_packet_params(self) -> PacketParams {
        PacketParams {
            inner: [
                (self.preamble_len / 256) as u8,
                (self.preamble_len % 256) as u8,
                self.header_type.spec_code(),
                self.payload_len,
                self.crc_type.spec_code(),
                self.invert_iq.spec_code(),
                0u8,
                0u8,
                0u8,
            ],
        }
    }

    /// Sets the preamble length.
    pub fn set_preamble_len(self, preamble_len: u16) -> (r: Self)
        ensures
            r == (Self { preamble_len, ..self }),
    {
        Self { preamble_len, ..self }
    }

    /// Sets the header type.
    pub fn set_header_type(self, header_type: LoRaHeaderType) -> (r: Self)
        ensures
            r == (Self { header_type, ..self }),
    {
        Self { header_type, ..self }
    }

    /// Sets the payload length.
    pub fn set_payload_len(self, payload_len: u8) -> (r: Self)
        ensures
            r == (Self { payload_len, ..self }),
    {
        Self { payload_len, ..self }
    }

    /// Sets the CRC type.
    pub fn set_crc_type(self, crc_type: LoRaCrcType) -> (r: Self)
        ensures
            r == (Self { crc_type, ..self }),
    {
        Self { crc_type, ..self }
    }

    /// Sets the IQ setup.
    pub fn set_invert_iq(self, invert_iq: LoRaInvertIq) -> (r: Self)
        ensures
            r == (Self { invert_iq, ..self }),
    {
        Self { invert_iq, ..self }
    }

    /// The parameter bytes of the packet framing command.
    pub fn to_packet_params(self) -> (r: PacketParams)
        ensures
            r.bytes() == self.spec_bytes(),
            r == self.spec_packet_params(),
    {
        let p = u16_to_be(self.preamble_len);
        let r = PacketParams {
            inner: [
                p[0],
                p[1],
                self.header_type.code(),
                self.payload_len,
                self.crc_type.code(),
                self.invert_iq.code(),
                0,
                0,
                0,
            ],
        };
        assert(r.bytes() =~= self.spec_bytes());
        assert(r.inner =~= self.spec_packet_params().inner);
        r
    }
}

/// The parameters that `spec_packet_params` gives carry exactly the bytes
/// that `spec_bytes` describes.
pub proof fn lemma_packet_params_bytes(p: LoRaPacketParams)
    ensures
        p.spec_packet_params().bytes() == p.spec_bytes(),
{
    assert(p.spec_packet_params().bytes() =~= p.spec_bytes());
}

impl Default for LoRaPacketParams {
    fn default() -> (r: Self)
        ensures
            r == (LoRaPacketParams {
                preamble_len: 8,
                header_type: LoRaHeaderType::VarLen,
                payload_len: 0xFF,
                crc_type: LoRaCrcType::CrcOff,
                invert_iq: LoRaInvertIq::Standard,
            }),
    {
        Self {
            preamble_len: 8,
            header_type: LoRaHeaderType::VarLen,
            payload_len: 0xFF,
            crc_type: LoRaCrcType::CrcOff,
            invert_iq: LoRaInvertIq::Standard,
        }
    }
}

} // verus!
