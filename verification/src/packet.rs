//! Byte-exact building of outgoing packet payloads.
//!
//! A payload is an opcode byte followed by little-endian fields: `c` one
//! byte, `h` two bytes, `d` four bytes, `s` a UTF-8 string with a NUL
//! terminator. The builder is consumed by each write so packets can be
//! built as one chain of calls.

use vstd::prelude::*;

use crate::registry::OnlinePlayer;
use crate::session::S_OPCODE_CHARPACK;

verus! {

/// The low byte of a value.
pub open spec fn byte0(v: i32) -> u8 {
    ((v as u32) & 0xFF) as u8
}

/// The second-lowest byte of a value.
pub open spec fn byte1(v: i32) -> u8 {
    (((v as u32) >> 8) & 0xFF) as u8
}

/// The third byte of a value.
pub open spec fn byte2(v: i32) -> u8 {
    (((v as u32) >> 16) & 0xFF) as u8
}

/// The high byte of a value.
pub open spec fn byte3(v: i32) -> u8 {
    (((v as u32) >> 24) & 0xFF) as u8
}

/// A value's 2-byte little-endian wire form (the low 16 bits).
pub open spec fn le2(v: i32) -> Seq<u8> {
    seq![byte0(v), byte1(v)]
}

/// A value's 4-byte little-endian wire form.
pub open spec fn le4(v: i32) -> Seq<u8> {
    seq![byte0(v), byte1(v), byte2(v), byte3(v)]
}

/// A string's wire form: its UTF-8 bytes and a NUL terminator.
pub open spec fn cstr(s: Seq<char>) -> Seq<u8> {
    vstd::utf8::encode_utf8(s) + seq![0u8]
}

/// An absent string's wire form: just the NUL terminator.
pub open spec fn cstr_none() -> Seq<u8> {
    seq![0u8]
}

/// Builder for one packet payload.
pub struct PacketBuilder {
    buf: Vec<u8>,
}

impl PacketBuilder {
    /// The bytes built so far.
    pub closed spec fn bytes(&self) -> Seq<u8> {
        self.buf@
    }

    /// Start a payload with its opcode byte.
    pub fn new(opcode: u8) -> (b: PacketBuilder)
        ensures
            b.bytes() == seq![opcode],
    {
        let mut buf: Vec<u8> = Vec::new();
        buf.push(opcode);
        proof {
            assert(buf@ =~= seq![opcode]);
        }
        PacketBuilder { buf }
    }

    /// Append one byte (the value's low 8 bits).
    pub fn write_c(self, v: i32) -> (b: PacketBuilder)
        ensures
            b.bytes() == self.bytes().push(byte0(v)),
    {
        let mut buf = self.buf;
        buf.push(((v as u32) & 0xFF) as u8);
        PacketBuilder { buf }
    }

    /// Append two little-endian bytes (the value's low 16 bits).
    pub fn write_h(self, v: i32) -> (b: PacketBuilder)
        ensures
            b.bytes() == self.bytes() + le2(v),
    {
        let mut buf = self.buf;
        let u = v as u32;
        buf.push((u & 0xFF) as u8);
        buf.push(((u >> 8) & 0xFF) as u8);
        proof {
            assert(buf@ =~= self.bytes() + le2(v));
        }
        PacketBuilder { buf }
    }

    /// Append four little-endian bytes.
    pub fn write_d(self, v: i32) -> (b: PacketBuilder)
        ensures
            b.bytes() == self.bytes() + le4(v),
    {
        let mut buf = self.buf;
        let u = v as u32;
        buf.push((u & 0xFF) as u8);
        buf.push(((u >> 8) & 0xFF) as u8);
        buf.push(((u >> 16) & 0xFF) as u8);
        buf.push(((u >> 24) & 0xFF) as u8);
        proof {
            assert(buf@ =~= self.bytes() + le4(v));
        }
        PacketBuilder { buf }
    }

    /// Append a NUL-terminated string, or a bare NUL for `None`.
    pub fn write_s(self, s: Option<&str>) -> (b: PacketBuilder)
        ensures
            s matches Some(t) ==> b.bytes() == self.bytes() + cstr(t@),
            s is None ==> b.bytes() == self.bytes() + cstr_none(),
    {
        let mut buf = self.buf;
        match s {
            Some(t) => {
                buf.extend_from_slice(t.as_bytes());
                buf.push(0u8);
                proof {
                    assert(buf@ =~= self.bytes() + cstr(t@));
                }
            },
            None => {
                buf.push(0u8);
                proof {
                    assert(buf@ =~= self.bytes() + cstr_none());
                }
            },
        }
        PacketBuilder { buf }
    }

    /// Finish and hand back the payload bytes.
    pub fn build(self) -> (r: Vec<u8>)
        ensures
            r@ == self.bytes(),
    {
        self.buf
    }
}

/// The appearance packet for one occupant, byte for byte.
pub open spec fn spec_charpack(p: OnlinePlayer) -> Seq<u8> {
    seq![S_OPCODE_CHARPACK] + le2(p.x) + le2(p.y) + le4(p.object_id) + le2(p.gfx_id) + seq![
        byte0(0),
        byte0(p.heading),
        byte0(0),
        byte0(0),
    ] + le4(1) + le2(p.lawful) + cstr(p.name@) + cstr(p.title@) + seq![byte0(4)] + le4(0) + cstr(
        p.clan_name@,
    ) + cstr_none() + seq![byte0(176), byte0(255), byte0(0), byte0(0), byte0(0), byte0(255), byte0(255)]
        + cstr_none() + seq![byte0(0)]
}

/// Build the appearance packet other occupants receive for `p`: position
/// and identity, visual id, heading, alignment, name, title and clan,
/// with the fixed status fields of a player character.
pub fn build_player_charpack(p: &OnlinePlayer) -> (r: Vec<u8>)
    ensures
        r@ == spec_charpack(*p),
{
    let r = PacketBuilder::new(S_OPCODE_CHARPACK)
        .write_h(p.x)
        .write_h(p.y)
        .write_d(p.object_id)
        .write_h(p.gfx_id)
        .write_c(0)  // weapon
        .write_c(p.heading)
        .write_c(0)  // light
        .write_c(0)  // speed
        .write_d(1)  // exp
        .write_h(p.lawful)
        .write_s(Some(p.name.as_str()))
        .write_s(Some(p.title.as_str()))
        .write_c(4)  // player-character status
        .write_d(0)  // emblem
        .write_s(Some(p.clan_name.as_str()))
        .write_s(None)
        .write_c(176)
        .write_c(255)  // party hp
        .write_c(0)
        .write_c(0)
        .write_c(0)
        .write_c(255)
        .write_c(255)
        .write_s(None)
        .write_c(0)
        .build();
    proof {
        assert(r@ =~= spec_charpack(*p));
    }
    r
}

} // verus!
