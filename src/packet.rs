//! The bounded cursor buffer over one packet's bytes.

use vstd::prelude::*;
use vstd::string::*;

use crate::decimal::{decimal, usize_to_decimal};

verus! {

/// Number of bytes in a packet buffer.
pub const PACKET_BYTES_LENGTH: usize = 512;

/// Text of the error that `step` reports.
pub open spec fn step_error_text(pos: nat, step: nat) -> Seq<char> {
    "Invalid step, stepping past buffer boundary: buffer length="@ + decimal(
        PACKET_BYTES_LENGTH as nat,
    ) + ", pos="@ + decimal(pos) + ", step="@ + decimal(step)
}

/// Text of the error that `read` reports.
pub open spec fn read_error_text(pos: nat) -> Seq<char> {
    "Invalid read, reading past buffer boundary: buffer length="@ + decimal(
        PACKET_BYTES_LENGTH as nat,
    ) + ", pos="@ + decimal(pos)
}

/// Text of the error that `seek` reports.
pub open spec fn seek_error_text(seek: nat) -> Seq<char> {
    "Invalid seek, seeking past buffer boundary: buffer length="@ + decimal(
        PACKET_BYTES_LENGTH as nat,
    ) + ", seek="@ + decimal(seek)
}

/// Text of the error that `get` reports.
pub open spec fn get_error_text(pos: nat) -> Seq<char> {
    "Invalid get, getting value past buffer boundary: buffer length="@ + decimal(
        PACKET_BYTES_LENGTH as nat,
    ) + ", pos="@ + decimal(pos)
}

/// Text of the error that `get_range` reports.
pub open spec fn range_error_text(start: nat, len: nat) -> Seq<char> {
    "Invalid range, getting range past buffer boundary: buffer length="@ + decimal(
        PACKET_BYTES_LENGTH as nat,
    ) + ", start="@ + decimal(start) + ", len="@ + decimal(len)
}

/// The 16-bit value whose big-endian bytes are `hi` then `lo`.
pub open spec fn big_endian_u16(hi: u8, lo: u8) -> u16 {
    ((hi as u16) << 8u16) | (lo as u16)
}

fn step_error(pos: usize, step: usize) -> (r: String)
    ensures
        r@ == step_error_text(pos as nat, step as nat),
{
    let mut err = String::from_str("Invalid step, stepping past buffer boundary: buffer length=");
    err.append(usize_to_decimal(PACKET_BYTES_LENGTH).as_str());
    err.append(", pos=");
    err.append(usize_to_decimal(pos).as_str());
    err.append(", step=");
    err.append(usize_to_decimal(step).as_str());
    err
}

fn seek_error(seek: usize) -> (r: String)
    ensures
        r@ == seek_error_text(seek as nat),
{
    let mut err = String::from_str("Invalid seek, seeking past buffer boundary: buffer length=");
    err.append(usize_to_decimal(PACKET_BYTES_LENGTH).as_str());
    err.append(", seek=");
    err.append(usize_to_decimal(seek).as_str());
    err
}

fn read_error(pos: usize) -> (r: String)
    ensures
        r@ == read_error_text(pos as nat),
{
    let mut err = String::from_str("Invalid read, reading past buffer boundary: buffer length=");
    err.append(usize_to_decimal(PACKET_BYTES_LENGTH).as_str());
    err.append(", pos=");
    err.append(usize_to_decimal(pos).as_str());
    err
}

fn get_error(pos: usize) -> (r: String)
    ensures
        r@ == get_error_text(pos as nat),
{
    let mut err = String::from_str("Invalid get, getting value past buffer boundary: buffer length=");
    err.append(usize_to_decimal(PACKET_BYTES_LENGTH).as_str());
    err.append(", pos=");
    err.append(usize_to_decimal(pos).as_str());
    err
}

fn range_error(start: usize, len: usize) -> (r: String)
    ensures
        r@ == range_error_text(start as nat, len as nat),
{
    let mut err = String::from_str("Invalid range, getting range past buffer boundary: buffer length=");
    err.append(usize_to_decimal(PACKET_BYTES_LENGTH).as_str());
    err.append(", start=");
    err.append(usize_to_decimal(start).as_str());
    err.append(", len=");
    err.append(usize_to_decimal(len).as_str());
    err
}

/// What a `get` call on `b` returns in `r`.
pub open spec fn get_post(b: PacketBuffer, r: Result<u8, String>) -> bool {
    if b.cursor() < PACKET_BYTES_LENGTH {
        r == Ok::<u8, String>(b.bytes()[b.cursor() as int])
    } else {
        &&& r is Err
        &&& r->Err_0@ == get_error_text(b.cursor())
    }
}

/// What a `read_u16` call on `before` leaves behind in `after` and returns in
/// `r`. The call is not atomic: with one byte left, that byte is consumed
/// before the second read fails.
pub open spec fn read_u16_post(
    before: PacketBuffer,
    after: PacketBuffer,
    r: Result<u16, String>,
) -> bool {
    &&& after.bytes() == before.bytes()
    &&& if before.cursor() + 2 <= PACKET_BYTES_LENGTH {
        &&& r == Ok::<u16, String>(
            big_endian_u16(
                before.bytes()[before.cursor() as int],
                before.bytes()[before.cursor() + 1int],
            ),
        )
        &&& after.cursor() == before.cursor() + 2
    } else if before.cursor() + 1 == PACKET_BYTES_LENGTH {
        &&& r is Err
        &&& r->Err_0@ == read_error_text(PACKET_BYTES_LENGTH as nat)
        &&& after.cursor() == PACKET_BYTES_LENGTH
    } else {
        &&& r is Err
        &&& r->Err_0@ == read_error_text(before.cursor())
        &&& after.cursor() == before.cursor()
    }
}

/// A fixed-size packet payload together with a read position.
///
/// The position never exceeds the capacity; it equals the capacity once the
/// last byte has been read, after which no byte can be read.
pub struct PacketBuffer {
    buf: [u8; PACKET_BYTES_LENGTH],
    pos: usize,
}

/// What a `read` call on `before` leaves behind in `after` and returns in `r`.
pub open spec fn read_post(before: PacketBuffer, after: PacketBuffer, r: Result<u8, String>) -> bool {
    &&& after.bytes() == before.bytes()
    &&& if before.cursor() < PACKET_BYTES_LENGTH {
        &&& r == Ok::<u8, String>(before.bytes()[before.cursor() as int])
        &&& after.cursor() == before.cursor() + 1
    } else {
        &&& r is Err
        &&& r->Err_0@ == read_error_text(before.cursor())
        &&& after.cursor() == before.cursor()
    }
}

impl PacketBuffer {
    #[verifier::type_invariant]
    spec fn position_in_bounds(&self) -> bool {
        self.pos <= PACKET_BYTES_LENGTH
    }

    /// The bytes of the packet, in order.
    pub closed spec fn bytes(&self) -> Seq<u8> {
        self.buf@
    }

    /// The index of the next byte to be read.
    pub closed spec fn cursor(&self) -> nat {
        self.pos as nat
    }

    /// A buffer over `buf`, positioned at its first byte.
    pub fn new(buf: [u8; PACKET_BYTES_LENGTH]) -> (r: PacketBuffer)
        ensures
            r.bytes() == buf@,
            r.cursor() == 0,
    {
        PacketBuffer { buf, pos: 0 }
    }

    /// The current read position.
    pub fn pos(&self) -> (r: usize)
        ensures
            r == self.cursor(),
            r <= PACKET_BYTES_LENGTH,
    {
        proof {
            use_type_invariant(self);
        }
        self.pos
    }

    /// Moves the position forward by `step` bytes, which must leave it
    /// strictly below the capacity; otherwise the position is kept and an
    /// error is returned.
    pub fn step(&mut self, step: usize) -> (r: Result<(), String>)
        ensures
            final(self).bytes() == old(self).bytes(),
            if old(self).cursor() + step < PACKET_BYTES_LENGTH {
                &&& r is Ok
                &&& final(self).cursor() == old(self).cursor() + step
            } else {
                &&& r is Err
                &&& r->Err_0@ == step_error_text(old(self).cursor(), step as nat)
                &&& final(self).cursor() == old(self).cursor()
            },
    {
        proof {
            use_type_invariant(&*self);
        }
        if step >= PACKET_BYTES_LENGTH - self.pos {
            return Err(step_error(self.pos, step));
        }
        self.pos = self.pos + step;
        Ok(())
    }

    /// Sets the position to `pos`, which must be strictly below the capacity;
    /// otherwise the position is kept and an error is returned.
    pub fn seek(&mut self, pos: usize) -> (r: Result<(), String>)
        ensures
            final(self).bytes() == old(self).bytes(),
            if pos < PACKET_BYTES_LENGTH {
                &&& r is Ok
                &&& final(self).cursor() == pos
            } else {
                &&& r is Err
                &&& r->Err_0@ == seek_error_text(pos as nat)
                &&& final(self).cursor() == old(self).cursor()
            },
    {
        if pos >= PACKET_BYTES_LENGTH {
            return Err(seek_error(pos));
        }
        self.pos = pos;
        Ok(())
    }

    /// Returns the byte at the position and moves past it; at the end of the
    /// buffer returns an error and keeps the position.
    pub fn read(&mut self) -> (r: Result<u8, String>)
        ensures
            read_post(*old(self), *final(self), r),
    {
        proof {
            use_type_invariant(&*self);
        }
        if self.pos >= PACKET_BYTES_LENGTH {
            return Err(read_error(self.pos));
        }
        let res = self.buf[self.pos];
        self.pos = self.pos + 1;
        Ok(res)
    }

    /// Reads two bytes as a big-endian 16-bit value, the first read byte being
    /// the high one. The first failing read's error is returned; a byte that
    /// was read before the failure stays consumed.
    pub fn read_u16(&mut self) -> (r: Result<u16, String>)
        ensures
            read_u16_post(*old(self), *final(self), r),
    {
        let hi = match self.read() {
            Ok(b) => b,
            Err(e) => return Err(e),
        };
        let lo = match self.read() {
            Ok(b) => b,
            Err(e) => return Err(e),
        };
        Ok(((hi as u16) << 8u16) | (lo as u16))
    }

    /// Returns the byte at the position without moving past it; at the end of
    /// the buffer returns an error.
    pub fn get(&self) -> (r: Result<u8, String>)
        ensures
            get_post(*self, r),
    {
        proof {
            use_type_invariant(self);
        }
        if self.pos >= PACKET_BYTES_LENGTH {
            return Err(get_error(self.pos));
        }
        Ok(self.buf[self.pos])
    }

    /// Returns the `len` bytes from index `start` on, without copying and
    /// without moving the position. The range must end strictly before the
    /// last index of the buffer, that is `start + len < capacity`, so a range
    /// that reaches the final byte is refused as well.
    pub fn get_range(&self, start: usize, len: usize) -> (r: Result<&[u8], String>)
        ensures
            start + len < PACKET_BYTES_LENGTH ==> r is Ok && r->Ok_0@ == self.bytes().subrange(
                start as int,
                start + len,
            ),
            start + len >= PACKET_BYTES_LENGTH ==> r is Err && r->Err_0@ == range_error_text(
                start as nat,
                len as nat,
            ),
    {
        if start >= PACKET_BYTES_LENGTH || len >= PACKET_BYTES_LENGTH - start {
            return Err(range_error(start, len));
        }
        Ok(&self.buf[start..start + len])
    }
}

} // verus!
