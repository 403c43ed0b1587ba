//! How a `CK_ULONG` lies in memory: eight bytes, least or most significant first.

use crate::constants::ULONG_SIZE;
use crate::Error;
use vstd::prelude::*;

verus! {

/// The order in which the bytes of a `CK_ULONG` lie in a buffer.
#[derive(Debug, Clone, Copy, PartialEq, Eq, Structural)]
pub enum ByteOrder {
    LittleEndian,
    BigEndian,
}

/// The eight base-256 digits of `v`, least significant first.
pub open spec fn digits(v: u64) -> Seq<u8> {
    seq![
        (v % 0x100) as u8,
        (v / 0x100 % 0x100) as u8,
        (v / 0x1_0000 % 0x100) as u8,
        (v / 0x100_0000 % 0x100) as u8,
        (v / 0x1_0000_0000 % 0x100) as u8,
        (v / 0x100_0000_0000 % 0x100) as u8,
        (v / 0x1_0000_0000_0000 % 0x100) as u8,
        (v / 0x100_0000_0000_0000 % 0x100) as u8,
    ]
}

/// The number whose base-256 digits, least significant first, are the first eight of `d`.
pub open spec fn number(d: Seq<u8>) -> int {
    d[0] + 0x100 * d[1] + 0x1_0000 * d[2] + 0x100_0000 * d[3] + 0x1_0000_0000 * d[4]
        + 0x100_0000_0000 * d[5] + 0x1_0000_0000_0000 * d[6] + 0x100_0000_0000_0000 * d[7]
}

/// The eight bytes that hold `v` in the given order.
pub open spec fn ulong_to_bytes(v: u64, order: ByteOrder) -> Seq<u8> {
    match order {
        ByteOrder::LittleEndian => digits(v),
        ByteOrder::BigEndian => digits(v).reverse(),
    }
}

/// The value that eight bytes hold in the given order.
pub open spec fn ulong_from_bytes(bytes: Seq<u8>, order: ByteOrder) -> u64
    recommends
        bytes.len() == ULONG_SIZE,
{
    match order {
        ByteOrder::LittleEndian => number(bytes) as u64,
        ByteOrder::BigEndian => number(bytes.reverse()) as u64,
    }
}

/// The bytes of a sequence of `CK_ULONG`s, one after the other.
pub open spec fn ulongs_to_bytes(values: Seq<u64>, order: ByteOrder) -> Seq<u8> {
    Seq::new(
        (values.len() * ULONG_SIZE) as nat,
        |i: int| ulong_to_bytes(values[i / ULONG_SIZE as int], order)[i % ULONG_SIZE as int],
    )
}

/// The `CK_ULONG`s that lie one after the other in a buffer whose length is a multiple of
/// eight.
pub open spec fn ulongs_from_bytes(bytes: Seq<u8>, order: ByteOrder) -> Seq<u64>
    recommends
        bytes.len() % ULONG_SIZE as nat == 0,
{
    Seq::new(
        bytes.len() / (ULONG_SIZE as nat),
        |i: int|
            ulong_from_bytes(bytes.subrange(ULONG_SIZE * i, ULONG_SIZE * i + ULONG_SIZE), order),
    )
}

/// Eight bytes hold a number below 2^64.
pub proof fn lemma_number_fits(d: Seq<u8>)
    requires
        d.len() >= ULONG_SIZE,
    ensures
        0 <= number(d) <= u64::MAX,
{
}

/// The digits of a number add up to it.
proof fn lemma_digits_sum(v: u64)
    ensures
        number(digits(v)) == v,
{
    assert(v == (v % 0x100) + 0x100 * (v / 0x100 % 0x100) + 0x1_0000 * (v / 0x1_0000 % 0x100)
        + 0x100_0000 * (v / 0x100_0000 % 0x100) + 0x1_0000_0000 * (v / 0x1_0000_0000 % 0x100)
        + 0x100_0000_0000 * (v / 0x100_0000_0000 % 0x100) + 0x1_0000_0000_0000 * (v
        / 0x1_0000_0000_0000 % 0x100) + 0x100_0000_0000_0000 * (v / 0x100_0000_0000_0000
        % 0x100)) by (bit_vector);
}

/// The digits of a sum of eight weighted bytes are those bytes.
proof fn lemma_sum_digits(d: Seq<u8>)
    requires
        d.len() == ULONG_SIZE,
    ensures
        digits(number(d) as u64) == d,
{
    let (d0, d1, d2, d3, d4, d5, d6, d7) = (d[0], d[1], d[2], d[3], d[4], d[5], d[6], d[7]);
    let n: u64 = number(d) as u64;
    assert(n == d0 + 0x100 * d1 + 0x1_0000 * d2 + 0x100_0000 * d3 + 0x1_0000_0000 * d4
        + 0x100_0000_0000 * d5 + 0x1_0000_0000_0000 * d6 + 0x100_0000_0000_0000 * d7);
    assert(n % 0x100 == d0 && n / 0x100 % 0x100 == d1 && n / 0x1_0000 % 0x100 == d2 && n
        / 0x100_0000 % 0x100 == d3 && n / 0x1_0000_0000 % 0x100 == d4 && n / 0x100_0000_0000
        % 0x100 == d5 && n / 0x1_0000_0000_0000 % 0x100 == d6 && n / 0x100_0000_0000_0000
        % 0x100 == d7) by (bit_vector)
        requires
            n == d0 + 0x100 * d1 + 0x1_0000 * d2 + 0x100_0000 * d3 + 0x1_0000_0000 * d4
                + 0x100_0000_0000 * d5 + 0x1_0000_0000_0000 * d6 + 0x100_0000_0000_0000 * d7,
    ;
    assert(digits(n) =~= d);
}

/// A value read back from its own bytes is unchanged.
pub proof fn lemma_value_of_bytes(v: u64, order: ByteOrder)
    ensures
        ulong_to_bytes(v, order).len() == ULONG_SIZE,
        ulong_from_bytes(ulong_to_bytes(v, order), order) == v,
{
    lemma_digits_sum(v);
    assert(digits(v).reverse().reverse() =~= digits(v));
}

/// Eight bytes written back from the value they hold are unchanged.
pub proof fn lemma_bytes_of_value(bytes: Seq<u8>, order: ByteOrder)
    requires
        bytes.len() == ULONG_SIZE,
    ensures
        ulong_to_bytes(ulong_from_bytes(bytes, order), order) == bytes,
{
    match order {
        ByteOrder::LittleEndian => {
            lemma_sum_digits(bytes);
        },
        ByteOrder::BigEndian => {
            let r = bytes.reverse();
            lemma_sum_digits(r);
            assert(r.reverse() =~= bytes);
        },
    }
}

/// A sequence of values read back from its own bytes is unchanged.
pub proof fn lemma_values_of_bytes(values: Seq<u64>, order: ByteOrder)
    ensures
        ulongs_to_bytes(values, order).len() == values.len() * ULONG_SIZE,
        ulongs_from_bytes(ulongs_to_bytes(values, order), order) == values,
{
    let bytes = ulongs_to_bytes(values, order);
    let back = ulongs_from_bytes(bytes, order);
    assert(back.len() == values.len());
    assert forall|i: int| 0 <= i < values.len() implies back[i] == values[i] by {
        lemma_value_of_bytes(values[i], order);
        let window = bytes.subrange(ULONG_SIZE * i, ULONG_SIZE * i + ULONG_SIZE);
        assert forall|j: int| 0 <= j < ULONG_SIZE implies window[j] == ulong_to_bytes(
            values[i],
            order,
        )[j] by {
            assert((ULONG_SIZE * i + j) / ULONG_SIZE as int == i);
            assert((ULONG_SIZE * i + j) % ULONG_SIZE as int == j);
        }
        assert(window =~= ulong_to_bytes(values[i], order));
    }
    assert(back =~= values);
}

/// A buffer of whole values written back from the values that it holds is unchanged.
pub proof fn lemma_bytes_of_values(bytes: Seq<u8>, order: ByteOrder)
    requires
        bytes.len() % ULONG_SIZE as nat == 0,
    ensures
        ulongs_to_bytes(ulongs_from_bytes(bytes, order), order) == bytes,
{
    let values = ulongs_from_bytes(bytes, order);
    let back = ulongs_to_bytes(values, order);
    assert(back.len() == bytes.len());
    assert forall|k: int| 0 <= k < bytes.len() implies back[k] == bytes[k] by {
        let i = k / ULONG_SIZE as int;
        let j = k % ULONG_SIZE as int;
        let window = bytes.subrange(ULONG_SIZE * i, ULONG_SIZE * i + ULONG_SIZE);
        lemma_bytes_of_value(window, order);
        assert(ulong_to_bytes(values[i], order) == window);
        assert(window[j] == bytes[ULONG_SIZE * i + j]);
    }
    assert(back =~= bytes);
}

/// `u16::to_ne_bytes`: the two bytes of `x` as this machine stores them, which is either the
/// low byte first or the high byte first. Which of the two is left open.
#[verifier::external_body]
fn native_bytes(x: u16) -> (bytes: [u8; 2])
    ensures
        bytes@ == seq![(x % 0x100) as u8, (x / 0x100) as u8] || bytes@ == seq![
            (x / 0x100) as u8,
            (x % 0x100) as u8,
        ],
{
    x.to_ne_bytes()
}

impl ByteOrder {
    /// The order of the machine that runs this code: the one in which the module reads and
    /// writes every `CK_ULONG`. Nothing is promised of the answer, since it differs from
    /// machine to machine.
    pub fn native() -> ByteOrder {
        let bytes = native_bytes(1);
        ByteOrder::storing_one_as(bytes)
    }

    /// The order of a machine that stores the number one, in two bytes, as `bytes`: the least
    /// significant byte comes first where the first byte is the one, the most significant
    /// where it is not.
    pub open spec fn of_one(bytes: Seq<u8>) -> ByteOrder {
        if bytes[0] == 1 {
            ByteOrder::LittleEndian
        } else {
            ByteOrder::BigEndian
        }
    }

    /// The order of a machine that stores the number one, in two bytes, as `bytes`.
    pub fn storing_one_as(bytes: [u8; 2]) -> (order: ByteOrder)
        ensures
            order == ByteOrder::of_one(bytes@),
    {
        if bytes[0] == 1 {
            ByteOrder::LittleEndian
        } else {
            ByteOrder::BigEndian
        }
    }

    /// Writes the eight bytes of `v` at the end of `buffer`.
    pub fn push_ulong(self, buffer: &mut Vec<u8>, v: u64)
        ensures
            final(buffer)@ == old(buffer)@ + ulong_to_bytes(v, self),
    {
        let ghost before = buffer@;
        let b0 = (v % 0x100) as u8;
        let b1 = (v / 0x100 % 0x100) as u8;
        let b2 = (v / 0x1_0000 % 0x100) as u8;
        let b3 = (v / 0x100_0000 % 0x100) as u8;
        let b4 = (v / 0x1_0000_0000 % 0x100) as u8;
        let b5 = (v / 0x100_0000_0000 % 0x100) as u8;
        let b6 = (v / 0x1_0000_0000_0000 % 0x100) as u8;
        let b7 = (v / 0x100_0000_0000_0000 % 0x100) as u8;
        match self {
            ByteOrder::LittleEndian => {
                buffer.push(b0);
                buffer.push(b1);
                buffer.push(b2);
                buffer.push(b3);
                buffer.push(b4);
                buffer.push(b5);
                buffer.push(b6);
                buffer.push(b7);
            },
            ByteOrder::BigEndian => {
                buffer.push(b7);
                buffer.push(b6);
                buffer.push(b5);
                buffer.push(b4);
                buffer.push(b3);
                buffer.push(b2);
                buffer.push(b1);
                buffer.push(b0);
            },
        }
        assert(buffer@ =~= before + ulong_to_bytes(v, self));
    }

    /// The eight bytes of `v`.
    pub fn ulong_bytes(self, v: u64) -> (bytes: Vec<u8>)
        ensures
            bytes@ == ulong_to_bytes(v, self),
    {
        let mut bytes = Vec::new();
        self.push_ulong(&mut bytes, v);
        assert(bytes@ =~= ulong_to_bytes(v, self));
        bytes
    }

    /// The value that `bytes` holds from `at` on, for a buffer that has eight bytes there.
    fn ulong_at(self, bytes: &[u8], at: usize) -> (v: u64)
        requires
            at + ULONG_SIZE <= bytes@.len(),
        ensures
            v == ulong_from_bytes(bytes@.subrange(at as int, at + ULONG_SIZE), self),
    {
        let ghost window = bytes@.subrange(at as int, at + ULONG_SIZE);
        let n = bytes.len();
        let d0 = bytes[at] as u64;
        let d1 = bytes[at + 1] as u64;
        let d2 = bytes[at + 2] as u64;
        let d3 = bytes[at + 3] as u64;
        let d4 = bytes[at + 4] as u64;
        let d5 = bytes[at + 5] as u64;
        let d6 = bytes[at + 6] as u64;
        let d7 = bytes[at + 7] as u64;
        proof {
            lemma_number_fits(window);
            lemma_number_fits(window.reverse());
            assert(window[0] == d0 && window[1] == d1 && window[2] == d2 && window[3] == d3);
            assert(window[4] == d4 && window[5] == d5 && window[6] == d6 && window[7] == d7);
        }
        match self {
            ByteOrder::LittleEndian => {
                d0 + 0x100 * d1 + 0x1_0000 * d2 + 0x100_0000 * d3 + 0x1_0000_0000 * d4
                    + 0x100_0000_0000 * d5 + 0x1_0000_0000_0000 * d6 + 0x100_0000_0000_0000 * d7
            },
            ByteOrder::BigEndian => {
                d7 + 0x100 * d6 + 0x1_0000 * d5 + 0x100_0000 * d4 + 0x1_0000_0000 * d3
                    + 0x100_0000_0000 * d2 + 0x1_0000_0000_0000 * d1 + 0x100_0000_0000_0000 * d0
            },
        }
    }

    /// The value that a buffer of exactly eight bytes holds.
    pub fn ulong(self, bytes: &[u8]) -> (r: Result<u64, Error>)
        ensures
            bytes@.len() == ULONG_SIZE ==> r == Ok::<u64, Error>(ulong_from_bytes(bytes@, self)),
            bytes@.len() != ULONG_SIZE ==> r == Err::<u64, Error>(Error::TryFromSlice),
    {
        if bytes.len() != ULONG_SIZE {
            return Err(Error::TryFromSlice);
        }
        assert(bytes@.subrange(0, ULONG_SIZE as int) =~= bytes@);
        Ok(self.ulong_at(bytes, 0))
    }

    /// The bytes of `values`, one `CK_ULONG` after the other, where a buffer can be that long.
    pub fn ulongs_bytes(self, values: &[u64]) -> (r: Result<Vec<u8>, Error>)
        ensures
            values@.len() * ULONG_SIZE <= usize::MAX ==> r is Ok && r->Ok_0@ == ulongs_to_bytes(
                values@,
                self,
            ),
            values@.len() * ULONG_SIZE > usize::MAX ==> r == Err::<Vec<u8>, Error>(
                Error::TryFromInt,
            ),
    {
        if values.len() > usize::MAX / ULONG_SIZE {
            return Err(Error::TryFromInt);
        }
        let mut bytes: Vec<u8> = Vec::new();
        let mut i: usize = 0;
        while i < values.len()
            invariant
                i <= values@.len(),
                bytes@ == ulongs_to_bytes(values@.subrange(0, i as int), self),
            decreases values@.len() - i,
        {
            let ghost before = bytes@;
            self.push_ulong(&mut bytes, values[i]);
            i = i + 1;
            assert(bytes@ =~= ulongs_to_bytes(values@.subrange(0, i as int), self));
        }
        assert(values@.subrange(0, i as int) =~= values@);
        Ok(bytes)
    }

    /// The `CK_ULONG`s that lie one after the other in a buffer whose length is a multiple of
    /// eight.
    pub fn ulongs(self, bytes: &[u8]) -> (r: Result<Vec<u64>, Error>)
        ensures
            bytes@.len() % ULONG_SIZE as nat == 0 ==> r is Ok && r->Ok_0@ == ulongs_from_bytes(
                bytes@,
                self,
            ),
            bytes@.len() % ULONG_SIZE as nat != 0 ==> r == Err::<Vec<u64>, Error>(
                Error::TryFromSlice,
            ),
    {
        if bytes.len() % ULONG_SIZE != 0 {
            return Err(Error::TryFromSlice);
        }
        let count = bytes.len() / ULONG_SIZE;
        let mut values: Vec<u64> = Vec::new();
        let mut i: usize = 0;
        while i < count
            invariant
                i <= count,
                count * ULONG_SIZE == bytes@.len(),
                count * ULONG_SIZE <= usize::MAX,
                values@ == ulongs_from_bytes(bytes@, self).subrange(0, i as int),
            decreases count - i,
        {
            let v = self.ulong_at(bytes, ULONG_SIZE * i);
            values.push(v);
            i = i + 1;
            assert(values@ =~= ulongs_from_bytes(bytes@, self).subrange(0, i as int));
        }
        assert(ulongs_from_bytes(bytes@, self).subrange(0, i as int) =~= ulongs_from_bytes(
            bytes@,
            self,
        ));
        Ok(values)
    }
}

} // verus!
