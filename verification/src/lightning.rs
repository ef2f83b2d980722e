//! Lightning nodes and the paths to them.
use vstd::prelude::*;

use crate::text::{decimal, hex, law_hex, lemma_decimal_prefix, push_decimal, push_hex};

verus! {

/// Position of the output that funds a channel.
#[derive(Copy, Clone, PartialOrd, Ord, PartialEq, Eq, Hash, Debug, Structural)]
pub struct ShortChannelId {
    pub block_height: u32,
    pub tx_index: u32,
    pub output_index: u16,
}

/// The lowest three bytes of a number, the highest first.
pub open spec fn three_bytes(n: u32) -> Seq<u8> {
    seq![(n / 0x10000 % 0x100) as u8, (n / 0x100 % 0x100) as u8, (n % 0x100) as u8]
}

/// The number that three bytes stand for, the highest first.
pub open spec fn three_byte_number(b: Seq<u8>) -> u32 {
    (b[0] * 0x10000 + b[1] * 0x100 + b[2]) as u32
}

/// The channel identifier that eight bytes stand for.
pub open spec fn channel_of(b: Seq<u8>) -> ShortChannelId {
    ShortChannelId {
        block_height: three_byte_number(b.take(3)),
        tx_index: three_byte_number(b.subrange(3, 6)),
        output_index: (b[6] * 0x100 + b[7]) as u16,
    }
}

impl ShortChannelId {
    /// The eight bytes of a channel identifier: the lowest three of the height
    /// and of the transaction index, and two of the output index.
    pub open spec fn encoded(&self) -> Seq<u8> {
        three_bytes(self.block_height) + three_bytes(self.tx_index) + seq![
            (self.output_index / 0x100) as u8,
            (self.output_index % 0x100) as u8,
        ]
    }

    /// Returns the eight bytes of the channel identifier.
    pub fn to_bytes(&self) -> (r: [u8; 8])
        ensures
            r@ == self.encoded(),
            r[0] == self.block_height as int / 0x10000 % 0x100,
            r[1] == self.block_height as int / 0x100 % 0x100,
            r[2] == self.block_height as int % 0x100,
            r[3] == self.tx_index as int / 0x10000 % 0x100,
            r[4] == self.tx_index as int / 0x100 % 0x100,
            r[5] == self.tx_index as int % 0x100,
            r[6] == self.output_index as int / 0x100,
            r[7] == self.output_index as int % 0x100,
    {
        let r = [
            (self.block_height / 0x10000 % 0x100) as u8,
            (self.block_height / 0x100 % 0x100) as u8,
            (self.block_height % 0x100) as u8,
            (self.tx_index / 0x10000 % 0x100) as u8,
            (self.tx_index / 0x100 % 0x100) as u8,
            (self.tx_index % 0x100) as u8,
            (self.output_index / 0x100) as u8,
            (self.output_index % 0x100) as u8,
        ];
        assert(r@ =~= self.encoded());
        r
    }

    /// Makes the channel identifier of eight bytes.
    pub fn from_bytes(b: [u8; 8]) -> (r: ShortChannelId)
        ensures
            r == channel_of(b@),
            r.block_height == b[0] * 0x10000 + b[1] * 0x100 + b[2],
            r.tx_index == b[3] * 0x10000 + b[4] * 0x100 + b[5],
            r.output_index == b[6] * 0x100 + b[7],
    {
        ShortChannelId {
            block_height: b[0] as u32 * 0x10000 + b[1] as u32 * 0x100 + b[2] as u32,
            tx_index: b[3] as u32 * 0x10000 + b[4] as u32 * 0x100 + b[5] as u32,
            output_index: b[6] as u16 * 0x100 + b[7] as u16,
        }
    }

    /// The text of a channel identifier.
    pub open spec fn text(&self) -> Seq<char> {
        decimal(self.block_height as nat) + seq!['x'] + decimal(self.tx_index as nat) + seq!['x']
            + decimal(self.output_index as nat)
    }

    /// Writes the three numbers with an "x" between them.
    pub fn to_string(&self) -> (r: String)
        ensures
            r@ == self.text(),
            r@ == decimal(self.block_height as nat) + seq!['x'] + decimal(self.tx_index as nat)
                + seq!['x'] + decimal(self.output_index as nat),
    {
        let mut r = String::new();
        push_decimal(&mut r, self.block_height as u64);
        r.push('x');
        push_decimal(&mut r, self.tx_index as u64);
        r.push('x');
        push_decimal(&mut r, self.output_index as u64);
        r
    }
}

/// A channel identifier whose height and transaction index fit into three bytes
/// is made again from its bytes.
pub proof fn law_channel_bytes_round_trip(id: ShortChannelId)
    requires
        id.block_height < 0x1000000,
        id.tx_index < 0x1000000,
    ensures
        id.encoded().len() == 8,
        channel_of(id.encoded()) == id,
{
    let b = id.encoded();
    assert(b.take(3) =~= three_bytes(id.block_height));
    assert(b.subrange(3, 6) =~= three_bytes(id.tx_index));
    lemma_three_bytes(id.block_height);
    lemma_three_bytes(id.tx_index);
}

proof fn lemma_three_bytes(n: u32)
    requires
        n < 0x1000000,
    ensures
        three_byte_number(three_bytes(n)) == n,
{
}

/// Lightning node receiving a payment.
#[derive(Clone, PartialOrd, Ord, PartialEq, Eq, Hash, Debug)]
pub struct LnAddress {
    /// Compressed public key of the node.
    pub node_id: [u8; 33],
    /// Feature flags, from the least significant byte on.
    pub features: Vec<u8>,
    /// Hash that locks the payment. When PTLC will be available the same field
    /// will be re-used for them + the use will be indicated with a feature flag.
    pub lock: [u8; 32],
    pub min_final_cltv_expiry: Option<u16>,
    pub path_hints: Vec<LnPathHint>,
}

impl LnAddress {
    /// Writes the key of the node.
    pub fn to_string(&self) -> (r: String)
        ensures
            r@ == hex(self.node_id@),
    {
        let mut r = String::new();
        push_hex(&mut r, self.node_id.as_slice());
        r
    }
}

/// Path hints for a lightning network payment, equal to the value of the `r`
/// key of the lightning BOLT-11 invoice
/// <https://github.com/lightningnetwork/lightning-rfc/blob/master/11-payment-encoding.md#tagged-fields>
#[derive(Copy, Clone, PartialOrd, Ord, PartialEq, Eq, Hash, Debug)]
pub struct LnPathHint {
    /// Compressed public key of the node.
    pub node_id: [u8; 33],
    pub short_channel_id: ShortChannelId,
    pub fee_base_msat: u32,
    pub fee_proportional_millionths: u32,
    pub cltv_expiry_delta: u16,
}

impl LnPathHint {
    /// The text of a path hint.
    pub open spec fn text(&self) -> Seq<char> {
        self.short_channel_id.text() + seq!['@'] + hex(self.node_id@)
    }

    /// Writes the channel, an "@" and the key of the node.
    pub fn to_string(&self) -> (r: String)
        ensures
            r@ == self.text(),
            r@ == decimal(self.short_channel_id.block_height as nat) + seq!['x'] + decimal(
                self.short_channel_id.tx_index as nat,
            ) + seq!['x'] + decimal(self.short_channel_id.output_index as nat) + seq!['@'] + hex(
                self.node_id@,
            ),
    {
        let mut r = self.short_channel_id.to_string();
        r.push('@');
        push_hex(&mut r, self.node_id.as_slice());
        r
    }
}

/// The bytes of a channel identifier are, the highest first, the lowest three of
/// the height and of the transaction index and the two of the output index; and
/// bytes stand for the numbers that they make up.
pub proof fn law_channel_bytes(id: ShortChannelId, b: Seq<u8>)
    requires
        b.len() == 8,
    ensures
        id.encoded().len() == 8,
        id.encoded()[0] * 0x10000 + id.encoded()[1] * 0x100 + id.encoded()[2]
            == id.block_height as int % 0x1000000,
        id.encoded()[3] * 0x10000 + id.encoded()[4] * 0x100 + id.encoded()[5] == id.tx_index as int
            % 0x1000000,
        id.encoded()[6] * 0x100 + id.encoded()[7] == id.output_index,
        channel_of(b).block_height == b[0] * 0x10000 + b[1] * 0x100 + b[2],
        channel_of(b).tx_index == b[3] * 0x10000 + b[4] * 0x100 + b[5],
        channel_of(b).output_index == b[6] * 0x100 + b[7],
{
}

/// A channel is written as its three numbers with an "x" between them, and a path
/// hint as its channel, an "@" and the key of the node in hexadecimal notation.
pub proof fn law_path_hint_text(hint: LnPathHint)
    ensures
        hint.short_channel_id.text() == decimal(hint.short_channel_id.block_height as nat) + seq![
            'x',
        ] + decimal(hint.short_channel_id.tx_index as nat) + seq!['x'] + decimal(
            hint.short_channel_id.output_index as nat,
        ),
        hint.text() == hint.short_channel_id.text() + seq!['@'] + hex(hint.node_id@),
{
}

/// Different channels are written differently.
pub proof fn law_channel_texts_differ(a: ShortChannelId, b: ShortChannelId)
    requires
        a != b,
    ensures
        a.text() != b.text(),
{
    if a.text() == b.text() {
        let end = Seq::<char>::empty();
        let u = seq!['x'] + decimal(a.output_index as nat);
        let v = seq!['x'] + decimal(b.output_index as nat);
        let x = seq!['x'] + decimal(a.tx_index as nat) + u;
        let y = seq!['x'] + decimal(b.tx_index as nat) + v;
        assert(a.text() =~= decimal(a.block_height as nat) + x);
        assert(b.text() =~= decimal(b.block_height as nat) + y);
        lemma_decimal_prefix(a.block_height as nat, x, b.block_height as nat, y);
        assert(x.skip(1) =~= decimal(a.tx_index as nat) + u);
        assert(y.skip(1) =~= decimal(b.tx_index as nat) + v);
        lemma_decimal_prefix(a.tx_index as nat, u, b.tx_index as nat, v);
        assert(u.skip(1) =~= decimal(a.output_index as nat) + end);
        assert(v.skip(1) =~= decimal(b.output_index as nat) + end);
        lemma_decimal_prefix(a.output_index as nat, end, b.output_index as nat, end);
    }
}

/// Different nodes are written differently.
pub proof fn law_node_texts_differ(a: [u8; 33], b: [u8; 33])
    requires
        a@ != b@,
    ensures
        hex(a@) != hex(b@),
{
    if hex(a@) == hex(b@) {
        assert forall|i: int| 0 <= i < 33 implies a@[i] == b@[i] by {
            law_hex(a@, i);
            law_hex(b@, i);
        }
        assert(a@ =~= b@);
    }
}

} // verus!
