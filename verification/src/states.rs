use vstd::prelude::*;

verus! {

/// Byte capacity of the fixed buffer that holds a campaign's name.
pub const TARGET_NAME_LENGTH: usize = 32;

/// Byte capacity of the fixed buffer that holds a tip's message.
pub const MESSAGE_LENGTH: usize = 32;

/// A 32-byte account address. Identities (signers) and record addresses are
/// both plain byte strings of this shape; the logic only ever compares them
/// for equality.
#[derive(Clone, Copy, PartialEq, Eq, Debug)]
pub struct Pubkey {
    pub bytes: [u8; 32],
}

impl View for Pubkey {
    type V = Seq<u8>;

    open spec fn view(&self) -> Seq<u8> {
        self.bytes@
    }
}

/// Equality of two addresses, byte for byte.
pub fn pubkey_eq(a: &Pubkey, b: &Pubkey) -> (r: bool)
    ensures
        r <==> a@ == b@,
{
    let mut i: usize = 0;
    while i < 32
        invariant
            0 <= i <= 32,
            forall|j: int| 0 <= j < i ==> a.bytes@[j] == b.bytes@[j],
        decreases 32 - i,
    {
        if a.bytes[i] != b.bytes[i] {
            return false;
        }
        i = i + 1;
    }
    proof {
        assert(a@ =~= b@);
    }
    true
}

/// Equality of the used prefixes of two fixed buffers: the first `alen`
/// bytes of `a` against the first `blen` bytes of `b`.
pub fn prefix_eq(a: &[u8; 32], alen: u8, b: &[u8; 32], blen: u8) -> (r: bool)
    requires
        alen <= 32,
        blen <= 32,
    ensures
        r <==> a@.take(alen as int) == b@.take(blen as int),
{
    if alen != blen {
        proof {
            assert(a@.take(alen as int).len() != b@.take(blen as int).len());
        }
        return false;
    }
    let mut i: usize = 0;
    while i < alen as usize
        invariant
            alen == blen,
            alen <= 32,
            0 <= i <= alen as int,
            forall|j: int| 0 <= j < i ==> a@[j] == b@[j],
        decreases alen as int - i,
    {
        if a[i] != b[i] {
            proof {
                assert(a@.take(alen as int)[i as int] != b@.take(blen as int)[i as int]);
            }
            return false;
        }
        i = i + 1;
    }
    proof {
        assert(a@.take(alen as int) =~= b@.take(blen as int));
    }
    true
}

/// The bytes of `s` followed by zeroes, filling a 32-byte buffer.
pub open spec fn zero_padded(s: Seq<u8>) -> Seq<u8>
    recommends
        s.len() <= 32,
{
    s + Seq::new((32 - s.len()) as nat, |i: int| 0u8)
}

/// Copies `src` into a fresh 32-byte buffer, zero-filling the unused tail.
pub fn fill_buffer(src: &Vec<u8>) -> (r: [u8; 32])
    requires
        src@.len() <= 32,
    ensures
        r@ == zero_padded(src@),
{
    let mut buf: [u8; 32] = [0u8; 32];
    let mut i: usize = 0;
    while i < src.len()
        invariant
            src@.len() <= 32,
            0 <= i <= src@.len(),
            forall|j: int| 0 <= j < i ==> buf@[j] == src@[j],
            forall|j: int| i <= j < 32 ==> buf@[j] == 0u8,
        decreases src@.len() - i,
    {
        buf[i] = src[i];
        i = i + 1;
    }
    proof {
        assert(buf@ =~= zero_padded(src@));
    }
    buf
}

/// Life cycle of a campaign. `Uninitialized` is the transient default before
/// creation and is never observably stored; `Open` is the only state in which
/// tips are accepted; `Closed` is terminal.
#[derive(Clone, Copy, PartialEq, Eq, Structural, Debug)]
pub enum State {
    Uninitialized,
    Open,
    Closed,
}

/// One campaign record: a named, capacity-bounded tip jar owned by one
/// identity. Its storage address is derived from (name, owner), so those two
/// fields identify it.
#[derive(Clone, Copy, PartialEq, Eq, Debug)]
pub struct Tipper {
    /// The owner, set once at creation; only this identity may withdraw.
    pub authority: Pubkey,
    /// Fixed buffer holding the campaign's name, zero-filled past the name.
    pub target_name: [u8; 32],
    /// How many leading bytes of `target_name` are the name itself.
    pub target_name_len: u8,
    /// Accumulated funds, credited tip by tip, drained by withdrawal.
    pub balance: u64,
    /// Soft ceiling: the tip that pushes `balance` past it is still accepted,
    /// but it closes the campaign against later tips.
    pub max_balance: u64,
    pub state: State,
    /// Bump seed under which the host derived this record's address.
    pub bump: u8,
}

impl Tipper {
    /// Serialized size of the record in host storage:
    /// authority + name buffer + name length + balance + capacity + state + bump.
    pub const LEN: usize = 32 + TARGET_NAME_LENGTH + 1 + 8 + 8 + 1 + 1;

    /// The live bytes of the campaign's name: the used prefix of the buffer.
    pub open spec fn name_bytes(self) -> Seq<u8> {
        self.target_name@.take(self.target_name_len as int)
    }

    /// The seed pair from which this record's storage address is derived.
    /// The host guarantees at most one live record per address, so at most
    /// one live campaign exists per key.
    pub open spec fn key(self) -> (Seq<u8>, Seq<u8>) {
        (self.name_bytes(), self.authority@)
    }

    /// Well-formedness: the recorded name length fits the buffer, and an open
    /// campaign's balance has not passed its capacity (the tip that passes it
    /// closes the campaign in the same step).
    pub open spec fn wf(self) -> bool {
        &&& self.target_name_len as int <= 32
        &&& (self.state is Open ==> self.balance <= self.max_balance)
    }

    /// The seed values of this record's address, as a key value.
    pub open spec fn record_key_spec(self) -> TipperKey {
        TipperKey {
            target_name: self.target_name,
            target_name_len: self.target_name_len,
            authority: self.authority,
        }
    }

    /// The seed values of this record's address, as an owned key.
    pub fn record_key(&self) -> (r: TipperKey)
        ensures
            r == self.record_key_spec(),
            r.key() == self.key(),
            r.wf() <==> self.target_name_len as int <= 32,
    {
        TipperKey {
            target_name: self.target_name,
            target_name_len: self.target_name_len,
            authority: self.authority,
        }
    }
}

/// The seed values that determine a campaign record's storage address: the
/// campaign's name and its owner. The host derives the address from exactly
/// these, so they stand for the address wherever a record must be named.
#[derive(Clone, Copy, PartialEq, Eq, Debug)]
pub struct TipperKey {
    pub target_name: [u8; 32],
    pub target_name_len: u8,
    pub authority: Pubkey,
}

impl TipperKey {
    /// The live bytes of the name inside the key.
    pub open spec fn name_bytes(self) -> Seq<u8> {
        self.target_name@.take(self.target_name_len as int)
    }

    /// The seed pair this key stands for.
    pub open spec fn key(self) -> (Seq<u8>, Seq<u8>) {
        (self.name_bytes(), self.authority@)
    }

    pub open spec fn wf(self) -> bool {
        self.target_name_len as int <= 32
    }
}

/// Whether two keys name the same campaign: same name bytes, same owner.
pub fn tipper_key_eq(a: &TipperKey, b: &TipperKey) -> (r: bool)
    requires
        a.wf(),
        b.wf(),
    ensures
        r <==> a.key() == b.key(),
{
    if !prefix_eq(&a.target_name, a.target_name_len, &b.target_name, b.target_name_len) {
        return false;
    }
    pubkey_eq(&a.authority, &b.authority)
}

/// One immutable receipt for one accepted contribution. Its storage address
/// is derived from (contributor, campaign, message), so a contributor cannot
/// file two receipts with the same message against the same campaign.
#[derive(Clone, Copy, PartialEq, Eq, Debug)]
pub struct Tip {
    /// Who paid.
    pub author: Pubkey,
    /// The campaign the contribution went to, named by its address seeds.
    pub parent_tipper: TipperKey,
    /// How much was transferred; always positive.
    pub amount: u64,
    /// Fixed buffer holding the free-text message, zero-filled past it.
    pub message: [u8; 32],
    /// How many leading bytes of `message` are the message itself.
    pub message_len: u8,
    /// Bump seed under which the host derived this record's address.
    pub bump: u8,
}

impl Tip {
    /// Serialized size of the record in host storage:
    /// author + campaign reference + amount + message buffer + message length + bump.
    pub const LEN: usize = 32 + 32 + 8 + MESSAGE_LENGTH + 1 + 1;

    /// The live bytes of the message: the used prefix of the buffer.
    pub open spec fn message_bytes(self) -> Seq<u8> {
        self.message@.take(self.message_len as int)
    }

    /// The seed triple from which this record's storage address is derived:
    /// contributor, campaign, message. At most one live receipt exists per
    /// such triple.
    pub open spec fn key(self) -> (Seq<u8>, (Seq<u8>, Seq<u8>), Seq<u8>) {
        (self.author@, self.parent_tipper.key(), self.message_bytes())
    }

    pub open spec fn wf(self) -> bool {
        &&& self.message_len as int <= 32
        &&& self.parent_tipper.wf()
        &&& self.amount > 0
    }
}

} // verus!
