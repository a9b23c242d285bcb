//! Events emitted by the program and read back by the observer: an 8-byte
//! discriminator followed by the event's fields, starting with the schema
//! version.
use vstd::prelude::*;

use crate::codec::{
    bool_byte, i64_at, key_at, key_bytes, le_i64, le_u16, le_u32, le_u64, u16_at, u32_at, u64_at,
};
use crate::hashing::{discriminator, spec_event_discriminator};
use crate::pubkey::Pubkey;

verus! {

/// The encoding of one field.
#[derive(Clone, Copy, Debug, PartialEq, Eq, Structural)]
pub enum FieldKind {
    Key,
    U16,
    U32,
    U64,
    I64,
    Bool,
}

/// One field value of an event.
#[derive(Clone, Copy, Debug, PartialEq, Eq)]
pub enum FieldValue {
    Key(Pubkey),
    U16(u16),
    U32(u32),
    U64(u64),
    I64(i64),
    Bool(bool),
}

/// The encoding that a value uses.
pub open spec fn kind_of(v: FieldValue) -> FieldKind {
    match v {
        FieldValue::Key(_) => FieldKind::Key,
        FieldValue::U16(_) => FieldKind::U16,
        FieldValue::U32(_) => FieldKind::U32,
        FieldValue::U64(_) => FieldKind::U64,
        FieldValue::I64(_) => FieldKind::I64,
        FieldValue::Bool(_) => FieldKind::Bool,
    }
}

/// The encodings of a sequence of values.
pub open spec fn kinds_of(vs: Seq<FieldValue>) -> Seq<FieldKind> {
    vs.map_values(|v: FieldValue| kind_of(v))
}

/// Number of bytes a field of this kind occupies.
pub open spec fn field_width(k: FieldKind) -> int {
    match k {
        FieldKind::Key => 32,
        FieldKind::U16 => 2,
        FieldKind::U32 => 4,
        FieldKind::U64 => 8,
        FieldKind::I64 => 8,
        FieldKind::Bool => 1,
    }
}

/// The bytes of one field.
pub open spec fn encode_field(v: FieldValue) -> Seq<u8> {
    match v {
        FieldValue::Key(k) => key_bytes(k),
        FieldValue::U16(x) => le_u16(x),
        FieldValue::U32(x) => le_u32(x),
        FieldValue::U64(x) => le_u64(x),
        FieldValue::I64(x) => le_i64(x),
        FieldValue::Bool(b) => bool_byte(b),
    }
}

/// The bytes of a sequence of fields, in order.
pub open spec fn encode_fields(vs: Seq<FieldValue>) -> Seq<u8>
    decreases vs.len(),
{
    if vs.len() == 0 {
        seq![]
    } else {
        encode_field(vs[0]) + encode_fields(vs.drop_first())
    }
}

/// The field of kind `k` stored at `at`, if the bytes hold one.
pub open spec fn decode_field(k: FieldKind, s: Seq<u8>, at: int) -> Option<FieldValue> {
    if at < 0 || at + field_width(k) > s.len() {
        None
    } else {
        match k {
            FieldKind::Key => Some(FieldValue::Key(key_at(s, at))),
            FieldKind::U16 => Some(FieldValue::U16(u16_at(s, at))),
            FieldKind::U32 => Some(FieldValue::U32(u32_at(s, at))),
            FieldKind::U64 => Some(FieldValue::U64(u64_at(s, at))),
            FieldKind::I64 => Some(FieldValue::I64(i64_at(s, at))),
            FieldKind::Bool => if s[at] == 0 {
                Some(FieldValue::Bool(false))
            } else if s[at] == 1 {
                Some(FieldValue::Bool(true))
            } else {
                None
            },
        }
    }
}

/// Fields of the given kinds read from `at` onwards; the bytes must end exactly
/// after the last field.
pub open spec fn decode_from(layout: Seq<FieldKind>, s: Seq<u8>, at: int) -> Option<
    Seq<FieldValue>,
>
    decreases layout.len(),
{
    if layout.len() == 0 {
        if at == s.len() {
            Some(seq![])
        } else {
            None
        }
    } else {
        match decode_field(layout[0], s, at) {
            None => None,
            Some(v) => match decode_from(layout.drop_first(), s, at + field_width(layout[0])) {
                None => None,
                Some(rest) => Some(seq![v] + rest),
            },
        }
    }
}

/// The width of a field is the length of its bytes.
pub proof fn lemma_encode_field_len(v: FieldValue)
    ensures
        encode_field(v).len() == field_width(kind_of(v)),
{
}

/// Reading a field back from its bytes gives the field.
pub proof fn lemma_field_roundtrip(v: FieldValue, s: Seq<u8>, at: int)
    requires
        0 <= at,
        at + encode_field(v).len() <= s.len(),
        s.subrange(at, at + encode_field(v).len()) == encode_field(v),
    ensures
        decode_field(kind_of(v), s, at) == Some(v),
{
    match v {
        FieldValue::Key(k) => crate::codec::lemma_key_roundtrip(k, s, at),
        FieldValue::U16(x) => crate::codec::lemma_u16_roundtrip(x, s, at),
        FieldValue::U32(x) => crate::codec::lemma_u32_roundtrip(x, s, at),
        FieldValue::U64(x) => crate::codec::lemma_u64_roundtrip(x, s, at),
        FieldValue::I64(x) => crate::codec::lemma_i64_roundtrip(x, s, at),
        FieldValue::Bool(b) => {
            assert(s[at] == s.subrange(at, at + 1)[0]);
        },
    }
}

/// A field read from bytes encodes back to those bytes.
pub proof fn lemma_field_bytes(k: FieldKind, s: Seq<u8>, at: int)
    requires
        decode_field(k, s, at) is Some,
    ensures
        kind_of(decode_field(k, s, at)->0) == k,
        encode_field(decode_field(k, s, at)->0) == s.subrange(at, at + field_width(k)),
{
    match k {
        FieldKind::Key => crate::codec::lemma_key_bytes(s, at),
        FieldKind::U16 => crate::codec::lemma_u16_bytes(s, at),
        FieldKind::U32 => crate::codec::lemma_u32_bytes(s, at),
        FieldKind::U64 => crate::codec::lemma_u64_bytes(s, at),
        FieldKind::I64 => crate::codec::lemma_i64_bytes(s, at),
        FieldKind::Bool => {
            assert(encode_field(decode_field(k, s, at)->0) =~= s.subrange(at, at + 1));
        },
    }
}

/// Reading fields back from their bytes gives the fields.
pub proof fn lemma_fields_roundtrip(vs: Seq<FieldValue>, s: Seq<u8>, at: int)
    requires
        0 <= at,
        at + encode_fields(vs).len() == s.len(),
        s.subrange(at, s.len() as int) == encode_fields(vs),
    ensures
        decode_from(kinds_of(vs), s, at) == Some(vs),
    decreases vs.len(),
{
    if vs.len() == 0 {
        assert(kinds_of(vs) =~= seq![]);
    } else {
        let v = vs[0];
        let w = encode_field(v).len();
        lemma_encode_field_len(v);
        assert(encode_fields(vs) == encode_field(v) + encode_fields(vs.drop_first()));
        let whole = s.subrange(at, s.len() as int);
        assert(whole == encode_field(v) + encode_fields(vs.drop_first()));
        assert(s.subrange(at, at + w) =~= whole.subrange(0, w as int));
        assert(whole.subrange(0, w as int) =~= encode_field(v));
        lemma_field_roundtrip(v, s, at);
        assert(s.subrange(at + w, s.len() as int) =~= whole.subrange(w as int, whole.len() as int));
        assert(whole.subrange(w as int, whole.len() as int) =~= encode_fields(vs.drop_first()));
        lemma_fields_roundtrip(vs.drop_first(), s, at + w);
        assert(kinds_of(vs).drop_first() =~= kinds_of(vs.drop_first()));
        assert(seq![v] + vs.drop_first() =~= vs);
    }
}

/// Fields read from bytes have the requested kinds and encode back to exactly
/// the bytes read.
pub proof fn lemma_fields_bytes(layout: Seq<FieldKind>, s: Seq<u8>, at: int)
    requires
        decode_from(layout, s, at) is Some,
        0 <= at <= s.len(),
    ensures
        kinds_of(decode_from(layout, s, at)->0) == layout,
        encode_fields(decode_from(layout, s, at)->0) == s.subrange(at, s.len() as int),
    decreases layout.len(),
{
    let vs = decode_from(layout, s, at)->0;
    if layout.len() == 0 {
        assert(kinds_of(vs) =~= layout);
        assert(s.subrange(at, s.len() as int) =~= seq![]);
    } else {
        let k = layout[0];
        lemma_field_bytes(k, s, at);
        let v = decode_field(k, s, at)->0;
        let next = at + field_width(k);
        lemma_fields_bytes(layout.drop_first(), s, next);
        let rest = decode_from(layout.drop_first(), s, next)->0;
        assert(vs == seq![v] + rest);
        assert(vs.drop_first() =~= rest);
        assert forall|i: int| 0 <= i < layout.len() implies kinds_of(vs)[i] == layout[i] by {
            if i > 0 {
                assert(kinds_of(vs)[i] == kind_of(rest[i - 1]));
                assert(kinds_of(rest)[i - 1] == layout.drop_first()[i - 1]);
            }
        }
        assert(kinds_of(vs) =~= layout);
        assert(encode_fields(vs) == encode_field(v) + encode_fields(rest));
        assert(s.subrange(at, s.len() as int) =~= s.subrange(at, next) + s.subrange(
            next,
            s.len() as int,
        ));
    }
}

/// Appends the bytes of one field.
pub fn push_field(out: &mut Vec<u8>, v: &FieldValue)
    ensures
        final(out)@ == old(out)@ + encode_field(*v),
{
    match v {
        FieldValue::Key(k) => crate::codec::push_key(out, k),
        FieldValue::U16(x) => crate::codec::push_u16(out, *x),
        FieldValue::U32(x) => crate::codec::push_u32(out, *x),
        FieldValue::U64(x) => crate::codec::push_u64(out, *x),
        FieldValue::I64(x) => crate::codec::push_i64(out, *x),
        FieldValue::Bool(b) => crate::codec::push_bool(out, *b),
    }
}

/// Appends the bytes of fields in order.
pub fn push_fields(out: &mut Vec<u8>, vs: &Vec<FieldValue>)
    ensures
        final(out)@ == old(out)@ + encode_fields(vs@),
{
    let mut i: usize = 0;
    assert(vs@.skip(0) =~= vs@);
    while i < vs.len()
        invariant
            i <= vs@.len(),
            old(out)@ + encode_fields(vs@) == out@ + encode_fields(vs@.skip(i as int)),
        decreases vs@.len() - i,
    {
        let ghost before = out@;
        push_field(out, &vs[i]);
        assert(vs@.skip(i as int).drop_first() =~= vs@.skip(i + 1));
        assert(encode_fields(vs@.skip(i as int)) == encode_field(vs@[i as int]) + encode_fields(
            vs@.skip(i + 1),
        ));
        assert(out@ + encode_fields(vs@.skip(i + 1)) =~= before + encode_fields(
            vs@.skip(i as int),
        ));
        i = i + 1;
    }
    assert(vs@.skip(vs@.len() as int) =~= seq![]);
    assert(out@ + encode_fields(seq![]) =~= out@);
}

fn read_field(k: FieldKind, data: &[u8], at: usize) -> (v: Option<FieldValue>)
    ensures
        v == decode_field(k, data@, at as int),
{
    let n = data.len();
    let width: usize = match k {
        FieldKind::Key => 32,
        FieldKind::U16 => 2,
        FieldKind::U32 => 4,
        FieldKind::U64 => 8,
        FieldKind::I64 => 8,
        FieldKind::Bool => 1,
    };
    if at > n || n - at < width {
        return None;
    }
    match k {
        FieldKind::Key => Some(FieldValue::Key(crate::codec::read_key(data, at))),
        FieldKind::U16 => Some(FieldValue::U16(crate::codec::read_u16(data, at))),
        FieldKind::U32 => Some(FieldValue::U32(crate::codec::read_u32(data, at))),
        FieldKind::U64 => Some(FieldValue::U64(crate::codec::read_u64(data, at))),
        FieldKind::I64 => Some(FieldValue::I64(crate::codec::read_i64(data, at))),
        FieldKind::Bool => if data[at] == 0 {
            Some(FieldValue::Bool(false))
        } else if data[at] == 1 {
            Some(FieldValue::Bool(true))
        } else {
            None
        },
    }
}

/// Reads fields of the given kinds from `at` to the exact end of the data.
pub fn read_fields(layout: &Vec<FieldKind>, data: &[u8], at: usize) -> (vs: Option<Vec<FieldValue>>)
    ensures
        vs matches Some(v) ==> decode_from(layout@, data@, at as int) == Some(v@),
        vs is None ==> decode_from(layout@, data@, at as int) is None,
{
    let n = data.len();
    let mut out: Vec<FieldValue> = Vec::new();
    let mut pos: usize = at;
    let mut i: usize = 0;
    proof {
        assert(layout@.skip(0) =~= layout@);
        match decode_from(layout@, data@, at as int) {
            Some(rest) => {
                assert(out@ + rest =~= rest);
            },
            None => {},
        }
    }
    while i < layout.len()
        invariant
            i <= layout@.len(),
            n == data@.len(),
            decode_from(layout@, data@, at as int) == match decode_from(
                layout@.skip(i as int),
                data@,
                pos as int,
            ) {
                Some(rest) => Some(out@ + rest),
                None => None::<Seq<FieldValue>>,
            },
        decreases layout@.len() - i,
    {
        let k = layout[i];
        let ghost tail = layout@.skip(i as int);
        assert(tail[0] == k);
        assert(tail.drop_first() =~= layout@.skip(i + 1));
        match read_field(k, data, pos) {
            None => {
                return None;
            },
            Some(v) => {
                let width: usize = match k {
                    FieldKind::Key => 32,
                    FieldKind::U16 => 2,
                    FieldKind::U32 => 4,
                    FieldKind::U64 => 8,
                    FieldKind::I64 => 8,
                    FieldKind::Bool => 1,
                };
                assert(width as int == field_width(k));
                let ghost old_out = out@;
                out.push(v);
                proof {
                    match decode_from(layout@.skip(i + 1), data@, pos + width) {
                        Some(rest) => {
                            assert(old_out + (seq![v] + rest) =~= out@ + rest);
                        },
                        None => {},
                    }
                }
                pos = pos + width;
                i = i + 1;
            },
        }
    }
    assert(layout@.skip(i as int) =~= seq![]);
    if pos == n {
        assert(out@ + seq![] =~= out@);
        Some(out)
    } else {
        None
    }
}

/// The kinds of events, in the order the observer tries their discriminators.
#[derive(Clone, Copy, Debug, PartialEq, Eq, Structural)]
pub enum EventKind {
    ProtocolInitialized,
    ProtocolPauseUpdated,
    EscrowCreated,
    EscrowReleased,
    EscrowRefunded,
    VaultCreated,
    VaultAuthorityUpdated,
    VaultPauseUpdated,
    VaultAssetRegistered,
    VaultDeposit,
    VaultWithdrawal,
    RoleGranted,
    RoleRevoked,
    VaultLimitsUpdated,
    WithdrawalRequested,
    WithdrawalExecuted,
    WithdrawalCancelled,
}

impl EventKind {
    /// Position of the kind in the decoding order.
    pub open spec fn index(self) -> nat {
        match self {
            EventKind::ProtocolInitialized => 0,
            EventKind::ProtocolPauseUpdated => 1,
            EventKind::EscrowCreated => 2,
            EventKind::EscrowReleased => 3,
            EventKind::EscrowRefunded => 4,
            EventKind::VaultCreated => 5,
            EventKind::VaultAuthorityUpdated => 6,
            EventKind::VaultPauseUpdated => 7,
            EventKind::VaultAssetRegistered => 8,
            EventKind::VaultDeposit => 9,
            EventKind::VaultWithdrawal => 10,
            EventKind::RoleGranted => 11,
            EventKind::RoleRevoked => 12,
            EventKind::VaultLimitsUpdated => 13,
            EventKind::WithdrawalRequested => 14,
            EventKind::WithdrawalExecuted => 15,
            EventKind::WithdrawalCancelled => 16,
        }
    }

    /// The event name.
    pub open spec fn spec_name(self) -> Seq<char> {
        match self {
            EventKind::ProtocolInitialized => "ProtocolInitialized"@,
            EventKind::ProtocolPauseUpdated => "ProtocolPauseUpdated"@,
            EventKind::EscrowCreated => "EscrowCreated"@,
            EventKind::EscrowReleased => "EscrowReleased"@,
            EventKind::EscrowRefunded => "EscrowRefunded"@,
            EventKind::VaultCreated => "VaultCreated"@,
            EventKind::VaultAuthorityUpdated => "VaultAuthorityUpdated"@,
            EventKind::VaultPauseUpdated => "VaultPauseUpdated"@,
            EventKind::VaultAssetRegistered => "VaultAssetRegistered"@,
            EventKind::VaultDeposit => "VaultDeposit"@,
            EventKind::VaultWithdrawal => "VaultWithdrawal"@,
            EventKind::RoleGranted => "RoleGranted"@,
            EventKind::RoleRevoked => "RoleRevoked"@,
            EventKind::VaultLimitsUpdated => "VaultLimitsUpdated"@,
            EventKind::WithdrawalRequested => "WithdrawalRequested"@,
            EventKind::WithdrawalExecuted => "WithdrawalExecuted"@,
            EventKind::WithdrawalCancelled => "WithdrawalCancelled"@,
        }
    }

    /// The event name, which also determines the discriminator.
    pub fn name(&self) -> (name: &'static str)
        ensures
            name@ == self.spec_name(),
    {
        match self {
            EventKind::ProtocolInitialized => "ProtocolInitialized",
            EventKind::ProtocolPauseUpdated => "ProtocolPauseUpdated",
            EventKind::EscrowCreated => "EscrowCreated",
            EventKind::EscrowReleased => "EscrowReleased",
            EventKind::EscrowRefunded => "EscrowRefunded",
            EventKind::VaultCreated => "VaultCreated",
            EventKind::VaultAuthorityUpdated => "VaultAuthorityUpdated",
            EventKind::VaultPauseUpdated => "VaultPauseUpdated",
            EventKind::VaultAssetRegistered => "VaultAssetRegistered",
            EventKind::VaultDeposit => "VaultDeposit",
            EventKind::VaultWithdrawal => "VaultWithdrawal",
            EventKind::RoleGranted => "RoleGranted",
            EventKind::RoleRevoked => "RoleRevoked",
            EventKind::VaultLimitsUpdated => "VaultLimitsUpdated",
            EventKind::WithdrawalRequested => "WithdrawalRequested",
            EventKind::WithdrawalExecuted => "WithdrawalExecuted",
            EventKind::WithdrawalCancelled => "WithdrawalCancelled",
        }
    }

    /// The kinds of the fields of this event, in order.
    pub open spec fn spec_layout(self) -> Seq<FieldKind> {
        match self {
            EventKind::ProtocolInitialized => seq![FieldKind::U16, FieldKind::Key, FieldKind::Key, FieldKind::Key],
            EventKind::ProtocolPauseUpdated => seq![FieldKind::U16, FieldKind::Key, FieldKind::Key, FieldKind::U32, FieldKind::U32],
            EventKind::EscrowCreated => seq![FieldKind::U16, FieldKind::Key, FieldKind::Key, FieldKind::Key, FieldKind::Key, FieldKind::Key, FieldKind::U64, FieldKind::I64, FieldKind::I64, FieldKind::U64],
            EventKind::EscrowReleased => seq![FieldKind::U16, FieldKind::Key, FieldKind::Key, FieldKind::Key, FieldKind::Key, FieldKind::Key, FieldKind::Key, FieldKind::U64],
            EventKind::EscrowRefunded => seq![FieldKind::U16, FieldKind::Key, FieldKind::Key, FieldKind::Key, FieldKind::Key, FieldKind::Key, FieldKind::Key, FieldKind::U64],
            EventKind::VaultCreated => seq![FieldKind::U16, FieldKind::Key, FieldKind::Key, FieldKind::Key, FieldKind::Key, FieldKind::U64],
            EventKind::VaultAuthorityUpdated => seq![FieldKind::U16, FieldKind::Key, FieldKind::Key, FieldKind::Key],
            EventKind::VaultPauseUpdated => seq![FieldKind::U16, FieldKind::Key, FieldKind::Key, FieldKind::Bool],
            EventKind::VaultAssetRegistered => seq![FieldKind::U16, FieldKind::Key, FieldKind::Key, FieldKind::Key, FieldKind::Key, FieldKind::Key],
            EventKind::VaultDeposit => seq![FieldKind::U16, FieldKind::Key, FieldKind::Key, FieldKind::Key, FieldKind::Key, FieldKind::Key, FieldKind::Key, FieldKind::U64],
            EventKind::VaultWithdrawal => seq![FieldKind::U16, FieldKind::Key, FieldKind::Key, FieldKind::Key, FieldKind::Key, FieldKind::Key, FieldKind::Key, FieldKind::U64],
            EventKind::RoleGranted => seq![FieldKind::U16, FieldKind::Key, FieldKind::Key, FieldKind::U64],
            EventKind::RoleRevoked => seq![FieldKind::U16, FieldKind::Key, FieldKind::Key, FieldKind::U64],
            EventKind::VaultLimitsUpdated => seq![FieldKind::U16, FieldKind::Key, FieldKind::Key, FieldKind::Key, FieldKind::Key, FieldKind::U64, FieldKind::U64, FieldKind::I64, FieldKind::U64, FieldKind::I64, FieldKind::I64, FieldKind::I64, FieldKind::U64],
            EventKind::WithdrawalRequested => seq![FieldKind::U16, FieldKind::Key, FieldKind::Key, FieldKind::Key, FieldKind::Key, FieldKind::Key, FieldKind::Key, FieldKind::Key, FieldKind::U64, FieldKind::U64, FieldKind::I64, FieldKind::I64, FieldKind::I64],
            EventKind::WithdrawalExecuted => seq![FieldKind::U16, FieldKind::Key, FieldKind::Key, FieldKind::Key, FieldKind::Key, FieldKind::Key, FieldKind::Key, FieldKind::U64, FieldKind::U64],
            EventKind::WithdrawalCancelled => seq![FieldKind::U16, FieldKind::Key, FieldKind::Key, FieldKind::Key, FieldKind::Key, FieldKind::U64],
        }
    }

    /// The kinds of the fields of this event, in order.
    pub fn layout(&self) -> (layout: Vec<FieldKind>)
        ensures
            layout@ == self.spec_layout(),
    {
        let layout = match self {
            EventKind::ProtocolInitialized => vec![FieldKind::U16, FieldKind::Key, FieldKind::Key, FieldKind::Key],
            EventKind::ProtocolPauseUpdated => vec![FieldKind::U16, FieldKind::Key, FieldKind::Key, FieldKind::U32, FieldKind::U32],
            EventKind::EscrowCreated => vec![FieldKind::U16, FieldKind::Key, FieldKind::Key, FieldKind::Key, FieldKind::Key, FieldKind::Key, FieldKind::U64, FieldKind::I64, FieldKind::I64, FieldKind::U64],
            EventKind::EscrowReleased => vec![FieldKind::U16, FieldKind::Key, FieldKind::Key, FieldKind::Key, FieldKind::Key, FieldKind::Key, FieldKind::Key, FieldKind::U64],
            EventKind::EscrowRefunded => vec![FieldKind::U16, FieldKind::Key, FieldKind::Key, FieldKind::Key, FieldKind::Key, FieldKind::Key, FieldKind::Key, FieldKind::U64],
            EventKind::VaultCreated => vec![FieldKind::U16, FieldKind::Key, FieldKind::Key, FieldKind::Key, FieldKind::Key, FieldKind::U64],
            EventKind::VaultAuthorityUpdated => vec![FieldKind::U16, FieldKind::Key, FieldKind::Key, FieldKind::Key],
            EventKind::VaultPauseUpdated => vec![FieldKind::U16, FieldKind::Key, FieldKind::Key, FieldKind::Bool],
            EventKind::VaultAssetRegistered => vec![FieldKind::U16, FieldKind::Key, FieldKind::Key, FieldKind::Key, FieldKind::Key, FieldKind::Key],
            EventKind::VaultDeposit => vec![FieldKind::U16, FieldKind::Key, FieldKind::Key, FieldKind::Key, FieldKind::Key, FieldKind::Key, FieldKind::Key, FieldKind::U64],
            EventKind::VaultWithdrawal => vec![FieldKind::U16, FieldKind::Key, FieldKind::Key, FieldKind::Key, FieldKind::Key, FieldKind::Key, FieldKind::Key, FieldKind::U64],
            EventKind::RoleGranted => vec![FieldKind::U16, FieldKind::Key, FieldKind::Key, FieldKind::U64],
            EventKind::RoleRevoked => vec![FieldKind::U16, FieldKind::Key, FieldKind::Key, FieldKind::U64],
            EventKind::VaultLimitsUpdated => vec![FieldKind::U16, FieldKind::Key, FieldKind::Key, FieldKind::Key, FieldKind::Key, FieldKind::U64, FieldKind::U64, FieldKind::I64, FieldKind::U64, FieldKind::I64, FieldKind::I64, FieldKind::I64, FieldKind::U64],
            EventKind::WithdrawalRequested => vec![FieldKind::U16, FieldKind::Key, FieldKind::Key, FieldKind::Key, FieldKind::Key, FieldKind::Key, FieldKind::Key, FieldKind::Key, FieldKind::U64, FieldKind::U64, FieldKind::I64, FieldKind::I64, FieldKind::I64],
            EventKind::WithdrawalExecuted => vec![FieldKind::U16, FieldKind::Key, FieldKind::Key, FieldKind::Key, FieldKind::Key, FieldKind::Key, FieldKind::Key, FieldKind::U64, FieldKind::U64],
            EventKind::WithdrawalCancelled => vec![FieldKind::U16, FieldKind::Key, FieldKind::Key, FieldKind::Key, FieldKind::Key, FieldKind::U64],
        };
        assert(layout@ =~= self.spec_layout());
        layout
    }

    /// The kind at position `i` of the decoding order.
    pub open spec fn spec_from_index(i: nat) -> EventKind {
        if i == 0 {
            EventKind::ProtocolInitialized
        } else if i == 1 {
            EventKind::ProtocolPauseUpdated
        } else if i == 2 {
            EventKind::EscrowCreated
        } else if i == 3 {
            EventKind::EscrowReleased
        } else if i == 4 {
            EventKind::EscrowRefunded
        } else if i == 5 {
            EventKind::VaultCreated
        } else if i == 6 {
            EventKind::VaultAuthorityUpdated
        } else if i == 7 {
            EventKind::VaultPauseUpdated
        } else if i == 8 {
            EventKind::VaultAssetRegistered
        } else if i == 9 {
            EventKind::VaultDeposit
        } else if i == 10 {
            EventKind::VaultWithdrawal
        } else if i == 11 {
            EventKind::RoleGranted
        } else if i == 12 {
            EventKind::RoleRevoked
        } else if i == 13 {
            EventKind::VaultLimitsUpdated
        } else if i == 14 {
            EventKind::WithdrawalRequested
        } else if i == 15 {
            EventKind::WithdrawalExecuted
        } else {
            EventKind::WithdrawalCancelled
        }
    }

    /// The kind at position `i` of the decoding order.
    pub fn from_index(i: usize) -> (kind: EventKind)
        requires
            i < 17,
        ensures
            kind == EventKind::spec_from_index(i as nat),
            kind.index() == i,
    {
        if i == 0 {
            EventKind::ProtocolInitialized
        } else if i == 1 {
            EventKind::ProtocolPauseUpdated
        } else if i == 2 {
            EventKind::EscrowCreated
        } else if i == 3 {
            EventKind::EscrowReleased
        } else if i == 4 {
            EventKind::EscrowRefunded
        } else if i == 5 {
            EventKind::VaultCreated
        } else if i == 6 {
            EventKind::VaultAuthorityUpdated
        } else if i == 7 {
            EventKind::VaultPauseUpdated
        } else if i == 8 {
            EventKind::VaultAssetRegistered
        } else if i == 9 {
            EventKind::VaultDeposit
        } else if i == 10 {
            EventKind::VaultWithdrawal
        } else if i == 11 {
            EventKind::RoleGranted
        } else if i == 12 {
            EventKind::RoleRevoked
        } else if i == 13 {
            EventKind::VaultLimitsUpdated
        } else if i == 14 {
            EventKind::WithdrawalRequested
        } else if i == 15 {
            EventKind::WithdrawalExecuted
        } else {
            EventKind::WithdrawalCancelled
        }
    }
}

/// Payload of the `ProtocolInitialized` event.
#[derive(Clone, Copy, Debug, PartialEq, Eq)]
pub struct ProtocolInitialized {
    pub version: u16,
    pub protocol_config: Pubkey,
    pub admin: Pubkey,
    pub guardian: Pubkey,
}

/// Payload of the `ProtocolPauseUpdated` event.
#[derive(Clone, Copy, Debug, PartialEq, Eq)]
pub struct ProtocolPauseUpdated {
    pub version: u16,
    pub protocol_config: Pubkey,
    pub caller: Pubkey,
    pub previous_flags: u32,
    pub new_flags: u32,
}

/// Payload of the `EscrowCreated` event.
#[derive(Clone, Copy, Debug, PartialEq, Eq)]
pub struct EscrowCreated {
    pub version: u16,
    pub escrow: Pubkey,
    pub escrow_token: Pubkey,
    pub maker: Pubkey,
    pub recipient: Pubkey,
    pub mint: Pubkey,
    pub amount: u64,
    pub created_at: i64,
    pub expires_at: i64,
    pub escrow_id: u64,
}

/// Payload of the `EscrowReleased` event.
#[derive(Clone, Copy, Debug, PartialEq, Eq)]
pub struct EscrowReleased {
    pub version: u16,
    pub escrow: Pubkey,
    pub escrow_token: Pubkey,
    pub maker: Pubkey,
    pub recipient: Pubkey,
    pub recipient_token: Pubkey,
    pub mint: Pubkey,
    pub amount: u64,
}

/// Payload of the `EscrowRefunded` event.
#[derive(Clone, Copy, Debug, PartialEq, Eq)]
pub struct EscrowRefunded {
    pub version: u16,
    pub escrow: Pubkey,
    pub escrow_token: Pubkey,
    pub caller: Pubkey,
    pub maker: Pubkey,
    pub maker_destination: Pubkey,
    pub mint: Pubkey,
    pub amount: u64,
}

/// Payload of the `VaultCreated` event.
#[derive(Clone, Copy, Debug, PartialEq, Eq)]
pub struct VaultCreated {
    pub version: u16,
    pub vault: Pubkey,
    pub namespace_authority: Pubkey,
    pub authority: Pubkey,
    pub guardian: Pubkey,
    pub vault_id: u64,
}

/// Payload of the `VaultAuthorityUpdated` event.
#[derive(Clone, Copy, Debug, PartialEq, Eq)]
pub struct VaultAuthorityUpdated {
    pub version: u16,
    pub vault: Pubkey,
    pub previous_authority: Pubkey,
    pub new_authority: Pubkey,
}

/// Payload of the `VaultPauseUpdated` event.
#[derive(Clone, Copy, Debug, PartialEq, Eq)]
pub struct VaultPauseUpdated {
    pub version: u16,
    pub vault: Pubkey,
    pub caller: Pubkey,
    pub paused: bool,
}

/// Payload of the `VaultAssetRegistered` event.
#[derive(Clone, Copy, Debug, PartialEq, Eq)]
pub struct VaultAssetRegistered {
    pub version: u16,
    pub vault: Pubkey,
    pub vault_asset: Pubkey,
    pub vault_token: Pubkey,
    pub mint: Pubkey,
    pub token_program: Pubkey,
}

/// Payload of the `VaultDeposit` event.
#[derive(Clone, Copy, Debug, PartialEq, Eq)]
pub struct VaultDeposit {
    pub version: u16,
    pub vault: Pubkey,
    pub vault_asset: Pubkey,
    pub vault_token: Pubkey,
    pub depositor: Pubkey,
    pub source_token: Pubkey,
    pub mint: Pubkey,
    pub amount: u64,
}

/// Payload of the `VaultWithdrawal` event.
#[derive(Clone, Copy, Debug, PartialEq, Eq)]
pub struct VaultWithdrawal {
    pub version: u16,
    pub vault: Pubkey,
    pub vault_asset: Pubkey,
    pub vault_token: Pubkey,
    pub caller: Pubkey,
    pub destination_token: Pubkey,
    pub mint: Pubkey,
    pub amount: u64,
}

/// Payload of the `RoleGranted` event.
#[derive(Clone, Copy, Debug, PartialEq, Eq)]
pub struct RoleGranted {
    pub version: u16,
    pub vault: Pubkey,
    pub principal: Pubkey,
    pub permissions: u64,
}

/// Payload of the `RoleRevoked` event.
#[derive(Clone, Copy, Debug, PartialEq, Eq)]
pub struct RoleRevoked {
    pub version: u16,
    pub vault: Pubkey,
    pub principal: Pubkey,
    pub previous_permissions: u64,
}

/// Payload of the `VaultLimitsUpdated` event.
#[derive(Clone, Copy, Debug, PartialEq, Eq)]
pub struct VaultLimitsUpdated {
    pub version: u16,
    pub vault: Pubkey,
    pub vault_asset: Pubkey,
    pub mint: Pubkey,
    pub caller: Pubkey,
    pub max_per_transaction: u64,
    pub window_limit: u64,
    pub window_seconds: i64,
    pub timelock_threshold: u64,
    pub timelock_seconds: i64,
    pub request_execution_window_seconds: i64,
    pub window_started_at: i64,
    pub window_spent: u64,
}

/// Payload of the `WithdrawalRequested` event.
#[derive(Clone, Copy, Debug, PartialEq, Eq)]
pub struct WithdrawalRequested {
    pub version: u16,
    pub vault: Pubkey,
    pub vault_asset: Pubkey,
    pub withdrawal_request: Pubkey,
    pub proposer: Pubkey,
    pub recipient_owner: Pubkey,
    pub recipient_token_account: Pubkey,
    pub mint: Pubkey,
    pub withdrawal_id: u64,
    pub amount: u64,
    pub created_at: i64,
    pub execute_after: i64,
    pub expires_at: i64,
}

/// Payload of the `WithdrawalExecuted` event.
#[derive(Clone, Copy, Debug, PartialEq, Eq)]
pub struct WithdrawalExecuted {
    pub version: u16,
    pub vault: Pubkey,
    pub vault_asset: Pubkey,
    pub withdrawal_request: Pubkey,
    pub caller: Pubkey,
    pub recipient_token_account: Pubkey,
    pub mint: Pubkey,
    pub withdrawal_id: u64,
    pub amount: u64,
}

/// Payload of the `WithdrawalCancelled` event.
#[derive(Clone, Copy, Debug, PartialEq, Eq)]
pub struct WithdrawalCancelled {
    pub version: u16,
    pub vault: Pubkey,
    pub withdrawal_request: Pubkey,
    pub caller: Pubkey,
    pub proposer: Pubkey,
    pub withdrawal_id: u64,
}

/// Any event of the program.
#[derive(Clone, Copy, Debug, PartialEq, Eq)]
pub enum IronVaultEvent {
    ProtocolInitialized(ProtocolInitialized),
    ProtocolPauseUpdated(ProtocolPauseUpdated),
    EscrowCreated(EscrowCreated),
    EscrowReleased(EscrowReleased),
    EscrowRefunded(EscrowRefunded),
    VaultCreated(VaultCreated),
    VaultAuthorityUpdated(VaultAuthorityUpdated),
    VaultPauseUpdated(VaultPauseUpdated),
    VaultAssetRegistered(VaultAssetRegistered),
    VaultDeposit(VaultDeposit),
    VaultWithdrawal(VaultWithdrawal),
    RoleGranted(RoleGranted),
    RoleRevoked(RoleRevoked),
    VaultLimitsUpdated(VaultLimitsUpdated),
    WithdrawalRequested(WithdrawalRequested),
    WithdrawalExecuted(WithdrawalExecuted),
    WithdrawalCancelled(WithdrawalCancelled),
}

impl IronVaultEvent {
    /// The kind of this event.
    pub open spec fn kind(self) -> EventKind {
        match self {
            IronVaultEvent::ProtocolInitialized(_) => EventKind::ProtocolInitialized,
            IronVaultEvent::ProtocolPauseUpdated(_) => EventKind::ProtocolPauseUpdated,
            IronVaultEvent::EscrowCreated(_) => EventKind::EscrowCreated,
            IronVaultEvent::EscrowReleased(_) => EventKind::EscrowReleased,
            IronVaultEvent::EscrowRefunded(_) => EventKind::EscrowRefunded,
            IronVaultEvent::VaultCreated(_) => EventKind::VaultCreated,
            IronVaultEvent::VaultAuthorityUpdated(_) => EventKind::VaultAuthorityUpdated,
            IronVaultEvent::VaultPauseUpdated(_) => EventKind::VaultPauseUpdated,
            IronVaultEvent::VaultAssetRegistered(_) => EventKind::VaultAssetRegistered,
            IronVaultEvent::VaultDeposit(_) => EventKind::VaultDeposit,
            IronVaultEvent::VaultWithdrawal(_) => EventKind::VaultWithdrawal,
            IronVaultEvent::RoleGranted(_) => EventKind::RoleGranted,
            IronVaultEvent::RoleRevoked(_) => EventKind::RoleRevoked,
            IronVaultEvent::VaultLimitsUpdated(_) => EventKind::VaultLimitsUpdated,
            IronVaultEvent::WithdrawalRequested(_) => EventKind::WithdrawalRequested,
            IronVaultEvent::WithdrawalExecuted(_) => EventKind::WithdrawalExecuted,
            IronVaultEvent::WithdrawalCancelled(_) => EventKind::WithdrawalCancelled,
        }
    }

    /// The field values of this event, in order.
    pub open spec fn spec_fields(self) -> Seq<FieldValue> {
        match self {
            IronVaultEvent::ProtocolInitialized(e) => seq![FieldValue::U16(e.version), FieldValue::Key(e.protocol_config), FieldValue::Key(e.admin), FieldValue::Key(e.guardian)],
            IronVaultEvent::ProtocolPauseUpdated(e) => seq![FieldValue::U16(e.version), FieldValue::Key(e.protocol_config), FieldValue::Key(e.caller), FieldValue::U32(e.previous_flags), FieldValue::U32(e.new_flags)],
            IronVaultEvent::EscrowCreated(e) => seq![FieldValue::U16(e.version), FieldValue::Key(e.escrow), FieldValue::Key(e.escrow_token), FieldValue::Key(e.maker), FieldValue::Key(e.recipient), FieldValue::Key(e.mint), FieldValue::U64(e.amount), FieldValue::I64(e.created_at), FieldValue::I64(e.expires_at), FieldValue::U64(e.escrow_id)],
            IronVaultEvent::EscrowReleased(e) => seq![FieldValue::U16(e.version), FieldValue::Key(e.escrow), FieldValue::Key(e.escrow_token), FieldValue::Key(e.maker), FieldValue::Key(e.recipient), FieldValue::Key(e.recipient_token), FieldValue::Key(e.mint), FieldValue::U64(e.amount)],
            IronVaultEvent::EscrowRefunded(e) => seq![FieldValue::U16(e.version), FieldValue::Key(e.escrow), FieldValue::Key(e.escrow_token), FieldValue::Key(e.caller), FieldValue::Key(e.maker), FieldValue::Key(e.maker_destination), FieldValue::Key(e.mint), FieldValue::U64(e.amount)],
            IronVaultEvent::VaultCreated(e) => seq![FieldValue::U16(e.version), FieldValue::Key(e.vault), FieldValue::Key(e.namespace_authority), FieldValue::Key(e.authority), FieldValue::Key(e.guardian), FieldValue::U64(e.vault_id)],
            IronVaultEvent::VaultAuthorityUpdated(e) => seq![FieldValue::U16(e.version), FieldValue::Key(e.vault), FieldValue::Key(e.previous_authority), FieldValue::Key(e.new_authority)],
            IronVaultEvent::VaultPauseUpdated(e) => seq![FieldValue::U16(e.version), FieldValue::Key(e.vault), FieldValue::Key(e.caller), FieldValue::Bool(e.paused)],
            IronVaultEvent::VaultAssetRegistered(e) => seq![FieldValue::U16(e.version), FieldValue::Key(e.vault), FieldValue::Key(e.vault_asset), FieldValue::Key(e.vault_token), FieldValue::Key(e.mint), FieldValue::Key(e.token_program)],
            IronVaultEvent::VaultDeposit(e) => seq![FieldValue::U16(e.version), FieldValue::Key(e.vault), FieldValue::Key(e.vault_asset), FieldValue::Key(e.vault_token), FieldValue::Key(e.depositor), FieldValue::Key(e.source_token), FieldValue::Key(e.mint), FieldValue::U64(e.amount)],
            IronVaultEvent::VaultWithdrawal(e) => seq![FieldValue::U16(e.version), FieldValue::Key(e.vault), FieldValue::Key(e.vault_asset), FieldValue::Key(e.vault_token), FieldValue::Key(e.caller), FieldValue::Key(e.destination_token), FieldValue::Key(e.mint), FieldValue::U64(e.amount)],
            IronVaultEvent::RoleGranted(e) => seq![FieldValue::U16(e.version), FieldValue::Key(e.vault), FieldValue::Key(e.principal), FieldValue::U64(e.permissions)],
            IronVaultEvent::RoleRevoked(e) => seq![FieldValue::U16(e.version), FieldValue::Key(e.vault), FieldValue::Key(e.principal), FieldValue::U64(e.previous_permissions)],
            IronVaultEvent::VaultLimitsUpdated(e) => seq![FieldValue::U16(e.version), FieldValue::Key(e.vault), FieldValue::Key(e.vault_asset), FieldValue::Key(e.mint), FieldValue::Key(e.caller), FieldValue::U64(e.max_per_transaction), FieldValue::U64(e.window_limit), FieldValue::I64(e.window_seconds), FieldValue::U64(e.timelock_threshold), FieldValue::I64(e.timelock_seconds), FieldValue::I64(e.request_execution_window_seconds), FieldValue::I64(e.window_started_at), FieldValue::U64(e.window_spent)],
            IronVaultEvent::WithdrawalRequested(e) => seq![FieldValue::U16(e.version), FieldValue::Key(e.vault), FieldValue::Key(e.vault_asset), FieldValue::Key(e.withdrawal_request), FieldValue::Key(e.proposer), FieldValue::Key(e.recipient_owner), FieldValue::Key(e.recipient_token_account), FieldValue::Key(e.mint), FieldValue::U64(e.withdrawal_id), FieldValue::U64(e.amount), FieldValue::I64(e.created_at), FieldValue::I64(e.execute_after), FieldValue::I64(e.expires_at)],
            IronVaultEvent::WithdrawalExecuted(e) => seq![FieldValue::U16(e.version), FieldValue::Key(e.vault), FieldValue::Key(e.vault_asset), FieldValue::Key(e.withdrawal_request), FieldValue::Key(e.caller), FieldValue::Key(e.recipient_token_account), FieldValue::Key(e.mint), FieldValue::U64(e.withdrawal_id), FieldValue::U64(e.amount)],
            IronVaultEvent::WithdrawalCancelled(e) => seq![FieldValue::U16(e.version), FieldValue::Key(e.vault), FieldValue::Key(e.withdrawal_request), FieldValue::Key(e.caller), FieldValue::Key(e.proposer), FieldValue::U64(e.withdrawal_id)],
        }
    }

    /// The field values of this event, in order.
    pub fn fields(&self) -> (fields: Vec<FieldValue>)
        ensures
            fields@ == self.spec_fields(),
    {
        let fields = match self {
            IronVaultEvent::ProtocolInitialized(e) => vec![FieldValue::U16(e.version), FieldValue::Key(e.protocol_config), FieldValue::Key(e.admin), FieldValue::Key(e.guardian)],
            IronVaultEvent::ProtocolPauseUpdated(e) => vec![FieldValue::U16(e.version), FieldValue::Key(e.protocol_config), FieldValue::Key(e.caller), FieldValue::U32(e.previous_flags), FieldValue::U32(e.new_flags)],
            IronVaultEvent::EscrowCreated(e) => vec![FieldValue::U16(e.version), FieldValue::Key(e.escrow), FieldValue::Key(e.escrow_token), FieldValue::Key(e.maker), FieldValue::Key(e.recipient), FieldValue::Key(e.mint), FieldValue::U64(e.amount), FieldValue::I64(e.created_at), FieldValue::I64(e.expires_at), FieldValue::U64(e.escrow_id)],
            IronVaultEvent::EscrowReleased(e) => vec![FieldValue::U16(e.version), FieldValue::Key(e.escrow), FieldValue::Key(e.escrow_token), FieldValue::Key(e.maker), FieldValue::Key(e.recipient), FieldValue::Key(e.recipient_token), FieldValue::Key(e.mint), FieldValue::U64(e.amount)],
            IronVaultEvent::EscrowRefunded(e) => vec![FieldValue::U16(e.version), FieldValue::Key(e.escrow), FieldValue::Key(e.escrow_token), FieldValue::Key(e.caller), FieldValue::Key(e.maker), FieldValue::Key(e.maker_destination), FieldValue::Key(e.mint), FieldValue::U64(e.amount)],
            IronVaultEvent::VaultCreated(e) => vec![FieldValue::U16(e.version), FieldValue::Key(e.vault), FieldValue::Key(e.namespace_authority), FieldValue::Key(e.authority), FieldValue::Key(e.guardian), FieldValue::U64(e.vault_id)],
            IronVaultEvent::VaultAuthorityUpdated(e) => vec![FieldValue::U16(e.version), FieldValue::Key(e.vault), FieldValue::Key(e.previous_authority), FieldValue::Key(e.new_authority)],
            IronVaultEvent::VaultPauseUpdated(e) => vec![FieldValue::U16(e.version), FieldValue::Key(e.vault), FieldValue::Key(e.caller), FieldValue::Bool(e.paused)],
            IronVaultEvent::VaultAssetRegistered(e) => vec![FieldValue::U16(e.version), FieldValue::Key(e.vault), FieldValue::Key(e.vault_asset), FieldValue::Key(e.vault_token), FieldValue::Key(e.mint), FieldValue::Key(e.token_program)],
            IronVaultEvent::VaultDeposit(e) => vec![FieldValue::U16(e.version), FieldValue::Key(e.vault), FieldValue::Key(e.vault_asset), FieldValue::Key(e.vault_token), FieldValue::Key(e.depositor), FieldValue::Key(e.source_token), FieldValue::Key(e.mint), FieldValue::U64(e.amount)],
            IronVaultEvent::VaultWithdrawal(e) => vec![FieldValue::U16(e.version), FieldValue::Key(e.vault), FieldValue::Key(e.vault_asset), FieldValue::Key(e.vault_token), FieldValue::Key(e.caller), FieldValue::Key(e.destination_token), FieldValue::Key(e.mint), FieldValue::U64(e.amount)],
            IronVaultEvent::RoleGranted(e) => vec![FieldValue::U16(e.version), FieldValue::Key(e.vault), FieldValue::Key(e.principal), FieldValue::U64(e.permissions)],
            IronVaultEvent::RoleRevoked(e) => vec![FieldValue::U16(e.version), FieldValue::Key(e.vault), FieldValue::Key(e.principal), FieldValue::U64(e.previous_permissions)],
            IronVaultEvent::VaultLimitsUpdated(e) => vec![FieldValue::U16(e.version), FieldValue::Key(e.vault), FieldValue::Key(e.vault_asset), FieldValue::Key(e.mint), FieldValue::Key(e.caller), FieldValue::U64(e.max_per_transaction), FieldValue::U64(e.window_limit), FieldValue::I64(e.window_seconds), FieldValue::U64(e.timelock_threshold), FieldValue::I64(e.timelock_seconds), FieldValue::I64(e.request_execution_window_seconds), FieldValue::I64(e.window_started_at), FieldValue::U64(e.window_spent)],
            IronVaultEvent::WithdrawalRequested(e) => vec![FieldValue::U16(e.version), FieldValue::Key(e.vault), FieldValue::Key(e.vault_asset), FieldValue::Key(e.withdrawal_request), FieldValue::Key(e.proposer), FieldValue::Key(e.recipient_owner), FieldValue::Key(e.recipient_token_account), FieldValue::Key(e.mint), FieldValue::U64(e.withdrawal_id), FieldValue::U64(e.amount), FieldValue::I64(e.created_at), FieldValue::I64(e.execute_after), FieldValue::I64(e.expires_at)],
            IronVaultEvent::WithdrawalExecuted(e) => vec![FieldValue::U16(e.version), FieldValue::Key(e.vault), FieldValue::Key(e.vault_asset), FieldValue::Key(e.withdrawal_request), FieldValue::Key(e.caller), FieldValue::Key(e.recipient_token_account), FieldValue::Key(e.mint), FieldValue::U64(e.withdrawal_id), FieldValue::U64(e.amount)],
            IronVaultEvent::WithdrawalCancelled(e) => vec![FieldValue::U16(e.version), FieldValue::Key(e.vault), FieldValue::Key(e.withdrawal_request), FieldValue::Key(e.caller), FieldValue::Key(e.proposer), FieldValue::U64(e.withdrawal_id)],
        };
        assert(fields@ =~= self.spec_fields());
        fields
    }

    /// The schema version carried by the event.
    pub open spec fn spec_version(self) -> u16 {
        match self {
            IronVaultEvent::ProtocolInitialized(e) => e.version,
            IronVaultEvent::ProtocolPauseUpdated(e) => e.version,
            IronVaultEvent::EscrowCreated(e) => e.version,
            IronVaultEvent::EscrowReleased(e) => e.version,
            IronVaultEvent::EscrowRefunded(e) => e.version,
            IronVaultEvent::VaultCreated(e) => e.version,
            IronVaultEvent::VaultAuthorityUpdated(e) => e.version,
            IronVaultEvent::VaultPauseUpdated(e) => e.version,
            IronVaultEvent::VaultAssetRegistered(e) => e.version,
            IronVaultEvent::VaultDeposit(e) => e.version,
            IronVaultEvent::VaultWithdrawal(e) => e.version,
            IronVaultEvent::RoleGranted(e) => e.version,
            IronVaultEvent::RoleRevoked(e) => e.version,
            IronVaultEvent::VaultLimitsUpdated(e) => e.version,
            IronVaultEvent::WithdrawalRequested(e) => e.version,
            IronVaultEvent::WithdrawalExecuted(e) => e.version,
            IronVaultEvent::WithdrawalCancelled(e) => e.version,
        }
    }

    /// The schema version carried by the event.
    pub fn version(&self) -> (version: u16)
        ensures
            version == self.spec_version(),
    {
        match self {
            IronVaultEvent::ProtocolInitialized(e) => e.version,
            IronVaultEvent::ProtocolPauseUpdated(e) => e.version,
            IronVaultEvent::EscrowCreated(e) => e.version,
            IronVaultEvent::EscrowReleased(e) => e.version,
            IronVaultEvent::EscrowRefunded(e) => e.version,
            IronVaultEvent::VaultCreated(e) => e.version,
            IronVaultEvent::VaultAuthorityUpdated(e) => e.version,
            IronVaultEvent::VaultPauseUpdated(e) => e.version,
            IronVaultEvent::VaultAssetRegistered(e) => e.version,
            IronVaultEvent::VaultDeposit(e) => e.version,
            IronVaultEvent::VaultWithdrawal(e) => e.version,
            IronVaultEvent::RoleGranted(e) => e.version,
            IronVaultEvent::RoleRevoked(e) => e.version,
            IronVaultEvent::VaultLimitsUpdated(e) => e.version,
            IronVaultEvent::WithdrawalRequested(e) => e.version,
            IronVaultEvent::WithdrawalExecuted(e) => e.version,
            IronVaultEvent::WithdrawalCancelled(e) => e.version,
        }
    }

    /// The event name.
    pub fn name(&self) -> (name: &'static str)
        ensures
            name@ == self.kind().spec_name(),
    {
        match self {
            IronVaultEvent::ProtocolInitialized(_) => "ProtocolInitialized",
            IronVaultEvent::ProtocolPauseUpdated(_) => "ProtocolPauseUpdated",
            IronVaultEvent::EscrowCreated(_) => "EscrowCreated",
            IronVaultEvent::EscrowReleased(_) => "EscrowReleased",
            IronVaultEvent::EscrowRefunded(_) => "EscrowRefunded",
            IronVaultEvent::VaultCreated(_) => "VaultCreated",
            IronVaultEvent::VaultAuthorityUpdated(_) => "VaultAuthorityUpdated",
            IronVaultEvent::VaultPauseUpdated(_) => "VaultPauseUpdated",
            IronVaultEvent::VaultAssetRegistered(_) => "VaultAssetRegistered",
            IronVaultEvent::VaultDeposit(_) => "VaultDeposit",
            IronVaultEvent::VaultWithdrawal(_) => "VaultWithdrawal",
            IronVaultEvent::RoleGranted(_) => "RoleGranted",
            IronVaultEvent::RoleRevoked(_) => "RoleRevoked",
            IronVaultEvent::VaultLimitsUpdated(_) => "VaultLimitsUpdated",
            IronVaultEvent::WithdrawalRequested(_) => "WithdrawalRequested",
            IronVaultEvent::WithdrawalExecuted(_) => "WithdrawalExecuted",
            IronVaultEvent::WithdrawalCancelled(_) => "WithdrawalCancelled",
        }
    }

    /// The event of kind `kind` with field values `vs`.
    pub open spec fn spec_from_fields(kind: EventKind, vs: Seq<FieldValue>) -> IronVaultEvent {
        match kind {
            EventKind::ProtocolInitialized => IronVaultEvent::ProtocolInitialized(ProtocolInitialized { version: vs[0]->U16_0, protocol_config: vs[1]->Key_0, admin: vs[2]->Key_0, guardian: vs[3]->Key_0 }),
            EventKind::ProtocolPauseUpdated => IronVaultEvent::ProtocolPauseUpdated(ProtocolPauseUpdated { version: vs[0]->U16_0, protocol_config: vs[1]->Key_0, caller: vs[2]->Key_0, previous_flags: vs[3]->U32_0, new_flags: vs[4]->U32_0 }),
            EventKind::EscrowCreated => IronVaultEvent::EscrowCreated(EscrowCreated { version: vs[0]->U16_0, escrow: vs[1]->Key_0, escrow_token: vs[2]->Key_0, maker: vs[3]->Key_0, recipient: vs[4]->Key_0, mint: vs[5]->Key_0, amount: vs[6]->U64_0, created_at: vs[7]->I64_0, expires_at: vs[8]->I64_0, escrow_id: vs[9]->U64_0 }),
            EventKind::EscrowReleased => IronVaultEvent::EscrowReleased(EscrowReleased { version: vs[0]->U16_0, escrow: vs[1]->Key_0, escrow_token: vs[2]->Key_0, maker: vs[3]->Key_0, recipient: vs[4]->Key_0, recipient_token: vs[5]->Key_0, mint: vs[6]->Key_0, amount: vs[7]->U64_0 }),
            EventKind::EscrowRefunded => IronVaultEvent::EscrowRefunded(EscrowRefunded { version: vs[0]->U16_0, escrow: vs[1]->Key_0, escrow_token: vs[2]->Key_0, caller: vs[3]->Key_0, maker: vs[4]->Key_0, maker_destination: vs[5]->Key_0, mint: vs[6]->Key_0, amount: vs[7]->U64_0 }),
            EventKind::VaultCreated => IronVaultEvent::VaultCreated(VaultCreated { version: vs[0]->U16_0, vault: vs[1]->Key_0, namespace_authority: vs[2]->Key_0, authority: vs[3]->Key_0, guardian: vs[4]->Key_0, vault_id: vs[5]->U64_0 }),
            EventKind::VaultAuthorityUpdated => IronVaultEvent::VaultAuthorityUpdated(VaultAuthorityUpdated { version: vs[0]->U16_0, vault: vs[1]->Key_0, previous_authority: vs[2]->Key_0, new_authority: vs[3]->Key_0 }),
            EventKind::VaultPauseUpdated => IronVaultEvent::VaultPauseUpdated(VaultPauseUpdated { version: vs[0]->U16_0, vault: vs[1]->Key_0, caller: vs[2]->Key_0, paused: vs[3]->Bool_0 }),
            EventKind::VaultAssetRegistered => IronVaultEvent::VaultAssetRegistered(VaultAssetRegistered { version: vs[0]->U16_0, vault: vs[1]->Key_0, vault_asset: vs[2]->Key_0, vault_token: vs[3]->Key_0, mint: vs[4]->Key_0, token_program: vs[5]->Key_0 }),
            EventKind::VaultDeposit => IronVaultEvent::VaultDeposit(VaultDeposit { version: vs[0]->U16_0, vault: vs[1]->Key_0, vault_asset: vs[2]->Key_0, vault_token: vs[3]->Key_0, depositor: vs[4]->Key_0, source_token: vs[5]->Key_0, mint: vs[6]->Key_0, amount: vs[7]->U64_0 }),
            EventKind::VaultWithdrawal => IronVaultEvent::VaultWithdrawal(VaultWithdrawal { version: vs[0]->U16_0, vault: vs[1]->Key_0, vault_asset: vs[2]->Key_0, vault_token: vs[3]->Key_0, caller: vs[4]->Key_0, destination_token: vs[5]->Key_0, mint: vs[6]->Key_0, amount: vs[7]->U64_0 }),
            EventKind::RoleGranted => IronVaultEvent::RoleGranted(RoleGranted { version: vs[0]->U16_0, vault: vs[1]->Key_0, principal: vs[2]->Key_0, permissions: vs[3]->U64_0 }),
            EventKind::RoleRevoked => IronVaultEvent::RoleRevoked(RoleRevoked { version: vs[0]->U16_0, vault: vs[1]->Key_0, principal: vs[2]->Key_0, previous_permissions: vs[3]->U64_0 }),
            EventKind::VaultLimitsUpdated => IronVaultEvent::VaultLimitsUpdated(VaultLimitsUpdated { version: vs[0]->U16_0, vault: vs[1]->Key_0, vault_asset: vs[2]->Key_0, mint: vs[3]->Key_0, caller: vs[4]->Key_0, max_per_transaction: vs[5]->U64_0, window_limit: vs[6]->U64_0, window_seconds: vs[7]->I64_0, timelock_threshold: vs[8]->U64_0, timelock_seconds: vs[9]->I64_0, request_execution_window_seconds: vs[10]->I64_0, window_started_at: vs[11]->I64_0, window_spent: vs[12]->U64_0 }),
            EventKind::WithdrawalRequested => IronVaultEvent::WithdrawalRequested(WithdrawalRequested { version: vs[0]->U16_0, vault: vs[1]->Key_0, vault_asset: vs[2]->Key_0, withdrawal_request: vs[3]->Key_0, proposer: vs[4]->Key_0, recipient_owner: vs[5]->Key_0, recipient_token_account: vs[6]->Key_0, mint: vs[7]->Key_0, withdrawal_id: vs[8]->U64_0, amount: vs[9]->U64_0, created_at: vs[10]->I64_0, execute_after: vs[11]->I64_0, expires_at: vs[12]->I64_0 }),
            EventKind::WithdrawalExecuted => IronVaultEvent::WithdrawalExecuted(WithdrawalExecuted { version: vs[0]->U16_0, vault: vs[1]->Key_0, vault_asset: vs[2]->Key_0, withdrawal_request: vs[3]->Key_0, caller: vs[4]->Key_0, recipient_token_account: vs[5]->Key_0, mint: vs[6]->Key_0, withdrawal_id: vs[7]->U64_0, amount: vs[8]->U64_0 }),
            EventKind::WithdrawalCancelled => IronVaultEvent::WithdrawalCancelled(WithdrawalCancelled { version: vs[0]->U16_0, vault: vs[1]->Key_0, withdrawal_request: vs[2]->Key_0, caller: vs[3]->Key_0, proposer: vs[4]->Key_0, withdrawal_id: vs[5]->U64_0 }),
        }
    }

    /// Builds the event of kind `kind` from field values of its layout.
    pub fn from_fields(kind: EventKind, vs: &Vec<FieldValue>) -> (event: IronVaultEvent)
        requires
            kinds_of(vs@) == kind.spec_layout(),
        ensures
            event == IronVaultEvent::spec_from_fields(kind, vs@),
    {
        proof {
            assert(vs@.len() == kind.spec_layout().len());
            assert forall|i: int| 0 <= i < vs@.len() implies kind_of(vs@[i]) == kind.spec_layout()[i] by {
                assert(kinds_of(vs@)[i] == kind_of(vs@[i]));
            }
        }
        match kind {
            EventKind::ProtocolInitialized => IronVaultEvent::ProtocolInitialized(ProtocolInitialized { version: u16_field(vs, 0), protocol_config: key_field(vs, 1), admin: key_field(vs, 2), guardian: key_field(vs, 3) }),
            EventKind::ProtocolPauseUpdated => IronVaultEvent::ProtocolPauseUpdated(ProtocolPauseUpdated { version: u16_field(vs, 0), protocol_config: key_field(vs, 1), caller: key_field(vs, 2), previous_flags: u32_field(vs, 3), new_flags: u32_field(vs, 4) }),
            EventKind::EscrowCreated => IronVaultEvent::EscrowCreated(EscrowCreated { version: u16_field(vs, 0), escrow: key_field(vs, 1), escrow_token: key_field(vs, 2), maker: key_field(vs, 3), recipient: key_field(vs, 4), mint: key_field(vs, 5), amount: u64_field(vs, 6), created_at: i64_field(vs, 7), expires_at: i64_field(vs, 8), escrow_id: u64_field(vs, 9) }),
            EventKind::EscrowReleased => IronVaultEvent::EscrowReleased(EscrowReleased { version: u16_field(vs, 0), escrow: key_field(vs, 1), escrow_token: key_field(vs, 2), maker: key_field(vs, 3), recipient: key_field(vs, 4), recipient_token: key_field(vs, 5), mint: key_field(vs, 6), amount: u64_field(vs, 7) }),
            EventKind::EscrowRefunded => IronVaultEvent::EscrowRefunded(EscrowRefunded { version: u16_field(vs, 0), escrow: key_field(vs, 1), escrow_token: key_field(vs, 2), caller: key_field(vs, 3), maker: key_field(vs, 4), maker_destination: key_field(vs, 5), mint: key_field(vs, 6), amount: u64_field(vs, 7) }),
            EventKind::VaultCreated => IronVaultEvent::VaultCreated(VaultCreated { version: u16_field(vs, 0), vault: key_field(vs, 1), namespace_authority: key_field(vs, 2), authority: key_field(vs, 3), guardian: key_field(vs, 4), vault_id: u64_field(vs, 5) }),
            EventKind::VaultAuthorityUpdated => IronVaultEvent::VaultAuthorityUpdated(VaultAuthorityUpdated { version: u16_field(vs, 0), vault: key_field(vs, 1), previous_authority: key_field(vs, 2), new_authority: key_field(vs, 3) }),
            EventKind::VaultPauseUpdated => IronVaultEvent::VaultPauseUpdated(VaultPauseUpdated { version: u16_field(vs, 0), vault: key_field(vs, 1), caller: key_field(vs, 2), paused: bool_field(vs, 3) }),
            EventKind::VaultAssetRegistered => IronVaultEvent::VaultAssetRegistered(VaultAssetRegistered { version: u16_field(vs, 0), vault: key_field(vs, 1), vault_asset: key_field(vs, 2), vault_token: key_field(vs, 3), mint: key_field(vs, 4), token_program: key_field(vs, 5) }),
            EventKind::VaultDeposit => IronVaultEvent::VaultDeposit(VaultDeposit { version: u16_field(vs, 0), vault: key_field(vs, 1), vault_asset: key_field(vs, 2), vault_token: key_field(vs, 3), depositor: key_field(vs, 4), source_token: key_field(vs, 5), mint: key_field(vs, 6), amount: u64_field(vs, 7) }),
            EventKind::VaultWithdrawal => IronVaultEvent::VaultWithdrawal(VaultWithdrawal { version: u16_field(vs, 0), vault: key_field(vs, 1), vault_asset: key_field(vs, 2), vault_token: key_field(vs, 3), caller: key_field(vs, 4), destination_token: key_field(vs, 5), mint: key_field(vs, 6), amount: u64_field(vs, 7) }),
            EventKind::RoleGranted => IronVaultEvent::RoleGranted(RoleGranted { version: u16_field(vs, 0), vault: key_field(vs, 1), principal: key_field(vs, 2), permissions: u64_field(vs, 3) }),
            EventKind::RoleRevoked => IronVaultEvent::RoleRevoked(RoleRevoked { version: u16_field(vs, 0), vault: key_field(vs, 1), principal: key_field(vs, 2), previous_permissions: u64_field(vs, 3) }),
            EventKind::VaultLimitsUpdated => IronVaultEvent::VaultLimitsUpdated(VaultLimitsUpdated { version: u16_field(vs, 0), vault: key_field(vs, 1), vault_asset: key_field(vs, 2), mint: key_field(vs, 3), caller: key_field(vs, 4), max_per_transaction: u64_field(vs, 5), window_limit: u64_field(vs, 6), window_seconds: i64_field(vs, 7), timelock_threshold: u64_field(vs, 8), timelock_seconds: i64_field(vs, 9), request_execution_window_seconds: i64_field(vs, 10), window_started_at: i64_field(vs, 11), window_spent: u64_field(vs, 12) }),
            EventKind::WithdrawalRequested => IronVaultEvent::WithdrawalRequested(WithdrawalRequested { version: u16_field(vs, 0), vault: key_field(vs, 1), vault_asset: key_field(vs, 2), withdrawal_request: key_field(vs, 3), proposer: key_field(vs, 4), recipient_owner: key_field(vs, 5), recipient_token_account: key_field(vs, 6), mint: key_field(vs, 7), withdrawal_id: u64_field(vs, 8), amount: u64_field(vs, 9), created_at: i64_field(vs, 10), execute_after: i64_field(vs, 11), expires_at: i64_field(vs, 12) }),
            EventKind::WithdrawalExecuted => IronVaultEvent::WithdrawalExecuted(WithdrawalExecuted { version: u16_field(vs, 0), vault: key_field(vs, 1), vault_asset: key_field(vs, 2), withdrawal_request: key_field(vs, 3), caller: key_field(vs, 4), recipient_token_account: key_field(vs, 5), mint: key_field(vs, 6), withdrawal_id: u64_field(vs, 7), amount: u64_field(vs, 8) }),
            EventKind::WithdrawalCancelled => IronVaultEvent::WithdrawalCancelled(WithdrawalCancelled { version: u16_field(vs, 0), vault: key_field(vs, 1), withdrawal_request: key_field(vs, 2), caller: key_field(vs, 3), proposer: key_field(vs, 4), withdrawal_id: u64_field(vs, 5) }),
        }
    }
}

fn key_field(vs: &Vec<FieldValue>, i: usize) -> (x: Pubkey)
    requires
        i < vs@.len(),
        kind_of(vs@[i as int]) == FieldKind::Key,
    ensures
        x == vs@[i as int]->Key_0,
{
    match vs[i] {
        FieldValue::Key(x) => x,
        _ => {
            proof {
                assert(false);
            }
            Pubkey::new_from_array(vs_default_key())
        },
    }
}

fn u16_field(vs: &Vec<FieldValue>, i: usize) -> (x: u16)
    requires
        i < vs@.len(),
        kind_of(vs@[i as int]) == FieldKind::U16,
    ensures
        x == vs@[i as int]->U16_0,
{
    match vs[i] {
        FieldValue::U16(x) => x,
        _ => {
            proof {
                assert(false);
            }
            0
        },
    }
}

fn u32_field(vs: &Vec<FieldValue>, i: usize) -> (x: u32)
    requires
        i < vs@.len(),
        kind_of(vs@[i as int]) == FieldKind::U32,
    ensures
        x == vs@[i as int]->U32_0,
{
    match vs[i] {
        FieldValue::U32(x) => x,
        _ => {
            proof {
                assert(false);
            }
            0
        },
    }
}

fn u64_field(vs: &Vec<FieldValue>, i: usize) -> (x: u64)
    requires
        i < vs@.len(),
        kind_of(vs@[i as int]) == FieldKind::U64,
    ensures
        x == vs@[i as int]->U64_0,
{
    match vs[i] {
        FieldValue::U64(x) => x,
        _ => {
            proof {
                assert(false);
            }
            0
        },
    }
}

fn i64_field(vs: &Vec<FieldValue>, i: usize) -> (x: i64)
    requires
        i < vs@.len(),
        kind_of(vs@[i as int]) == FieldKind::I64,
    ensures
        x == vs@[i as int]->I64_0,
{
    match vs[i] {
        FieldValue::I64(x) => x,
        _ => {
            proof {
                assert(false);
            }
            0
        },
    }
}

fn bool_field(vs: &Vec<FieldValue>, i: usize) -> (x: bool)
    requires
        i < vs@.len(),
        kind_of(vs@[i as int]) == FieldKind::Bool,
    ensures
        x == vs@[i as int]->Bool_0,
{
    match vs[i] {
        FieldValue::Bool(x) => x,
        _ => {
            proof {
                assert(false);
            }
            false
        },
    }
}

fn vs_default_key() -> (k: [u8; 32])
    ensures
        k@ == Seq::new(32, |i: int| 0u8),
{
    let k: [u8; 32] = [
        0u8, 0, 0, 0, 0, 0, 0, 0, 0, 0, 0, 0, 0, 0, 0, 0, 0, 0, 0, 0, 0, 0, 0, 0, 0, 0, 0, 0, 0, 0,
        0, 0,
    ];
    assert(k@ =~= Seq::new(32, |i: int| 0u8));
    k
}

/// The fields of an event have the kinds of its layout, and rebuilding the
/// event from them gives the event back.
pub proof fn lemma_event_fields(e: IronVaultEvent)
    ensures
        kinds_of(e.spec_fields()) == e.kind().spec_layout(),
        IronVaultEvent::spec_from_fields(e.kind(), e.spec_fields()) == e,
{
    assert(kinds_of(e.spec_fields()) =~= e.kind().spec_layout());
}

/// Field values of an event's layout rebuild an event of that kind whose
/// fields are those values.
pub proof fn lemma_fields_event(kind: EventKind, vs: Seq<FieldValue>)
    requires
        kinds_of(vs) == kind.spec_layout(),
    ensures
        IronVaultEvent::spec_from_fields(kind, vs).kind() == kind,
        IronVaultEvent::spec_from_fields(kind, vs).spec_fields() == vs,
{
    assert(vs.len() == kind.spec_layout().len());
    assert forall|i: int| 0 <= i < vs.len() implies kind_of(vs[i]) == kind.spec_layout()[i] by {
        assert(kinds_of(vs)[i] == kind_of(vs[i]));
    }
    assert(IronVaultEvent::spec_from_fields(kind, vs).spec_fields() =~= vs);
}

/// Why event bytes could not be decoded.
#[derive(Clone, Copy, Debug, PartialEq, Eq, Structural)]
pub enum DecodeError {
    /// Fewer than ten bytes: no room for discriminator and version.
    PayloadTooShort,
    /// The first eight bytes match no event's discriminator.
    UnknownDiscriminator,
    /// The payload after the discriminator is not exactly an event of this kind.
    InvalidPayload(EventKind),
    /// A program-data log line did not hold valid Base64.
    InvalidBase64,
    /// A program-data log line held no event.
    MissingEvent,
}

/// The bytes of an emitted event: its discriminator, then its fields.
pub open spec fn spec_encode_event(e: IronVaultEvent) -> Seq<u8> {
    spec_event_discriminator(e.kind().spec_name()) + encode_fields(e.spec_fields())
}

/// The first kind, from position `from` of the decoding order on, whose
/// discriminator is `tag`.
pub open spec fn first_kind_with_tag(tag: Seq<u8>, from: nat) -> Option<EventKind>
    decreases 17 - from,
{
    if from >= 17 {
        None
    } else if spec_event_discriminator(EventKind::spec_from_index(from).spec_name()) == tag {
        Some(EventKind::spec_from_index(from))
    } else {
        first_kind_with_tag(tag, from + 1)
    }
}

/// What decoding `bytes` gives: at least ten bytes, a known discriminator (the
/// first kind in decoding order that has it), and a payload that is exactly one
/// event of that kind.
pub open spec fn spec_decode_event(bytes: Seq<u8>) -> Result<IronVaultEvent, DecodeError> {
    if bytes.len() < 10 {
        Err(DecodeError::PayloadTooShort)
    } else {
        match first_kind_with_tag(bytes.subrange(0, 8), 0) {
            None => Err(DecodeError::UnknownDiscriminator),
            Some(kind) => match decode_from(kind.spec_layout(), bytes, 8) {
                None => Err(DecodeError::InvalidPayload(kind)),
                Some(vs) => Ok(IronVaultEvent::spec_from_fields(kind, vs)),
            },
        }
    }
}

impl IronVaultEvent {
    /// The bytes with which the program emits this event.
    pub fn encode(&self) -> (bytes: Vec<u8>)
        ensures
            bytes@ == spec_encode_event(*self),
    {
        let kind = self.event_kind();
        let disc = discriminator(kind.name());
        let mut bytes: Vec<u8> = Vec::new();
        crate::codec::push_bytes(&mut bytes, disc.as_slice());
        let fields = self.fields();
        push_fields(&mut bytes, &fields);
        bytes
    }

    /// The kind of this event.
    pub fn event_kind(&self) -> (kind: EventKind)
        ensures
            kind == self.kind(),
    {
        match self {

            IronVaultEvent::ProtocolInitialized(_) => EventKind::ProtocolInitialized,
            IronVaultEvent::ProtocolPauseUpdated(_) => EventKind::ProtocolPauseUpdated,
            IronVaultEvent::EscrowCreated(_) => EventKind::EscrowCreated,
            IronVaultEvent::EscrowReleased(_) => EventKind::EscrowReleased,
            IronVaultEvent::EscrowRefunded(_) => EventKind::EscrowRefunded,
            IronVaultEvent::VaultCreated(_) => EventKind::VaultCreated,
            IronVaultEvent::VaultAuthorityUpdated(_) => EventKind::VaultAuthorityUpdated,
            IronVaultEvent::VaultPauseUpdated(_) => EventKind::VaultPauseUpdated,
            IronVaultEvent::VaultAssetRegistered(_) => EventKind::VaultAssetRegistered,
            IronVaultEvent::VaultDeposit(_) => EventKind::VaultDeposit,
            IronVaultEvent::VaultWithdrawal(_) => EventKind::VaultWithdrawal,
            IronVaultEvent::RoleGranted(_) => EventKind::RoleGranted,
            IronVaultEvent::RoleRevoked(_) => EventKind::RoleRevoked,
            IronVaultEvent::VaultLimitsUpdated(_) => EventKind::VaultLimitsUpdated,
            IronVaultEvent::WithdrawalRequested(_) => EventKind::WithdrawalRequested,
            IronVaultEvent::WithdrawalExecuted(_) => EventKind::WithdrawalExecuted,
            IronVaultEvent::WithdrawalCancelled(_) => EventKind::WithdrawalCancelled,
        }
    }

    /// Decodes emitted event bytes; trailing bytes are refused.
    pub fn decode(bytes: &[u8]) -> (event: Result<IronVaultEvent, DecodeError>)
        ensures
            event == spec_decode_event(bytes@),
    {
        if bytes.len() < 10 {
            return Err(DecodeError::PayloadTooShort);
        }
        let ghost tag = bytes@.subrange(0, 8);
        let mut i: usize = 0;
        while i < 17
            invariant
                i <= 17,
                bytes@.len() >= 10,
                tag == bytes@.subrange(0, 8),
                first_kind_with_tag(tag, 0) == first_kind_with_tag(tag, i as nat),
            decreases 17 - i,
        {
            let kind = EventKind::from_index(i);
            let disc = discriminator(kind.name());
            let mut same = true;
            let mut j: usize = 0;
            while j < 8
                invariant
                    j <= 8,
                    bytes@.len() >= 10,
                    same == (forall|m: int| 0 <= m < j ==> bytes@[m] == disc@[m]),
                decreases 8 - j,
            {
                if bytes[j] != disc[j] {
                    same = false;
                }
                j = j + 1;
            }
            if same {
                assert(disc@ =~= tag);
                let layout = kind.layout();
                return match read_fields(&layout, bytes, 8) {
                    None => Err(DecodeError::InvalidPayload(kind)),
                    Some(vs) => {
                        proof {
                            lemma_fields_bytes(kind.spec_layout(), bytes@, 8);
                        }
                        Ok(IronVaultEvent::from_fields(kind, &vs))
                    },
                };
            } else {
                assert(disc@ != tag) by {
                    let m = choose|m: int| 0 <= m < 8 && bytes@[m] != disc@[m];
                    assert(tag[m] != disc@[m]);
                }
            }
            i = i + 1;
        }
        Err(DecodeError::UnknownDiscriminator)
    }
}

/// No kind before `kind` in the decoding order shares its discriminator.
pub open spec fn tag_is_first(kind: EventKind) -> bool {
    forall|i: nat|
        i < kind.index() ==> spec_event_discriminator(EventKind::spec_from_index(i).spec_name())
            != spec_event_discriminator(kind.spec_name())
}

proof fn lemma_first_kind(kind: EventKind, from: nat)
    requires
        from <= kind.index(),
        tag_is_first(kind),
    ensures
        first_kind_with_tag(spec_event_discriminator(kind.spec_name()), from) == Some(kind),
    decreases kind.index() - from,
{
    if from < kind.index() {
        lemma_first_kind(kind, from + 1);
    } else {
        assert(EventKind::spec_from_index(from) == kind);
    }
}

/// Law: the observer decodes exactly the event that the program emitted,
/// provided that no kind tried earlier carries the same discriminator (the
/// discriminators are SHA-256 prefixes of distinct names).
pub proof fn lemma_event_roundtrip(e: IronVaultEvent)
    requires
        tag_is_first(e.kind()),
    ensures
        spec_decode_event(spec_encode_event(e)) == Ok::<IronVaultEvent, DecodeError>(e),
{
    let bytes = spec_encode_event(e);
    let tag = spec_event_discriminator(e.kind().spec_name());
    assert(tag.len() == 8);
    lemma_event_fields(e);
    assert(bytes.subrange(0, 8) =~= tag);
    lemma_first_kind(e.kind(), 0);
    assert(bytes.subrange(8, bytes.len() as int) =~= encode_fields(e.spec_fields()));
    lemma_fields_roundtrip(e.spec_fields(), bytes, 8);
    assert(e.spec_fields()[0] is U16);
    assert(encode_fields(e.spec_fields()).len() >= 2) by {
        assert(encode_fields(e.spec_fields()) == encode_field(e.spec_fields()[0]) + encode_fields(
            e.spec_fields().drop_first(),
        ));
    }
}

/// Law: whatever the observer decodes is exactly the bytes the program emits
/// for that event, so a decoded event carries no extra or missing bytes.
pub proof fn lemma_decoded_event_is_exact(bytes: Seq<u8>)
    requires
        spec_decode_event(bytes) is Ok,
    ensures
        spec_encode_event(spec_decode_event(bytes)->Ok_0) == bytes,
{
    let kind = first_kind_with_tag(bytes.subrange(0, 8), 0)->0;
    lemma_first_kind_tag(bytes.subrange(0, 8), 0);
    let vs = decode_from(kind.spec_layout(), bytes, 8)->0;
    lemma_fields_bytes(kind.spec_layout(), bytes, 8);
    lemma_fields_event(kind, vs);
    assert(bytes =~= bytes.subrange(0, 8) + bytes.subrange(8, bytes.len() as int));
}

proof fn lemma_first_kind_tag(tag: Seq<u8>, from: nat)
    requires
        first_kind_with_tag(tag, from) is Some,
    ensures
        spec_event_discriminator(first_kind_with_tag(tag, from)->0.spec_name()) == tag,
    decreases 17 - from,
{
    if from < 17 && spec_event_discriminator(EventKind::spec_from_index(from).spec_name()) != tag {
        lemma_first_kind_tag(tag, from + 1);
    }
}

} // verus!

