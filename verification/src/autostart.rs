use vstd::prelude::*;
use crate::text::{decode_utf16, decode_utf16_lossy, encode_utf16, utf16, utf16_char, lemma_decode_utf16_roundtrip, lemma_utf16_concat};

verus! {

/// Little-endian bytes of UTF-16 code units (`u16::to_le_bytes` on each).
pub open spec fn le_bytes(units: Seq<u16>) -> Seq<u8>
    decreases units.len(),
{
    if units.len() == 0 {
        seq![]
    } else {
        seq![(units[0] % 256) as u8, (units[0] / 256) as u8] + le_bytes(units.drop_first())
    }
}

/// The UTF-16 code units held by little-endian byte pairs (`u16::from_le_bytes`).
pub open spec fn le_units(bytes: Seq<u8>) -> Seq<u16> {
    Seq::new(bytes.len() / 2, |i: int| (bytes[2 * i] + 256 * bytes[2 * i + 1]) as u16)
}

/// The units before the first NUL unit (all of them where there is none).
pub open spec fn until_nul(units: Seq<u16>) -> Seq<u16>
    decreases units.len(),
{
    if units.len() == 0 || units[0] == 0 {
        seq![]
    } else {
        seq![units[0]] + until_nul(units.drop_first())
    }
}

/// The text that a Run-key value holds: its little-endian units up to the first NUL,
/// decoded lossily.
pub open spec fn stored_text(bytes: Seq<u8>) -> Seq<char> {
    decode_utf16_lossy(until_nul(le_units(bytes)))
}

/// The bytes written as the Run-key value for an executable path: its UTF-16 units
/// and a terminating NUL, each unit little-endian.
pub open spec fn run_value(exe: Seq<char>) -> Seq<u8> {
    le_bytes(utf16(exe).push(0u16))
}

/// What reading the autostart entry under the Run key gave.
pub enum RunValue {
    /// The Run key could not be opened.
    KeyUnavailable,
    /// The key has no value of that name.
    Missing,
    /// Querying the value's size failed.
    QueryFailed,
    /// The value is empty.
    Empty,
    /// Reading the value's data failed.
    ReadFailed,
    /// The value's data.
    Data(Vec<u8>),
}

/// Whether autostart is on, as the registry entry says: unknown where the key or
/// the value is absent, off where it cannot be read, and otherwise on exactly when
/// the stored text is the executable's path.
pub open spec fn autostart_spec(value: RunValue, exe: Seq<char>) -> Option<bool> {
    match value {
        RunValue::KeyUnavailable => None,
        RunValue::Missing => None,
        RunValue::QueryFailed => Some(false),
        RunValue::Empty => Some(false),
        RunValue::ReadFailed => Some(false),
        RunValue::Data(bytes) => Some(stored_text(bytes@) == exe),
    }
}

/// Decodes little-endian byte pairs into UTF-16 units, stopping at the first NUL.
pub fn stored_units(bytes: &Vec<u8>) -> (r: Vec<u16>)
    requires
        bytes@.len() % 2 == 0,
    ensures
        r@ == until_nul(le_units(bytes@)),
{
    let n = bytes.len() / 2;
    let ghost all = le_units(bytes@);
    assert(bytes@.len() == 2 * n);
    assert(bytes.len() <= usize::MAX);
    let mut out: Vec<u16> = Vec::new();
    let mut i: usize = 0;
    assert(all.subrange(0, n as int) =~= all);
    assert(out@ + all =~= all);
    while i < n
        invariant
            i <= n,
            n == bytes@.len() / 2,
            bytes@.len() == 2 * n,
            2 * n <= usize::MAX,
            bytes@.len() % 2 == 0,
            all == le_units(bytes@),
            out@ + until_nul(all.subrange(i as int, n as int)) == until_nul(all),
        decreases n - i,
    {
        let ghost tail = all.subrange(i as int, n as int);
        let lo = bytes[2 * i];
        let hi = bytes[2 * i + 1];
        let u: u16 = (lo as u16) + 256 * (hi as u16);
        assert(u == all[i as int]);
        assert(tail[0] == u);
        if u == 0 {
            assert(until_nul(tail) =~= Seq::<u16>::empty());
            assert(out@ + Seq::<u16>::empty() =~= out@);
            return out;
        }
        out.push(u);
        proof {
            assert(tail.drop_first() =~= all.subrange(i + 1, n as int));
            assert(out@ + until_nul(all.subrange(i + 1, n as int)) =~= until_nul(all));
        }
        i += 1;
    }
    assert(until_nul(all.subrange(n as int, n as int)) =~= Seq::<u16>::empty());
    assert(out@ + Seq::<u16>::empty() =~= out@);
    out
}

/// Whether autostart is on, from what the registry gave for the Run-key entry and
/// the path of the running executable.
pub fn autostart_state(value: RunValue, exe: &str) -> (r: Option<bool>)
    requires
        value matches RunValue::Data(bytes) ==> bytes@.len() % 2 == 0,
    ensures
        r == autostart_spec(value, exe@),
{
    match value {
        RunValue::KeyUnavailable => None,
        RunValue::Missing => None,
        RunValue::QueryFailed => Some(false),
        RunValue::Empty => Some(false),
        RunValue::ReadFailed => Some(false),
        RunValue::Data(bytes) => {
            let units = stored_units(&bytes);
            let stored = decode_utf16(&units);
            let exe_owned = String::from_str(exe);
            Some(stored == exe_owned)
        },
    }
}

/// The Run-key value that turns autostart on for an executable path.
pub fn run_value_bytes(exe: &str) -> (r: Vec<u8>)
    ensures
        r@ == run_value(exe@),
{
    let mut units = encode_utf16(exe);
    units.push(0);
    let n = units.len();
    let mut out: Vec<u8> = Vec::new();
    let mut i: usize = 0;
    assert(units@.subrange(0, n as int) =~= units@);
    while i < n
        invariant
            i <= n,
            n == units@.len(),
            out@ + le_bytes(units@.subrange(i as int, n as int)) == le_bytes(units@),
        decreases n - i,
    {
        let u = units[i];
        proof {
            let tail = units@.subrange(i as int, n as int);
            assert(tail.drop_first() =~= units@.subrange(i + 1, n as int));
        }
        out.push((u % 256) as u8);
        out.push((u / 256) as u8);
        proof {
            assert(out@ + le_bytes(units@.subrange(i + 1, n as int)) =~= le_bytes(units@));
        }
        i += 1;
    }
    assert(le_bytes(units@.subrange(n as int, n as int)) =~= Seq::<u8>::empty());
    assert(out@ + Seq::<u8>::empty() =~= out@);
    out
}

proof fn lemma_le_roundtrip(units: Seq<u16>)
    ensures
        le_bytes(units).len() == 2 * units.len(),
        le_units(le_bytes(units)) == units,
    decreases units.len(),
{
    if units.len() > 0 {
        lemma_le_roundtrip(units.drop_first());
        let b = le_bytes(units);
        assert forall|i: int| 0 <= i < units.len() implies
            (b[2 * i] + 256 * b[2 * i + 1]) as u16 == units[i] by {
            if i > 0 {
                let rb = le_bytes(units.drop_first());
                assert(b[2 * i] == rb[2 * (i - 1)]);
                assert(b[2 * i + 1] == rb[2 * (i - 1) + 1]);
                assert(le_units(rb)[i - 1] == units.drop_first()[i - 1]);
            }
        }
        assert(le_units(b) =~= units);
    }
}

proof fn lemma_until_nul_prefix(units: Seq<u16>)
    requires
        forall|i: int| 0 <= i < units.len() ==> units[i] != 0,
    ensures
        until_nul(units.push(0u16)) == units,
    decreases units.len(),
{
    if units.len() == 0 {
        assert(until_nul(seq![0u16]) =~= Seq::<u16>::empty());
        assert(units.push(0u16) =~= seq![0u16]);
    } else {
        assert(units.push(0u16).drop_first() =~= units.drop_first().push(0u16));
        lemma_until_nul_prefix(units.drop_first());
        assert(until_nul(units.push(0u16)) =~= units);
    }
}

proof fn lemma_utf16_no_nul(s: Seq<char>)
    requires
        forall|i: int| 0 <= i < s.len() ==> s[i] != '\0',
    ensures
        forall|i: int| 0 <= i < utf16(s).len() ==> utf16(s)[i] != 0,
    decreases s.len(),
{
    if s.len() > 0 {
        lemma_utf16_no_nul(s.drop_first());
        let c = s[0];
        vstd::utf8::char_is_scalar(c);
        if (c as u32) == 0 {
            vstd::utf8::char_u32_cast(c, 0u32);
        }
        assert(utf16(s) == utf16_char(c) + utf16(s.drop_first()));
        assert forall|i: int| 0 <= i < utf16(s).len() implies utf16(s)[i] != 0 by {
            if i >= utf16_char(c).len() {
                assert(utf16(s)[i] == utf16(s.drop_first())[i - utf16_char(c).len()]);
            }
        }
    }
}

/// Turning autostart on and reading the entry back: the value written for an
/// executable path (one without NUL characters) reads back as "on" for that path.
pub proof fn law_autostart_write_then_read(exe: Seq<char>, bytes: Vec<u8>)
    requires
        forall|i: int| 0 <= i < exe.len() ==> exe[i] != '\0',
        bytes@ == run_value(exe),
    ensures
        bytes@.len() % 2 == 0,
        autostart_spec(RunValue::Data(bytes), exe) == Some(true),
{
    let u = utf16(exe);
    lemma_le_roundtrip(u.push(0u16));
    lemma_utf16_no_nul(exe);
    lemma_until_nul_prefix(u);
    lemma_decode_utf16_roundtrip(exe);
}

} // verus!
