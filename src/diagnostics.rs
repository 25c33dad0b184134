//! The fixed message and the one-time dump of the radio's registers.
use vstd::prelude::*;
use vstd::string::is_ascii_spec_bytes;

verus! {

/// Number of registers read by the one-time dump.
pub const REGISTER_COUNT: usize = 79;

/// Byte that fills every register of the dump when the read fails.
pub const SENTINEL_FILL: u8 = 0xab;

/// The text sent on every transmission.
pub open spec fn message_text() -> Seq<char> {
    "Hello from me."@
}

/// The bytes of an ASCII text, one per character.
pub open spec fn ascii_bytes(s: Seq<char>) -> Seq<u8> {
    Seq::new(s.len(), |i: int| s[i] as u8)
}

/// The dump reported when the register read fails: every register holds the
/// fill byte.
pub open spec fn sentinel_registers() -> Seq<u8> {
    Seq::new(REGISTER_COUNT as nat, |i: int| SENTINEL_FILL)
}

/// The dump reported for the outcome `read` of the register read.
pub open spec fn snapshot_of<E>(read: Result<[u8; REGISTER_COUNT], E>) -> Seq<u8> {
    match read {
        Ok(regs) => regs@,
        Err(_) => sentinel_registers(),
    }
}

/// The text sent on every transmission.
pub fn message() -> (r: &'static str)
    ensures
        r@ == message_text(),
{
    proof {
        reveal_strlit("Hello from me.");
    }
    "Hello from me."
}

/// The bytes handed to the radio on every transmission.
pub fn message_bytes() -> (r: &'static [u8])
    ensures
        r@ == ascii_bytes(message_text()),
{
    let m = message();
    proof {
        reveal_strlit("Hello from me.");
        is_ascii_spec_bytes(m);
        assert(vstd::string::is_ascii(m));
    }
    m.as_bytes()
}

/// The dump in which every register holds the fill byte.
pub fn sentinel() -> (r: [u8; REGISTER_COUNT])
    ensures
        r@ == sentinel_registers(),
{
    let r = [SENTINEL_FILL; REGISTER_COUNT];
    assert(r@ =~= sentinel_registers());
    r
}

/// The dump to report: the registers read, or the sentinel if the read
/// failed. This is the one failure that is not fatal.
pub fn register_snapshot<E>(read: Result<[u8; REGISTER_COUNT], E>) -> (r: [u8; REGISTER_COUNT])
    ensures
        r@ == snapshot_of(read),
{
    match read {
        Ok(regs) => regs,
        Err(_) => sentinel(),
    }
}

/// A failed read always yields the same dump, in full: every one of its
/// registers holds the fill byte, never a part of it or another value.
pub proof fn lemma_failed_reads_agree<E>(a: E, b: E)
    ensures
        snapshot_of::<E>(Err(a)) == snapshot_of::<E>(Err(b)),
        snapshot_of::<E>(Err(a)).len() == REGISTER_COUNT,
        forall|i: int| 0 <= i < REGISTER_COUNT ==> #[trigger] snapshot_of::<E>(Err(a))[i] == SENTINEL_FILL,
{
}

} // verus!
