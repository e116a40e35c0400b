use crate::error::{Result, SamplingError};
use vstd::prelude::*;
use vstd::string::StringSliceAdditionalSpecFns;

verus! {

/// The unsigned integer that `b` spells, most significant byte first.
pub open spec fn be_value(b: Seq<u8>) -> nat
    decreases b.len(),
{
    if b.len() == 0 {
        0
    } else {
        be_value(b.drop_last()) * 256 + b.last() as nat
    }
}

/// `256` to the power `k`.
pub open spec fn pow256(k: nat) -> nat
    decreases k,
{
    if k == 0 {
        1
    } else {
        256 * pow256((k - 1) as nat)
    }
}

/// The `k` least significant bytes of `x`, most significant first.
pub open spec fn be_bytes(x: nat, k: nat) -> Seq<u8>
    decreases k,
{
    if k == 0 {
        Seq::empty()
    } else {
        be_bytes(x / 256, (k - 1) as nat).push((x % 256) as u8)
    }
}

/// The `k` least significant bytes of `x`, least significant first.
pub open spec fn le_bytes(x: nat, k: nat) -> Seq<u8>
    decreases k,
{
    if k == 0 {
        Seq::empty()
    } else {
        seq![(x % 256) as u8] + le_bytes(x / 256, (k - 1) as nat)
    }
}

/// The bytes of a point whose coordinates have the bit patterns `bits`: eight
/// bytes per coordinate, each little-endian, coordinates in order.
pub open spec fn point_bytes(bits: Seq<u64>) -> Seq<u8>
    decreases bits.len(),
{
    if bits.len() == 0 {
        Seq::empty()
    } else {
        point_bytes(bits.drop_last()) + le_bytes(bits.last() as nat, 8)
    }
}

/// The decimal digits of `n` in ASCII, most significant first.
pub open spec fn decimal(n: nat) -> Seq<u8>
    decreases n,
{
    if n < 10 {
        seq![(48 + n) as u8]
    } else {
        decimal(n / 10).push((48 + n % 10) as u8)
    }
}

/// The bytes of the acknowledgement line `OK`.
pub open spec fn ok_line() -> Seq<u8> {
    seq![79u8, 75u8, NEWLINE]
}

/// The bytes of the line `end` that tells the client to terminate.
pub open spec fn end_line() -> Seq<u8> {
    seq![101u8, 110u8, 100u8, NEWLINE]
}

/// The byte that ends every control message.
pub const NEWLINE: u8 = 10;

/// Number of bytes of the configuration a client sends on connecting: the
/// number of dimensions as a big-endian unsigned integer.
pub const BUFFER_CONFIG_SIZE: usize = 8;

proof fn lemma_be_value_bound(b: Seq<u8>)
    ensures
        be_value(b) < pow256(b.len()),
    decreases b.len(),
{
    if b.len() > 0 {
        lemma_be_value_bound(b.drop_last());
        let v = be_value(b.drop_last());
        let p = pow256(b.drop_last().len());
        let l = b.last() as nat;
        assert(v * 256 + l < p * 256) by (nonlinear_arith)
            requires
                v < p,
                l < 256,
        ;
    }
}

proof fn lemma_pow256_pos(k: nat)
    ensures
        pow256(k) > 0,
    decreases k,
{
    if k > 0 {
        lemma_pow256_pos((k - 1) as nat);
    }
}

proof fn lemma_be_bytes_value(x: nat, k: nat)
    ensures
        be_bytes(x, k).len() == k,
        be_value(be_bytes(x, k)) == x % pow256(k),
    decreases k,
{
    if k > 0 {
        lemma_be_bytes_value(x / 256, (k - 1) as nat);
        let b = be_bytes(x, k);
        assert(b.drop_last() =~= be_bytes(x / 256, (k - 1) as nat));
        lemma_pow256_pos((k - 1) as nat);
        vstd::arithmetic::div_mod::lemma_mod_breakdown(x as int, 256, pow256((k - 1) as nat) as int);
    } else {
        assert(x % 1 == 0);
    }
}

/// A client that announces its number of dimensions `m` as eight big-endian
/// bytes is accepted by a server of `n` dimensions exactly when `m == n`:
/// the handshake reads back the number that was sent.
pub proof fn handshake_reads_announced_dimensions(n: u64, m: u64)
    ensures
        be_bytes(m as nat, 8).len() == 8,
        be_value(be_bytes(m as nat, 8)) == m,
        (be_value(be_bytes(m as nat, 8)) == n) <==> (m == n),
{
    lemma_be_bytes_value(m as nat, 8);
    assert(pow256(8) == 0x1_0000_0000_0000_0000) by {
        reveal_with_fuel(pow256, 9);
    }
    vstd::arithmetic::div_mod::lemma_small_mod(m as nat, pow256(8));
}

/// Reads the number of dimensions that a client announces: the eight
/// configuration bytes as a big-endian unsigned integer.
pub fn decode_config(buf: &[u8]) -> (n: u64)
    requires
        buf@.len() == BUFFER_CONFIG_SIZE,
    ensures
        n == be_value(buf@),
{
    let mut acc: u64 = 0;
    let mut i: usize = 0;
    while i < 8
        invariant
            buf@.len() == 8,
            i <= 8,
            acc == be_value(buf@.subrange(0, i as int)),
        decreases 8 - i,
    {
        proof {
            lemma_be_value_bound(buf@.subrange(0, i as int));
            assert(pow256(i as nat) <= pow256(7)) by {
                lemma_pow256_mono(i as nat, 7);
            }
            assert(pow256(7) == 0x100000000000000) by {
                reveal_with_fuel(pow256, 8);
            }
            assert(buf@.subrange(0, i + 1).drop_last() =~= buf@.subrange(0, i as int));
        }
        acc = acc * 256 + buf[i] as u64;
        i += 1;
    }
    proof {
        assert(buf@.subrange(0, 8) =~= buf@);
    }
    acc
}

proof fn lemma_pow256_mono(a: nat, b: nat)
    requires
        a <= b,
    ensures
        pow256(a) <= pow256(b),
    decreases b,
{
    if a < b {
        lemma_pow256_mono(a, (b - 1) as nat);
    }
}

/// The ASCII decimal digits of `n`.
pub fn decimal_bytes(n: u64) -> (r: Vec<u8>)
    ensures
        r@ == decimal(n as nat),
    decreases n,
{
    if n < 10 {
        let mut r: Vec<u8> = Vec::new();
        r.push((48 + n) as u8);
        proof {
            assert(r@ =~= decimal(n as nat));
        }
        r
    } else {
        let mut r = decimal_bytes(n / 10);
        r.push((48 + n % 10) as u8);
        r
    }
}

/// The server's answer to a client's configuration, given the number of
/// dimensions `expected` that the server works in. `Ok` holds the line that
/// accepts the session (`OK`); `Err` holds the line that rejects it (the
/// expected number of dimensions), after which the connection is closed.
pub fn handshake_reply(expected: u64, config: &[u8]) -> (r: core::result::Result<Vec<u8>, Vec<u8>>)
    requires
        config@.len() == BUFFER_CONFIG_SIZE,
    ensures
        be_value(config@) == expected ==> (r matches Ok(line) && line@ == ok_line()),
        be_value(config@) != expected ==> (r matches Err(line) && line@ == decimal(
            expected as nat,
        ).push(NEWLINE)),
{
    let n = decode_config(config);
    if n == expected {
        let mut line: Vec<u8> = Vec::new();
        line.push(79u8);
        line.push(75u8);
        line.push(NEWLINE);
        proof {
            assert(line@ =~= ok_line());
        }
        Ok(line)
    } else {
        let mut line = decimal_bytes(expected);
        line.push(NEWLINE);
        Err(line)
    }
}

/// The line that tells the client to terminate (`end`).
pub fn end_message() -> (r: Vec<u8>)
    ensures
        r@ == end_line(),
{
    let mut line: Vec<u8> = Vec::new();
    line.push(101u8);
    line.push(110u8);
    line.push(100u8);
    line.push(NEWLINE);
    proof {
        assert(line@ =~= end_line());
    }
    line
}

/// Frames a control message for sending: its bytes followed by a newline. The
/// message itself holds no newline.
pub fn frame_message(msg: &str) -> (r: Vec<u8>)
    requires
        !msg.spec_bytes().contains(NEWLINE),
    ensures
        r@ == msg.spec_bytes().push(NEWLINE),
{
    let bytes = msg.as_bytes();
    let mut r: Vec<u8> = Vec::new();
    let mut i: usize = 0;
    while i < bytes.len()
        invariant
            bytes@ == msg.spec_bytes(),
            i <= bytes@.len(),
            r@ == bytes@.subrange(0, i as int),
        decreases bytes@.len() - i,
    {
        r.push(bytes[i]);
        i += 1;
        proof {
            assert(r@ =~= bytes@.subrange(0, i as int));
        }
    }
    r.push(NEWLINE);
    proof {
        assert(bytes@.subrange(0, i as int) =~= bytes@);
    }
    r
}

/// The request bytes of a point whose coordinates have the bit patterns `bits`:
/// each coordinate as eight little-endian bytes, in order.
pub fn encode_point(bits: &[u64]) -> (r: Vec<u8>)
    requires
        bits@.len() * 8 <= usize::MAX,
    ensures
        r@ == point_bytes(bits@),
        r@.len() == 8 * bits@.len(),
{
    let mut r: Vec<u8> = Vec::new();
    let mut i: usize = 0;
    while i < bits.len()
        invariant
            i <= bits@.len(),
            r@ == point_bytes(bits@.subrange(0, i as int)),
        decreases bits@.len() - i,
    {
        let x = bits[i];
        let mut y: u64 = x;
        let mut j: usize = 0;
        let ghost start = r@;
        while j < 8
            invariant
                j <= 8,
                start + le_bytes(x as nat, 8) == r@ + le_bytes(y as nat, (8 - j) as nat),
            decreases 8 - j,
        {
            let ghost rest = le_bytes(y as nat / 256, (8 - j - 1) as nat);
            proof {
                assert(le_bytes(y as nat, (8 - j) as nat) == seq![(y as nat % 256) as u8] + rest);
            }
            let ghost before = r@;
            r.push((y % 256) as u8);
            proof {
                assert(before + (seq![(y as nat % 256) as u8] + rest) =~= r@ + rest);
            }
            y = y / 256;
            j += 1;
        }
        proof {
            assert(r@ + le_bytes(y as nat, 0) =~= r@);
            assert(bits@.subrange(0, i + 1).drop_last() =~= bits@.subrange(0, i as int));
        }
        i += 1;
    }
    proof {
        assert(bits@.subrange(0, i as int) =~= bits@);
        lemma_point_bytes_len(bits@);
    }
    r
}

proof fn lemma_le_bytes_len(x: nat, k: nat)
    ensures
        le_bytes(x, k).len() == k,
    decreases k,
{
    if k > 0 {
        lemma_le_bytes_len(x / 256, (k - 1) as nat);
    }
}

proof fn lemma_point_bytes_len(bits: Seq<u64>)
    ensures
        point_bytes(bits).len() == 8 * bits.len(),
    decreases bits.len(),
{
    if bits.len() > 0 {
        lemma_point_bytes_len(bits.drop_last());
        lemma_le_bytes_len(bits.last() as nat, 8);
    }
}

/// Reads the one-byte answer of a remote classifier: `1` for the target class,
/// `0` for the other; any other byte breaks the protocol.
pub fn decode_class(byte: u8) -> (r: Result<bool>)
    ensures
        byte == 0 ==> r == Ok::<bool, SamplingError>(false),
        byte == 1 ==> r == Ok::<bool, SamplingError>(true),
        byte > 1 ==> r matches Err(SamplingError::InvalidClassifierResponse(_)),
{
    if byte > 1 {
        Err(SamplingError::InvalidClassifierResponse("Remote Classifier received non-bool response?".to_owned()))
    } else {
        Ok(byte == 1)
    }
}

/// The content of a received control line: the line without its surrounding
/// whitespace.
pub uninterp spec fn trimmed(s: Seq<char>) -> Seq<char>;

/// Relies on `str::trim`: the line without leading and trailing whitespace.
#[verifier::external_body]
fn trim_line(line: &str) -> (r: String)
    ensures
        r@ == trimmed(line@),
{
    line.trim().to_owned()
}

/// Reads a client message: `None` for the continue signal `CONT`, else the
/// message itself.
pub fn continue_or_message(msg: String) -> (r: Option<String>)
    ensures
        r is None <==> msg@ == "CONT"@,
        r is Some ==> r == Some(msg),
{
    let cont = "CONT".to_owned();
    if msg == cont {
        None
    } else {
        Some(msg)
    }
}

/// Reads a received control line: its trimmed content, or `None` where that
/// is the continue signal `CONT`.
pub fn parse_message(line: &str) -> (r: Option<String>)
    ensures
        r is None <==> trimmed(line@) == "CONT"@,
        r matches Some(m) ==> m@ == trimmed(line@),
{
    let msg = trim_line(line);
    continue_or_message(msg)
}

/// Reads a received line as a message: its trimmed content.
pub fn read_message(line: &str) -> (r: String)
    ensures
        r@ == trimmed(line@),
{
    trim_line(line)
}

} // verus!
