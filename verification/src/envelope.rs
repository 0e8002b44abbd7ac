use vstd::prelude::*;

verus! {

/// A tagged union over two possible outputs.
#[derive(Debug, Clone, PartialEq, Eq)]
pub enum Either<L, R> {
    Left(L),
    Right(R),
}

/// The branch of a conditional that produced a value.
#[derive(Debug, Clone, Copy, PartialEq, Eq, Structural)]
pub enum ActiveBranch {
    Left,
    Right,
}

/// The view of an optional byte vector.
pub open spec fn opt_bytes_view(b: Option<Vec<u8>>) -> Option<Seq<u8>> {
    match b {
        Some(v) => Some(v@),
        None => None,
    }
}

/// A copy of `v`.
pub(crate) fn copy_bytes(v: &Vec<u8>) -> (out: Vec<u8>)
    ensures
        out@ == v@,
{
    vstd::slice::slice_to_vec(v.as_slice())
}

/// `128^e`.
pub open spec fn pow128(e: nat) -> nat
    decreases e,
{
    if e == 0 { 1 } else { 128 * pow128((e - 1) as nat) }
}

/// The variable-length encoding of `n`: seven bits per byte, least
/// significant group first, the high bit set on every byte but the last.
pub open spec fn varint_spec(n: nat) -> Seq<u8>
    decreases n,
{
    if n < 128 {
        seq![n as u8]
    } else {
        seq![(n % 128 + 128) as u8] + varint_spec(n / 128)
    }
}

/// Reads a variable-length integer from the front of `bytes`, as the
/// `i`-th byte of one that may span at most `max` bytes and whose byte at
/// position `max - 1`, if reached, must not exceed `last_max`. Gives the
/// value and the number of bytes read.
pub open spec fn varint_decode(bytes: Seq<u8>, i: nat, max: nat, last_max: nat) -> Option<(nat, nat)>
    decreases bytes.len(),
{
    if i >= max || bytes.len() == 0 {
        None
    } else if bytes[0] < 128 {
        if i + 1 == max && bytes[0] > last_max {
            None
        } else {
            Some((bytes[0] as nat, 1nat))
        }
    } else {
        match varint_decode(bytes.skip(1), i + 1, max, last_max) {
            Some((v, c)) => Some((((bytes[0] - 128) + 128 * v) as nat, c + 1)),
            None => None,
        }
    }
}

pub open spec fn branch_tag(branch: ActiveBranch) -> nat {
    match branch {
        ActiveBranch::Left => 0,
        ActiveBranch::Right => 1,
    }
}

/// The bytes of an envelope holding `payload` on side `branch`: the side's
/// tag, the payload's length, then the payload, each number as a
/// variable-length integer.
pub open spec fn either_envelope_spec(branch: ActiveBranch, payload: Seq<u8>) -> Seq<u8> {
    varint_spec(branch_tag(branch)) + varint_spec(payload.len()) + payload
}

/// What the front of `bytes` holds as an envelope, trailing bytes ignored:
/// a tag of at most five bytes that must be 0 (left) or 1 (right), a length
/// of at most ten bytes, and that many payload bytes.
pub open spec fn either_decode_spec(bytes: Seq<u8>) -> Option<(ActiveBranch, Seq<u8>)> {
    match varint_decode(bytes, 0, 5, 15) {
        None => None,
        Some((tag, tc)) => if tag > 1 {
            None
        } else {
            match varint_decode(bytes.skip(tc as int), 0, 10, 1) {
                None => None,
                Some((len, lc)) => if tc + lc + len > bytes.len() {
                    None
                } else {
                    Some((
                        if tag == 0 { ActiveBranch::Left } else { ActiveBranch::Right },
                        bytes.subrange((tc + lc) as int, (tc + lc + len) as int),
                    ))
                },
            }
        },
    }
}

pub(crate) fn push_varint(out: &mut Vec<u8>, n: u64)
    ensures
        final(out)@ == old(out)@ + varint_spec(n as nat),
{
    let mut value = n;
    while value >= 128
        invariant
            old(out)@ + varint_spec(n as nat) == out@ + varint_spec(value as nat),
        decreases value,
    {
        let ghost before = out@;
        out.push((value % 128 + 128) as u8);
        proof {
            assert(varint_spec(value as nat) == seq![(value % 128 + 128) as u8] + varint_spec(value as nat / 128));
            assert(before + varint_spec(value as nat) =~= out@ + varint_spec(value as nat / 128));
        }
        value = value / 128;
    }
    let ghost before = out@;
    out.push(value as u8);
    proof {
        assert(before + varint_spec(value as nat) =~= out@);
    }
}

/// Wraps `emitted` in an envelope marking the conditional branch it came from.
pub fn encode_conditional_emitted(active_branch: ActiveBranch, emitted: Vec<u8>) -> (bytes: Vec<u8>)
    ensures
        bytes@ == either_envelope_spec(active_branch, emitted@),
{
    let mut out: Vec<u8> = Vec::new();
    let tag: u64 = match active_branch {
        ActiveBranch::Left => 0,
        ActiveBranch::Right => 1,
    };
    push_varint(&mut out, tag);
    push_varint(&mut out, emitted.len() as u64);
    let mut payload = emitted;
    let ghost p = payload@;
    out.append(&mut payload);
    proof {
        assert(out@ =~= Seq::<u8>::empty() + varint_spec(branch_tag(active_branch)) + varint_spec(p.len()) + p);
    }
    out
}

pub(crate) proof fn lemma_varint_decode_bound(bytes: Seq<u8>, i: nat, max: nat, last_max: nat)
    requires
        last_max < 128,
    ensures
        match varint_decode(bytes, i, max, last_max) {
            Some((v, c)) => i < max && v < pow128((max - 1 - i) as nat) * (last_max + 1) && 1 <= c <= bytes.len(),
            None => true,
        },
    decreases bytes.len(),
{
    if i >= max || bytes.len() == 0 {
    } else if bytes[0] < 128 {
        assert(pow128(0) == 1);
        if i + 1 == max {
            let e0 = (max - 1 - i) as nat;
            assert(e0 == 0);
            assert(pow128(e0) == 1);
            assert(pow128(e0) * (last_max + 1) == last_max + 1) by (nonlinear_arith)
                requires
                    pow128(e0) == 1,
            ;
        }
        if i + 1 < max {
            lemma_pow128_at_least(((max - 1 - i) as nat));
            assert(pow128((max - 1 - i) as nat) >= 128);
            assert(pow128((max - 1 - i) as nat) * (last_max + 1) >= 128) by (nonlinear_arith)
                requires
                    pow128((max - 1 - i) as nat) >= 128,
                    last_max + 1 >= 1,
            ;
        }
    } else {
        lemma_varint_decode_bound(bytes.skip(1), i + 1, max, last_max);
        match varint_decode(bytes.skip(1), i + 1, max, last_max) {
            Some((v, c)) => {
                let e = (max - 1 - (i + 1)) as nat;
                assert(pow128((max - 1 - i) as nat) == 128 * pow128(e));
                let lo = (bytes[0] - 128) as int;
                assert(bytes.skip(1).len() == bytes.len() - 1);
                assert(lo + 128 * v < pow128((max - 1 - i) as nat) * (last_max + 1)) by (nonlinear_arith)
                    requires
                        0 <= lo < 128,
                        v < pow128(e) * (last_max + 1),
                        pow128((max - 1 - i) as nat) == 128 * pow128(e),
                ;
            },
            None => {},
        }
    }
}

pub(crate) proof fn lemma_pow128_nine()
    ensures
        pow128(4) == 268435456,
        pow128(9) == 9223372036854775808,
{
    assert(pow128(0) == 1);
    assert(pow128(1) == 128);
    assert(pow128(2) == 16384);
    assert(pow128(3) == 2097152);
    assert(pow128(4) == 268435456);
    assert(pow128(5) == 34359738368);
    assert(pow128(6) == 4398046511104);
    assert(pow128(7) == 562949953421312);
    assert(pow128(8) == 72057594037927936);
    assert(pow128(9) == 9223372036854775808);
}

proof fn lemma_pow128_at_least(e: nat)
    requires
        e >= 1,
    ensures
        pow128(e) >= 128,
    decreases e,
{
    if e > 1 {
        lemma_pow128_at_least((e - 1) as nat);
    }
    lemma_pow128_positive((e - 1) as nat);
}

proof fn lemma_pow128_positive(e: nat)
    ensures
        pow128(e) >= 1,
    decreases e,
{
    if e > 0 {
        lemma_pow128_positive((e - 1) as nat);
    }
}

/// Reads a variable-length integer starting at `pos`, as the `i`-th byte of one.
pub(crate) fn take_varint(bytes: &[u8], pos: usize, i: u64, max: u64, last_max: u8) -> (r: Option<(u64, usize)>)
    requires
        pos <= bytes@.len(),
        i <= max <= 10,
        last_max < 128,
        pow128((max - 1 - i) as nat) * (last_max + 1) <= u64::MAX + 1,
    ensures
        match varint_decode(bytes@.skip(pos as int), i as nat, max as nat, last_max as nat) {
            Some((v, c)) => r == Some((v as u64, c as usize)),
            None => r is None,
        },
    decreases max - i,
{
    proof {
        lemma_varint_decode_bound(bytes@.skip(pos as int), i as nat, max as nat, last_max as nat);
    }
    if i >= max || pos >= bytes.len() {
        return None;
    }
    let b = bytes[pos];
    if b < 128 {
        if i + 1 == max && b > last_max {
            None
        } else {
            Some((b as u64, 1))
        }
    } else {
        proof {
            assert(bytes@.skip(pos as int).skip(1) =~= bytes@.skip(pos as int + 1));
            if i + 1 < max {
                let e = (max - 1 - (i + 1)) as nat;
                assert(pow128((max - 1 - i) as nat) == 128 * pow128(e));
                assert(pow128(e) * (last_max + 1) <= u64::MAX + 1) by (nonlinear_arith)
                    requires
                        128 * pow128(e) * (last_max + 1) <= u64::MAX + 1,
                ;
            }
        }
        if i + 1 >= max {
            return None;
        }
        match take_varint(bytes, pos + 1, i + 1, max, last_max) {
            Some((v, c)) => {
                proof {
                    lemma_varint_decode_bound(bytes@.skip(pos as int + 1), (i + 1) as nat, max as nat, last_max as nat);
                    let e = (max - 1 - (i + 1)) as nat;
                    assert(pow128((max - 1 - i) as nat) == 128 * pow128(e));
                    assert((b - 128) + 128 * v < u64::MAX + 1) by (nonlinear_arith)
                        requires
                            0 <= b - 128 < 128,
                            v < pow128(e) * (last_max + 1),
                            128 * pow128(e) * (last_max + 1) <= u64::MAX + 1,
                    ;
                }
                Some(((b - 128) as u64 + 128 * v, c + 1))
            },
            None => None,
        }
    }
}

/// Reads the envelope at the front of `bytes`, if it holds one; trailing
/// bytes are ignored.
pub fn decode_either_envelope(bytes: &[u8]) -> (r: Option<(ActiveBranch, Vec<u8>)>)
    ensures
        match either_decode_spec(bytes@) {
            Some((branch, payload)) => match r {
                Some((b, p)) => b == branch && p@ == payload,
                None => false,
            },
            None => r is None,
        },
{
    proof {
        assert(bytes@.skip(0) =~= bytes@);
        lemma_pow128_nine();
    }
    proof {
        lemma_varint_decode_bound(bytes@, 0, 5, 15);
    }
    let (tag, tc) = match take_varint(bytes, 0, 0, 5, 15) {
        Some(t) => t,
        None => return None,
    };
    if tag > 1 {
        return None;
    }
    proof {
        lemma_varint_decode_bound(bytes@.skip(tc as int), 0, 10, 1);
        assert(bytes@.skip(tc as int).len() == bytes@.len() - tc);
    }
    let total = bytes.len();
    let second = take_varint(bytes, tc, 0, 10, 1);
    let (len, lc) = match second {
        Some(t) => t,
        None => return None,
    };
    proof {
        let d = varint_decode(bytes@.skip(tc as int), 0nat, 10nat, 1nat);
        assert(d is Some);
        let (sv, sc) = d->0;
        assert(second == Some((sv as u64, sc as usize)));
        assert(sc <= bytes@.len() - tc);
        assert(sc <= total);
        assert(lc as nat == sc);
    }
    let start = tc + lc;
    if len > (bytes.len() - start) as u64 {
        return None;
    }
    let end = start + len as usize;
    let mut payload: Vec<u8> = Vec::new();
    let mut k = start;
    while k < end
        invariant
            start <= k <= end <= bytes@.len(),
            payload@ == bytes@.subrange(start as int, k as int),
        decreases end - k,
    {
        payload.push(bytes[k]);
        proof {
            assert(bytes@.subrange(start as int, k as int + 1) =~= bytes@.subrange(start as int, k as int).push(bytes@[k as int]));
        }
        k = k + 1;
    }
    let branch = if tag == 0 { ActiveBranch::Left } else { ActiveBranch::Right };
    Some((branch, payload))
}

pub(crate) proof fn lemma_varint_roundtrip(n: nat, rest: Seq<u8>, i: nat, max: nat, last_max: nat)
    requires
        i < max,
        last_max < 128,
        n < pow128((max - 1 - i) as nat) * (last_max + 1),
    ensures
        varint_decode(varint_spec(n) + rest, i, max, last_max) == Some((n, varint_spec(n).len())),
    decreases n,
{
    let bytes = varint_spec(n) + rest;
    if n < 128 {
        assert(bytes[0] == n as u8);
        if i + 1 == max {
            assert(pow128(0) == 1);
            let e0 = (max - 1 - i) as nat;
            assert(e0 == 0);
            assert(pow128(e0) == 1);
            assert(pow128(e0) * (last_max + 1) == last_max + 1) by (nonlinear_arith)
                requires
                    pow128(e0) == 1,
            ;
        }
    } else {
        assert(bytes[0] == (n % 128 + 128) as u8);
        assert(bytes.skip(1) =~= varint_spec(n / 128) + rest);
        if i + 1 == max {
            assert(pow128(0) == 1);
            let e0 = (max - 1 - i) as nat;
            assert(e0 == 0);
            assert(pow128(e0) == 1);
            assert(pow128(e0) * (last_max + 1) == last_max + 1) by (nonlinear_arith)
                requires
                    pow128(e0) == 1,
            ;
            assert(false);
        }
        let e = (max - 1 - (i + 1)) as nat;
        assert(pow128((max - 1 - i) as nat) == 128 * pow128(e));
        assert(n / 128 < pow128(e) * (last_max + 1)) by (nonlinear_arith)
            requires
                n < 128 * pow128(e) * (last_max + 1),
        ;
        lemma_varint_roundtrip(n / 128, rest, i + 1, max, last_max);
    }
}

/// Reading back an envelope gives exactly the side and payload it was built
/// from, whatever bytes follow it.
pub proof fn lemma_envelope_roundtrip(branch: ActiveBranch, payload: Seq<u8>, rest: Seq<u8>)
    requires
        payload.len() <= u64::MAX,
    ensures
        either_decode_spec(either_envelope_spec(branch, payload) + rest) == Some((branch, payload)),
{
    let tag = branch_tag(branch);
    let t = varint_spec(tag);
    let l = varint_spec(payload.len());
    let bytes = either_envelope_spec(branch, payload) + rest;
    lemma_pow128_nine();
    assert(bytes =~= t + (l + payload + rest));
    assert(pow128(4) * 16 == 4294967296) by (nonlinear_arith)
        requires
            pow128(4) == 268435456,
    ;
    assert(pow128(9) * 2 == 18446744073709551616) by (nonlinear_arith)
        requires
            pow128(9) == 9223372036854775808,
    ;
    lemma_varint_roundtrip(tag, l + payload + rest, 0, 5, 15);
    assert(t.len() == 1);
    assert(bytes.skip(1) =~= l + (payload + rest));
    lemma_varint_roundtrip(payload.len(), payload + rest, 0, 10, 1);
    assert(bytes.subrange((1 + l.len()) as int, (1 + l.len() + payload.len()) as int) =~= payload);
}

} // verus!
