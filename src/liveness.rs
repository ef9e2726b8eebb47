use vstd::prelude::*;

verus! {

/// Why a liveness challenge failed.
#[derive(Debug, Clone, Copy, PartialEq, Eq, Structural)]
pub enum LivenessError {
    /// The reply is too short or does not start with the reply prefix.
    MalformedReply,
    /// The reply carries another nonce than the one sent.
    NonceMismatch,
    /// The reply does not carry the `connect` token.
    ConnectMismatch,
    /// No reply arrived within the timeout.
    TimedOut,
    /// The datagram could not be sent or received.
    SocketFailed,
}

/// What came of waiting for the reply to one challenge datagram.
#[derive(Debug, Clone)]
pub enum ChallengeOutcome {
    /// One datagram arrived; these are its bytes.
    Reply(Vec<u8>),
    TimedOut,
    SocketFailed,
}

/// Seconds to wait for a challenge reply.
pub const CHALLENGE_TIMEOUT_SECS: u64 = 2;

/// Shortest reply that is examined at all.
pub const MIN_REPLY_LEN: usize = 21;

/// Prefix of a challenge datagram.
pub open spec fn challenge_prefix() -> Seq<u8> {
    seq![0xFFu8, 0xFFu8, 0xFFu8, 0xFFu8, 0x48u8]
}

/// Prefix of a challenge reply.
pub open spec fn reply_prefix() -> Seq<u8> {
    seq![0xFFu8, 0xFFu8, 0xFFu8, 0xFFu8, 0x49u8]
}

/// The ASCII token `connect`.
pub open spec fn connect_token() -> Seq<u8> {
    seq![0x63u8, 0x6Fu8, 0x6Eu8, 0x6Eu8, 0x65u8, 0x63u8, 0x74u8]
}

/// ASCII code of an uppercase hexadecimal digit.
pub open spec fn hex_digit(d: nat) -> u8
    recommends
        d < 16,
{
    if d < 10 {
        (48 + d) as u8
    } else {
        (55 + d) as u8
    }
}

/// The last `k` hexadecimal digits of `n`, most significant first.
pub open spec fn hex_digits(n: nat, k: nat) -> Seq<u8>
    decreases k,
{
    if k == 0 {
        Seq::empty()
    } else {
        hex_digits(n / 16, (k - 1) as nat).push(hex_digit(n % 16))
    }
}

/// The nonce as text: `0x` and eight uppercase hexadecimal digits.
pub open spec fn nonce_text(nonce: u32) -> Seq<u8> {
    seq![0x30u8, 0x78u8] + hex_digits(nonce as nat, 8)
}

/// The challenge datagram for a nonce.
pub open spec fn challenge_packet(nonce: u32) -> Seq<u8> {
    challenge_prefix() + connect_token() + nonce_text(nonce) + seq![0u8]
}

/// `part` stands in `r` at offset `off`.
pub open spec fn bytes_at(r: Seq<u8>, off: int, part: Seq<u8>) -> bool {
    off + part.len() <= r.len() && r.subrange(off, off + part.len()) == part
}

/// How a reply to the challenge with `nonce` is judged. The prefix is checked
/// first, then the nonce at offset 16 and then `connect` at offset 9. The
/// nonce field ends at offset 26, so a shorter reply cannot carry it.
pub open spec fn reply_outcome(r: Seq<u8>, nonce: u32) -> Result<(), LivenessError> {
    if r.len() < MIN_REPLY_LEN || !bytes_at(r, 0, reply_prefix()) {
        Err(LivenessError::MalformedReply)
    } else if !bytes_at(r, 16, nonce_text(nonce)) {
        Err(LivenessError::NonceMismatch)
    } else if !bytes_at(r, 9, connect_token()) {
        Err(LivenessError::ConnectMismatch)
    } else {
        Ok(())
    }
}

/// How the wait for one reply is judged.
pub open spec fn verdict_of(nonce: u32, outcome: ChallengeOutcome) -> Result<(), LivenessError> {
    match outcome {
        ChallengeOutcome::Reply(r) => reply_outcome(r@, nonce),
        ChallengeOutcome::TimedOut => Err(LivenessError::TimedOut),
        ChallengeOutcome::SocketFailed => Err(LivenessError::SocketFailed),
    }
}

fn hex_digit_of(d: u32) -> (r: u8)
    requires
        d < 16,
    ensures
        r == hex_digit(d as nat),
{
    if d < 10 {
        (48 + d) as u8
    } else {
        (55 + d) as u8
    }
}

fn push_hex_digits(out: &mut Vec<u8>, n: u32, k: u32)
    ensures
        final(out)@ == old(out)@ + hex_digits(n as nat, k as nat),
    decreases k,
{
    if k > 0 {
        push_hex_digits(out, n / 16, k - 1);
        out.push(hex_digit_of(n % 16));
        proof {
            assert(hex_digits(n as nat, k as nat) == hex_digits((n / 16) as nat, (k - 1) as nat).push(
                hex_digit((n % 16) as nat),
            ));
        }
    } else {
        assert(hex_digits(n as nat, 0) =~= Seq::empty());
        assert(old(out)@ + Seq::<u8>::empty() =~= old(out)@);
    }
}

/// Renders the nonce as `0x` followed by eight uppercase hexadecimal digits.
pub fn render_nonce(nonce: u32) -> (r: Vec<u8>)
    ensures
        r@ == nonce_text(nonce),
{
    let mut out: Vec<u8> = vec![0x30u8, 0x78u8];
    push_hex_digits(&mut out, nonce, 8);
    out
}

/// Builds the challenge datagram: the challenge prefix, `connect`, the nonce
/// text and a terminating zero byte.
pub fn build_challenge_packet(nonce: u32) -> (r: Vec<u8>)
    ensures
        r@ == challenge_packet(nonce),
{
    let mut out: Vec<u8> = vec![0xFFu8, 0xFFu8, 0xFFu8, 0xFFu8, 0x48u8];
    let mut token: Vec<u8> = vec![0x63u8, 0x6Fu8, 0x6Eu8, 0x6Eu8, 0x65u8, 0x63u8, 0x74u8];
    out.append(&mut token);
    let mut text = render_nonce(nonce);
    out.append(&mut text);
    out.push(0u8);
    out
}

fn holds_at(r: &[u8], off: usize, part: &Vec<u8>) -> (b: bool)
    ensures
        b == bytes_at(r@, off as int, part@),
{
    if off > r.len() || part.len() > r.len() - off {
        return false;
    }
    let mut i: usize = 0;
    while i < part.len()
        invariant
            off + part@.len() <= r@.len() <= usize::MAX,
            i <= part@.len(),
            forall|j: int| 0 <= j < i ==> r@[off + j] == part@[j],
        decreases part@.len() - i,
    {
        if r[off + i] != part[i] {
            assert(r@.subrange(off as int, off + part@.len())[i as int] != part@[i as int]);
            return false;
        }
        i += 1;
    }
    assert(r@.subrange(off as int, off + part@.len()) =~= part@);
    true
}

/// Judges a reply to the challenge with `nonce`: it must be at least 21 bytes
/// long, start with `FF FF FF FF 49`, carry `connect` at offset 9 and the
/// nonce text at offset 16.
pub fn check_challenge_reply(reply: &[u8], nonce: u32) -> (r: Result<(), LivenessError>)
    ensures
        r == reply_outcome(reply@, nonce),
{
    let prefix: Vec<u8> = vec![0xFFu8, 0xFFu8, 0xFFu8, 0xFFu8, 0x49u8];
    if reply.len() < MIN_REPLY_LEN || !holds_at(reply, 0, &prefix) {
        return Err(LivenessError::MalformedReply);
    }
    let text = render_nonce(nonce);
    if !holds_at(reply, 16, &text) {
        return Err(LivenessError::NonceMismatch);
    }
    let token: Vec<u8> = vec![0x63u8, 0x6Fu8, 0x6Eu8, 0x6Eu8, 0x65u8, 0x63u8, 0x74u8];
    if !holds_at(reply, 9, &token) {
        return Err(LivenessError::ConnectMismatch);
    }
    Ok(())
}

/// Judges the wait for the one reply to a challenge: only a well-formed reply
/// that carries the nonce passes; a timeout or a socket failure is a rejection.
pub fn liveness_verdict(nonce: u32, outcome: &ChallengeOutcome) -> (r: Result<(), LivenessError>)
    ensures
        r == verdict_of(nonce, *outcome),
{
    match outcome {
        ChallengeOutcome::Reply(bytes) => check_challenge_reply(bytes.as_slice(), nonce),
        ChallengeOutcome::TimedOut => Err(LivenessError::TimedOut),
        ChallengeOutcome::SocketFailed => Err(LivenessError::SocketFailed),
    }
}

/// A challenge about to be sent: its nonce and its one datagram.
pub struct Challenge {
    pub nonce: u32,
    pub packet: Vec<u8>,
}

/// Relies on rand::random: any `u32` may come back.
#[verifier::external_body]
fn random_nonce() -> (r: u32) {
    rand::random::<u32>()
}

impl Challenge {
    /// The challenge for a given nonce.
    pub fn for_nonce(nonce: u32) -> (r: Challenge)
        ensures
            r.nonce == nonce,
            r.packet@ == challenge_packet(nonce),
    {
        Challenge { nonce, packet: build_challenge_packet(nonce) }
    }

    /// A challenge with a fresh random nonce.
    pub fn fresh() -> (r: Challenge)
        ensures
            r.packet@ == challenge_packet(r.nonce),
    {
        Challenge::for_nonce(random_nonce())
    }

    /// Judges the outcome of waiting for the reply to this challenge.
    pub fn judge(&self, outcome: &ChallengeOutcome) -> (r: Result<(), LivenessError>)
        ensures
            r == verdict_of(self.nonce, *outcome),
    {
        liveness_verdict(self.nonce, outcome)
    }
}

} // verus!
