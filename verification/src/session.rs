//! The per-role connection state machine and the parsing of connect
//! targets.
//!
//! A client moves `Disconnected -> Connecting -> Connected`; leaving
//! `Connecting` on a failure records a distinguishable reason for display.
//! A host toggles `Stopped <-> Started`, and may not start while the local
//! process is itself still `Connecting`. The connect command accepts a
//! bare host (defaulting to the well-known port), a `host:port` pair, or
//! an empty string (defaulting to the local loopback host).

use vstd::prelude::*;
use vstd::string::StringSliceAdditionalSpecFns;
use crate::protocol::Player;
use crate::protocol::same_player;

verus! {

/// The well-known port a bare connect target defaults to.
pub const DEFAULT_PORT: u16 = 27007;

/// The locally generated 64-bit identity a client presents at handshake.
#[derive(Clone, Copy, Debug, PartialEq, Eq, Structural)]
pub struct ClientId(pub u64);

/// Relies on rand::random: draws a fresh 64-bit client id from the thread
/// rng. Nothing is promised of the draw.
#[verifier::external_body]
pub fn fresh_client_id() -> ClientId {
    ClientId(rand::random::<u64>())
}

/// Blank and horizontal-tab bytes, stripped from both ends of a connect
/// target before parsing.
pub open spec fn is_space(c: u8) -> bool {
    c == 32 || c == 9
}

pub open spec fn trim_front(s: Seq<u8>) -> Seq<u8>
    decreases s.len(),
{
    if s.len() > 0 && is_space(s[0]) {
        trim_front(s.drop_first())
    } else {
        s
    }
}

pub open spec fn trim_back(s: Seq<u8>) -> Seq<u8>
    decreases s.len(),
{
    if s.len() > 0 && is_space(s.last()) {
        trim_back(s.drop_last())
    } else {
        s
    }
}

/// The connect target with surrounding blanks stripped.
pub open spec fn trim_spec(s: Seq<u8>) -> Seq<u8> {
    trim_back(trim_front(s))
}

/// Index of the last colon of `s`, or -1 if it has none.
pub open spec fn last_colon(s: Seq<u8>) -> int
    decreases s.len(),
{
    if s.len() == 0 {
        -1
    } else if s.last() == 58 {
        s.len() - 1
    } else {
        last_colon(s.drop_last())
    }
}

pub open spec fn is_digit(c: u8) -> bool {
    48 <= c <= 57
}

pub open spec fn all_digits(s: Seq<u8>) -> bool {
    forall|i: int| 0 <= i < s.len() ==> is_digit(#[trigger] s[i])
}

/// The number the decimal digit string `s` denotes.
pub open spec fn digits_val(s: Seq<u8>) -> int
    decreases s.len(),
{
    if s.len() == 0 {
        0
    } else {
        digits_val(s.drop_last()) * 10 + (s.last() - 48)
    }
}

/// A port field: one to five decimal digits denoting at most 65535.
pub open spec fn valid_port(s: Seq<u8>) -> bool {
    1 <= s.len() <= 5 && all_digits(s) && digits_val(s) <= 65535
}

/// The bytes of the loopback host, `127.0.0.1`.
pub open spec fn loopback_host() -> Seq<u8> {
    seq![49u8, 50u8, 55u8, 46u8, 48u8, 46u8, 48u8, 46u8, 49u8]
}

/// What a trimmed connect target denotes: the loopback default when
/// empty, a bare host on the well-known port when it has no colon, and a
/// `host:port` pair split at the last colon otherwise — which fails when
/// the host part is empty or the port field is malformed.
pub open spec fn endpoint_of(t: Seq<u8>) -> Option<(Seq<u8>, u16)> {
    if t.len() == 0 {
        Some((loopback_host(), DEFAULT_PORT))
    } else if last_colon(t) < 0 {
        Some((t, DEFAULT_PORT))
    } else {
        let k = last_colon(t);
        let port = t.subrange(k + 1, t.len() as int);
        if k > 0 && valid_port(port) {
            Some((t.subrange(0, k), digits_val(port) as u16))
        } else {
            None
        }
    }
}

/// A resolved-enough connect target: the host bytes to hand to name
/// resolution, and the port to dial.
#[derive(Clone, Debug, PartialEq, Eq)]
pub struct Endpoint {
    pub host: Vec<u8>,
    pub port: u16,
}

proof fn lemma_digits_val_bound(s: Seq<u8>)
    requires
        all_digits(s),
    ensures
        0 <= digits_val(s),
        s.len() <= 5 ==> digits_val(s) <= 99999,
    decreases s.len(),
{
    if s.len() > 0 {
        assert(all_digits(s.drop_last())) by {
            assert(forall|i: int|
                0 <= i < s.len() - 1 ==> s.drop_last()[i] == #[trigger] s[i]);
        }
        lemma_digits_val_bound(s.drop_last());
        if s.len() <= 5 {
            assert(s.drop_last().len() <= 4);
            lemma_digits_val_small(s.drop_last());
        }
    }
}

proof fn lemma_digits_val_small(s: Seq<u8>)
    requires
        all_digits(s),
        s.len() <= 4,
    ensures
        0 <= digits_val(s) <= 9999,
    decreases s.len(),
{
    if s.len() > 0 {
        assert(all_digits(s.drop_last())) by {
            assert(forall|i: int|
                0 <= i < s.len() - 1 ==> s.drop_last()[i] == #[trigger] s[i]);
        }
        lemma_digits_val_small2(s.drop_last());
    }
}

proof fn lemma_digits_val_small2(s: Seq<u8>)
    requires
        all_digits(s),
        s.len() <= 3,
    ensures
        0 <= digits_val(s) <= 999,
    decreases s.len(),
{
    if s.len() > 0 {
        assert(all_digits(s.drop_last())) by {
            assert(forall|i: int|
                0 <= i < s.len() - 1 ==> s.drop_last()[i] == #[trigger] s[i]);
        }
        lemma_digits_val_small3(s.drop_last());
    }
}

proof fn lemma_digits_val_small3(s: Seq<u8>)
    requires
        all_digits(s),
        s.len() <= 2,
    ensures
        0 <= digits_val(s) <= 99,
    decreases s.len(),
{
    if s.len() > 0 {
        assert(all_digits(s.drop_last())) by {
            assert(forall|i: int|
                0 <= i < s.len() - 1 ==> s.drop_last()[i] == #[trigger] s[i]);
        }
        lemma_digits_val_small4(s.drop_last());
    }
}

proof fn lemma_digits_val_small4(s: Seq<u8>)
    requires
        all_digits(s),
        s.len() <= 1,
    ensures
        0 <= digits_val(s) <= 9,
{
    if s.len() > 0 {
        assert(is_digit(s[s.len() - 1]));
        assert(s.last() == s[s.len() - 1]);
        assert(digits_val(s.drop_last()) == 0);
    }
}

/// If `s[i]` is a colon and nothing after it is, the last colon is at `i`.
proof fn lemma_last_colon_at(s: Seq<u8>, i: int)
    requires
        0 <= i < s.len(),
        s[i] == 58,
        forall|j: int| i < j < s.len() ==> #[trigger] s[j] != 58,
    ensures
        last_colon(s) == i,
    decreases s.len(),
{
    if i == s.len() - 1 {
    } else {
        assert(s.drop_last()[i] == s[i]);
        assert(forall|j: int|
            i < j < s.len() - 1 ==> #[trigger] s.drop_last()[j] == s[j]);
        lemma_last_colon_at(s.drop_last(), i);
    }
}

/// A string without colons has no last colon.
proof fn lemma_no_colon(s: Seq<u8>)
    requires
        forall|j: int| 0 <= j < s.len() ==> #[trigger] s[j] != 58,
    ensures
        last_colon(s) == -1,
    decreases s.len(),
{
    if s.len() > 0 {
        assert(forall|j: int|
            0 <= j < s.len() - 1 ==> #[trigger] s.drop_last()[j] == s[j]);
        lemma_no_colon(s.drop_last());
    }
}

/// Strip blanks from both ends of `s`; the returned bounds delimit the
/// trimmed target.
fn trim_bytes(s: &[u8]) -> (r: (usize, usize))
    ensures
        r.0 <= r.1 <= s@.len(),
        s@.subrange(r.0 as int, r.1 as int) == trim_spec(s@),
{
    proof {
        assert(s@.subrange(0, s@.len() as int) =~= s@);
    }
    let mut lo: usize = 0;
    while lo < s.len() && (s[lo] == 32 || s[lo] == 9)
        invariant
            lo <= s@.len(),
            trim_front(s@) == trim_front(s@.subrange(lo as int, s@.len() as int)),
        decreases s@.len() - lo,
    {
        proof {
            let cur = s@.subrange(lo as int, s@.len() as int);
            assert(cur.drop_first() =~= s@.subrange(lo + 1, s@.len() as int));
        }
        lo += 1;
    }
    proof {
        let cur = s@.subrange(lo as int, s@.len() as int);
        if lo < s@.len() {
            assert(cur[0] == s@[lo as int]);
        }
        assert(trim_front(s@) == cur);
    }
    let mut hi: usize = s.len();
    while hi > lo && (s[hi - 1] == 32 || s[hi - 1] == 9)
        invariant
            lo <= hi <= s@.len(),
            trim_front(s@) == s@.subrange(lo as int, s@.len() as int),
            trim_back(s@.subrange(lo as int, hi as int)) == trim_back(trim_front(s@)),
        decreases hi,
    {
        proof {
            let cur = s@.subrange(lo as int, hi as int);
            assert(cur.last() == s@[hi - 1]);
            assert(cur.drop_last() =~= s@.subrange(lo as int, hi - 1));
        }
        hi -= 1;
    }
    proof {
        let cur = s@.subrange(lo as int, hi as int);
        if hi > lo {
            assert(cur.last() == s@[hi - 1]);
        }
        assert(trim_back(cur) == cur);
    }
    (lo, hi)
}

/// Parse the decimal port field `s[lo..hi]`.
fn parse_port(s: &[u8], lo: usize, hi: usize) -> (r: Option<u16>)
    requires
        lo <= hi <= s@.len(),
    ensures
        match r {
            Some(p) => valid_port(s@.subrange(lo as int, hi as int)) && p == digits_val(
                s@.subrange(lo as int, hi as int),
            ),
            None => !valid_port(s@.subrange(lo as int, hi as int)),
        },
{
    let ghost whole = s@.subrange(lo as int, hi as int);
    if hi - lo < 1 || hi - lo > 5 {
        return None;
    }
    let mut acc: u32 = 0;
    let mut i: usize = lo;
    while i < hi
        invariant
            lo <= i <= hi <= s@.len(),
            hi - lo <= 5,
            whole == s@.subrange(lo as int, hi as int),
            all_digits(s@.subrange(lo as int, i as int)),
            acc == digits_val(s@.subrange(lo as int, i as int)),
            acc <= 99999,
        decreases hi - i,
    {
        let c = s[i];
        if c < 48 || c > 57 {
            proof {
                assert(whole[i - lo] == c);
            }
            return None;
        }
        proof {
            let pre = s@.subrange(lo as int, i as int);
            let post = s@.subrange(lo as int, i + 1);
            assert(post.drop_last() =~= pre);
            assert(post.last() == c);
            lemma_digits_val_bound(pre);
            if i - lo < 4 {
                lemma_digits_val_small(pre);
            } else {
                assert(pre.len() == 4);
                lemma_digits_val_small(pre);
            }
            assert(all_digits(post)) by {
                assert(forall|j: int| 0 <= j < pre.len() ==> post[j] == #[trigger] pre[j]);
            }
        }
        acc = acc * 10 + ((c - 48) as u32);
        i += 1;
    }
    if acc <= 65535 {
        Some(acc as u16)
    } else {
        None
    }
}

/// Copy `s[lo..hi]` into an owned buffer.
fn copy_range(s: &[u8], lo: usize, hi: usize) -> (r: Vec<u8>)
    requires
        lo <= hi <= s@.len(),
    ensures
        r@ == s@.subrange(lo as int, hi as int),
{
    let mut r: Vec<u8> = Vec::new();
    let mut i: usize = lo;
    while i < hi
        invariant
            lo <= i <= hi <= s@.len(),
            r@ == s@.subrange(lo as int, i as int),
        decreases hi - i,
    {
        r.push(s[i]);
        proof {
            assert(s@.subrange(lo as int, i + 1) =~= s@.subrange(lo as int, i as int).push(
                s@[i as int],
            ));
        }
        i += 1;
    }
    r
}

/// Parse a connect target as the connect command accepts it: an empty
/// input means the loopback host on the well-known port, an input without
/// a colon is a bare host on that port, and otherwise the input is split
/// at its last colon into a non-empty host and a decimal port.
pub fn parse_endpoint(input: &str) -> (r: Option<Endpoint>)
    ensures
        match r {
            Some(ep) => endpoint_of(trim_spec(input.spec_bytes())) == Some((ep.host@, ep.port)),
            None => endpoint_of(trim_spec(input.spec_bytes())) is None,
        },
{
    let bytes = input.as_bytes();
    let (lo, hi) = trim_bytes(bytes);
    let ghost t = trim_spec(bytes@);
    proof {
        assert(t == bytes@.subrange(lo as int, hi as int));
    }
    if lo == hi {
        let host = vec![49u8, 50u8, 55u8, 46u8, 48u8, 46u8, 48u8, 46u8, 49u8];
        proof {
            assert(host@ =~= loopback_host());
        }
        return Some(Endpoint { host, port: DEFAULT_PORT });
    }
    // Scan backwards for the last colon of the trimmed target.
    let mut j: usize = hi;
    while j > lo && bytes[j - 1] != 58
        invariant
            lo <= j <= hi <= bytes@.len(),
            forall|m: int| j <= m < hi ==> #[trigger] bytes@[m] != 58,
        decreases j,
    {
        j -= 1;
    }
    if j == lo {
        // No colon: a bare host on the well-known port.
        proof {
            assert(forall|m: int| 0 <= m < t.len() ==> #[trigger] t[m] == bytes@[lo + m]);
            lemma_no_colon(t);
        }
        let host = copy_range(bytes, lo, hi);
        return Some(Endpoint { host, port: DEFAULT_PORT });
    }
    let k = j - 1;
    proof {
        assert(bytes@[k as int] == 58);
        assert(forall|m: int| 0 <= m < t.len() ==> #[trigger] t[m] == bytes@[lo + m]);
        lemma_last_colon_at(t, k - lo);
    }
    if k == lo {
        // Empty host part.
        return None;
    }
    match parse_port(bytes, k + 1, hi) {
        Some(port) => {
            proof {
                assert(bytes@.subrange(k + 1, hi as int) =~= t.subrange(
                    k - lo + 1,
                    t.len() as int,
                ));
            }
            let host = copy_range(bytes, lo, k);
            proof {
                assert(host@ =~= t.subrange(0, k - lo));
            }
            Some(Endpoint { host, port })
        },
        None => {
            proof {
                assert(bytes@.subrange(k + 1, hi as int) =~= t.subrange(
                    k - lo + 1,
                    t.len() as int,
                ));
            }
            None
        },
    }
}

/// The lifecycle position of the local client role.
#[derive(Clone, Copy, Debug, PartialEq, Eq, Structural)]
pub enum ClientNetState {
    Disconnected,
    Connecting,
    Connected,
}

/// The lifecycle position of the local host role.
#[derive(Clone, Copy, Debug, PartialEq, Eq, Structural)]
pub enum HostNetState {
    Stopped,
    Started,
}

/// Why the session last left `Connecting` or refused a connect command;
/// cosmetic state, rendered for the connection display only.
#[derive(Clone, Copy, Debug, PartialEq, Eq, Structural)]
pub enum SessionError {
    BadAddress,
    TokenExpired,
    TimedOut,
    Denied,
}

/// The client role's session: lifecycle state, local identity, the local
/// player record announced on connect, the dialled endpoint, and the last
/// user-visible failure.
#[derive(Debug)]
pub struct ClientSession {
    pub state: ClientNetState,
    pub client_id: ClientId,
    pub player: Player,
    pub server: Option<Endpoint>,
    pub error: Option<SessionError>,
}

impl ClientSession {
    /// A session that has never dialled anywhere.
    pub fn new(client_id: ClientId, player: Player) -> (r: ClientSession)
        ensures
            r.state is Disconnected,
            r.client_id == client_id,
            r.player == player,
            r.server is None,
            r.error is None,
    {
        ClientSession { state: ClientNetState::Disconnected, client_id, player, server: None, error: None }
    }

    /// A session under a freshly drawn local identity.
    pub fn with_fresh_id(player: Player) -> (r: ClientSession)
        ensures
            r.state is Disconnected,
            r.player == player,
            r.server is None,
            r.error is None,
    {
        let id = fresh_client_id();
        ClientSession::new(id, player)
    }

    /// The connect command: parse the target and start dialling it. A
    /// malformed target records a user-visible error and leaves the
    /// lifecycle state untouched.
    pub fn connect(&mut self, address: &str) -> (ok: bool)
        requires
            old(self).state is Disconnected,
        ensures
            final(self).client_id == old(self).client_id,
            final(self).player == old(self).player,
            match endpoint_of(trim_spec(address.spec_bytes())) {
                Some((h, p)) => {
                    &&& ok
                    &&& final(self).state is Connecting
                    &&& final(self).server matches Some(ep) && ep.host@ == h && ep.port == p
                    &&& final(self).error is None
                },
                None => {
                    &&& !ok
                    &&& final(self).state == old(self).state
                    &&& final(self).server == old(self).server
                    &&& final(self).error == Some(SessionError::BadAddress)
                },
            },
    {
        match parse_endpoint(address) {
            Some(ep) => {
                self.server = Some(ep);
                self.state = ClientNetState::Connecting;
                self.error = None;
                true
            },
            None => {
                self.error = Some(SessionError::BadAddress);
                false
            },
        }
    }

    /// The transport accepted the handshake: the session is connected and
    /// announces the local player record to the host, exactly once.
    pub fn on_accepted(&mut self) -> (announce: Option<Player>)
        ensures
            final(self).client_id == old(self).client_id,
            final(self).server == old(self).server,
            final(self).player == old(self).player,
            old(self).state is Connecting ==> {
                &&& final(self).state is Connected
                &&& final(self).error is None
                &&& announce matches Some(p) && same_player(p, old(self).player)
            },
            !(old(self).state is Connecting) ==> {
                &&& final(self).state == old(self).state
                &&& final(self).error == old(self).error
                &&& announce is None
            },
    {
        if matches!(self.state, ClientNetState::Connecting) {
            self.state = ClientNetState::Connected;
            self.error = None;
            Some(self.player.clone())
        } else {
            None
        }
    }

    /// The transport reported that dialling failed: back to disconnected,
    /// with the distinguishable reason recorded for display.
    pub fn on_connect_failed(&mut self, reason: SessionError)
        ensures
            final(self).client_id == old(self).client_id,
            final(self).server == old(self).server,
            final(self).player == old(self).player,
            old(self).state is Connecting ==> final(self).state is Disconnected
                && final(self).error == Some(reason),
            !(old(self).state is Connecting) ==> final(self).state == old(self).state
                && final(self).error == old(self).error,
    {
        if matches!(self.state, ClientNetState::Connecting) {
            self.state = ClientNetState::Disconnected;
            self.error = Some(reason);
        }
    }

    /// The disconnect command, or a transport loss: back to disconnected,
    /// with no error to show.
    pub fn disconnect(&mut self)
        ensures
            final(self).client_id == old(self).client_id,
            final(self).server == old(self).server,
            final(self).player == old(self).player,
            final(self).state is Disconnected,
            final(self).error is None,
    {
        self.state = ClientNetState::Disconnected;
        self.error = None;
    }

    /// The user-visible text of the recorded failure; empty while there
    /// is none.
    pub fn error_message(&self) -> (m: String)
        ensures
            self.error is None ==> m@ == Seq::<char>::empty(),
            self.error == Some(SessionError::BadAddress) ==> m@ == "Incorrect IP adress"@,
            self.error == Some(SessionError::TokenExpired) ==> m@ == "Connection token expired"@,
            self.error == Some(SessionError::TimedOut) ==> m@ == "Connection timed out"@,
            self.error == Some(SessionError::Denied) ==> m@ == "Connection denied"@,
    {
        proof {
            reveal_strlit("");
        }
        match self.error {
            None => "".to_owned(),
            Some(SessionError::BadAddress) => "Incorrect IP adress".to_owned(),
            Some(SessionError::TokenExpired) => "Connection token expired".to_owned(),
            Some(SessionError::TimedOut) => "Connection timed out".to_owned(),
            Some(SessionError::Denied) => "Connection denied".to_owned(),
        }
    }
}

/// The host role's session.
#[derive(Clone, Copy, Debug, PartialEq, Eq, Structural)]
pub struct HostSession {
    pub state: HostNetState,
}

impl HostSession {
    pub fn new() -> (r: HostSession)
        ensures
            r.state is Stopped,
    {
        HostSession { state: HostNetState::Stopped }
    }

    /// The start-hosting command. Starting is disallowed while the local
    /// process is itself dialling out; self-hosting while connected to
    /// one's own host is the default topology and stays allowed.
    pub fn start(&mut self, client_state: ClientNetState) -> (ok: bool)
        ensures
            ok == !(client_state is Connecting),
            ok ==> final(self).state is Started,
            !ok ==> final(self).state == old(self).state,
    {
        if matches!(client_state, ClientNetState::Connecting) {
            false
        } else {
            self.state = HostNetState::Started;
            true
        }
    }

    /// The stop-hosting command.
    pub fn stop(&mut self)
        ensures
            final(self).state is Stopped,
    {
        self.state = HostNetState::Stopped;
    }
}

} // verus!

