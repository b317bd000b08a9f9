//! Bookkeeping of ping: the echo requests we send and the replies that come back.
use vstd::prelude::*;

use crate::net::icmp::{icmp_bytes, ControlMessageType, ICMPPacket, NoSubcode};
use crate::net::internet_checksum;

verus! {

/// Number of echo replies that wait to be collected before new ones are dropped.
pub const PING_RESPONSE_QUEUE_LENGTH: usize = 10;

/// What we keep of an echo reply that arrived.
#[derive(Debug, Clone)]
pub struct PingRequestInfo {
    pub identifier: u16,
    pub sequence_num: u16,
    pub payload: Vec<u8>,
}

/// The identifier, sequence number and payload of a kept reply.
pub open spec fn info_view(i: PingRequestInfo) -> (u16, u16, Seq<u8>) {
    (i.identifier, i.sequence_num, i.payload@)
}

impl PingRequestInfo {
    /// What we keep of the echo reply `icmpp`: the sequence number is the low half of the
    /// header word, the identifier the high half.
    pub fn from_stuff(icmpp: &ICMPPacket) -> (r: PingRequestInfo)
        ensures
            r.sequence_num == icmpp.other % 0x1_0000,
            r.identifier == icmpp.other / 0x1_0000,
            r.payload@ == icmpp.data@,
    {
        let mut payload: Vec<u8> = Vec::new();
        payload.extend_from_slice(icmpp.data);
        PingRequestInfo {
            sequence_num: crate::bytes::u32_low_half(icmpp.other),
            identifier: crate::bytes::u32_high_half(icmpp.other),
            payload,
        }
    }
}

/// The echo request number `sequence_num` of the ping run `identifier`, with its checksum.
pub fn ping_request<'a>(identifier: u16, sequence_num: u16, payload: &'a [u8]) -> (r: ICMPPacket<'a>)
    requires
        payload@.len() + 8 <= 0x2_0000,
    ensures
        r.typ == ControlMessageType::EchoRequest(NoSubcode::NoCode),
        r.other == identifier * 0x1_0000 + sequence_num,
        r.data@ == payload@,
        r.checksum == internet_checksum(icmp_bytes(r.typ, 0, r.other, payload@)),
        internet_checksum(r.spec_bytes()) == 0,
{
    let other = crate::bytes::u32_from_halves(identifier, sequence_num);
    let mut request = ICMPPacket {
        typ: ControlMessageType::EchoRequest(NoSubcode::NoCode),
        checksum: 0,
        other,
        data: payload,
    };
    request.calc_new_checksum();
    request
}

/// Law: a reply that echoes the header word of request `(identifier, sequence_num)` is kept
/// under that same identifier and sequence number.
pub proof fn lemma_reply_matches_request(identifier: u16, sequence_num: u16)
    ensures
        ((identifier * 0x1_0000 + sequence_num) as u32) / 0x1_0000 == identifier,
        ((identifier * 0x1_0000 + sequence_num) as u32) % 0x1_0000 == sequence_num,
{
}

/// The replies that arrived and wait for the ping run that asked for them.
pub struct PingResponseQueue {
    slots: Vec<Option<PingRequestInfo>>,
}

impl PingResponseQueue {
    /// The slots of the queue; a free slot is `None`.
    pub closed spec fn view(&self) -> Seq<Option<PingRequestInfo>> {
        self.slots@
    }

    /// The queue always has `PING_RESPONSE_QUEUE_LENGTH` slots.
    pub closed spec fn wf(&self) -> bool {
        self.slots@.len() == PING_RESPONSE_QUEUE_LENGTH
    }

    /// An empty queue.
    pub fn new() -> (r: PingResponseQueue)
        ensures
            r.wf(),
            forall|i: int| 0 <= i < PING_RESPONSE_QUEUE_LENGTH ==> r@[i] is None,
            r@.len() == PING_RESPONSE_QUEUE_LENGTH,
    {
        let mut slots: Vec<Option<PingRequestInfo>> = Vec::new();
        let mut i: usize = 0;
        while i < PING_RESPONSE_QUEUE_LENGTH
            invariant
                i <= PING_RESPONSE_QUEUE_LENGTH,
                slots@.len() == i,
                forall|j: int| 0 <= j < i ==> slots@[j] is None,
            decreases PING_RESPONSE_QUEUE_LENGTH - i,
        {
            slots.push(None);
            i = i + 1;
        }
        PingResponseQueue { slots }
    }

    /// Keeps the echo reply `icmpp` in the first free slot; returns whether there was one
    /// (when the queue is full the reply is dropped).
    pub fn handle_icmp_echo_response(&mut self, reply: &ICMPPacket) -> (r: bool)
        requires
            old(self).wf(),
        ensures
            final(self).wf(),
            r == exists|j: int| 0 <= j < old(self)@.len() && old(self)@[j] is None,
            r ==> exists|j: int|
                #![trigger old(self)@[j]]
                {
                    &&& 0 <= j < old(self)@.len()
                    &&& old(self)@[j] is None
                    &&& forall|k: int| 0 <= k < j ==> old(self)@[k] is Some
                    &&& final(self)@ == old(self)@.update(j, final(self)@[j])
                    &&& final(self)@[j] matches Some(info) && info.sequence_num == reply.other
                        % 0x1_0000 && info.identifier == reply.other / 0x1_0000 && info.payload@
                        == reply.data@
                },
            !r ==> final(self)@ == old(self)@,
    {
        let n = self.slots.len();
        let mut i: usize = 0;
        while i < n
            invariant
                n == self.slots@.len(),
                self.wf(),
                self.slots@ == old(self).slots@,
                i <= n,
                forall|k: int| 0 <= k < i ==> self.slots@[k] is Some,
            decreases n - i,
        {
            if self.slots[i].is_none() {
                let info = PingRequestInfo::from_stuff(reply);
                self.slots.set(i, Some(info));
                return true;
            }
            i = i + 1;
        }
        false
    }

    /// Takes out the first kept reply whose identifier is `identifier`, freeing its slot.
    pub fn find_matching_ping_response(&mut self, identifier: u16) -> (r: Option<PingRequestInfo>)
        requires
            old(self).wf(),
        ensures
            final(self).wf(),
            r is Some == exists|j: int|
                #![trigger old(self)@[j]]
                0 <= j < old(self)@.len() && (old(self)@[j] matches Some(p) && p.identifier
                    == identifier),
            r matches Some(p) ==> exists|j: int|
                #![trigger old(self)@[j]]
                {
                    &&& 0 <= j < old(self)@.len()
                    &&& old(self)@[j] == Some(p)
                    &&& p.identifier == identifier
                    &&& forall|k: int|
                        0 <= k < j ==> !(#[trigger] old(self)@[k] matches Some(q) && q.identifier
                            == identifier)
                    &&& final(self)@ == old(self)@.update(j, None)
                },
            r is None ==> final(self)@ == old(self)@,
    {
        let n = self.slots.len();
        let mut i: usize = 0;
        while i < n
            invariant
                n == self.slots@.len(),
                self.wf(),
                self.slots@ == old(self).slots@,
                i <= n,
                forall|k: int|
                    0 <= k < i ==> !(#[trigger] self.slots@[k] matches Some(q) && q.identifier
                        == identifier),
            decreases n - i,
        {
            let matches = match &self.slots[i] {
                Some(p) => p.identifier == identifier,
                None => false,
            };
            if matches {
                let taken = self.slots.remove(i);
                self.slots.insert(i, None);
                assert(self.slots@ =~= old(self).slots@.update(i as int, None));
                return taken;
            }
            i = i + 1;
        }
        None
    }
}

/// The echo requests sent and not yet answered: sequence number to the tick (milliseconds
/// since boot) at which each was sent.
#[verifier::external_body]
pub struct OutstandingPings {
    map: hashbrown::HashMap<u16, u64>,
}

/// The requests outstanding, by sequence number.
pub uninterp spec fn outstanding_contents(o: OutstandingPings) -> Map<u16, u64>;

impl OutstandingPings {
    /// `hashbrown::HashMap::new`: an empty table.
    #[verifier::external_body]
    fn map_new() -> (r: OutstandingPings)
        ensures
            outstanding_contents(r).dom() == Set::<u16>::empty(),
    {
        OutstandingPings { map: hashbrown::HashMap::new() }
    }

    /// `hashbrown::HashMap::insert`: files `sent` under `seq`, replacing what was there.
    #[verifier::external_body]
    fn map_insert(&mut self, seq: u16, sent: u64)
        ensures
            outstanding_contents(*final(self)) == outstanding_contents(*old(self)).insert(seq, sent),
    {
        self.map.insert(seq, sent);
    }

    /// `hashbrown::HashMap::remove`: takes out what is filed under `seq`.
    #[verifier::external_body]
    fn map_remove(&mut self, seq: u16) -> (r: Option<u64>)
        ensures
            outstanding_contents(*final(self)) == outstanding_contents(*old(self)).remove(seq),
            r == (if outstanding_contents(*old(self)).contains_key(seq) {
                Some(outstanding_contents(*old(self))[seq])
            } else {
                None
            }),
    {
        self.map.remove(&seq)
    }

    /// `hashbrown::HashMap::iter`: the entries, in the map's own order.
    #[verifier::external_body]
    fn map_entries(&self) -> (r: Vec<(u16, u64)>)
        ensures
            r@.no_duplicates(),
            forall|i: int| 0 <= i < r@.len() ==> outstanding_contents(*self).contains_key(#[trigger] r@[i].0)
                && outstanding_contents(*self)[r@[i].0] == r@[i].1,
            forall|s: u16| outstanding_contents(*self).contains_key(s) ==> exists|i: int| 0 <= i < r@.len() && #[trigger] r@[i].0 == s,
    {
        self.map.iter().map(|(s, t)| (*s, *t)).collect()
    }
}

/// What a reply to one of our requests tells.
#[derive(Clone, Copy, Debug, PartialEq, Eq, Structural)]
pub enum PingOutcome {
    /// The reply's sequence number was not outstanding.
    UnknownSequence,
    /// The reply to request `sequence_num`, `rtt_ms` milliseconds after it was sent;
    /// `corrupted` when its payload differs from the one sent.
    Reply { sequence_num: u16, rtt_ms: u64, corrupted: bool },
}

/// Whether every outstanding request was sent at or before tick `now`.
pub open spec fn sent_by(m: Map<u16, u64>, now: u64) -> bool {
    forall|s: u16| #[trigger] m.contains_key(s) ==> m[s] <= now
}

/// The identifier of a ping run started at tick `ticks`: the low 16 bits.
pub fn ping_identifier(ticks: u64) -> (r: u16)
    ensures
        r == ticks % 0x1_0000,
{
    assert(ticks & 0xffff == ticks % 0x1_0000) by (bit_vector);
    (ticks & 0xffff) as u16
}

/// Whether a run that is to send `count` requests sends request `sequence_num`; a run with
/// `count` 0 pings forever.
pub fn should_send(sequence_num: u16, count: u16) -> (r: bool)
    ensures
        r == (count == 0 || sequence_num < count),
{
    count == 0 || sequence_num < count
}

/// One ping run: the requests sent and not yet answered.
pub struct PingTracker {
    pub outstanding: OutstandingPings,
}

impl PingTracker {
    /// The requests outstanding.
    pub open spec fn view(&self) -> Map<u16, u64> {
        outstanding_contents(self.outstanding)
    }

    /// A run with nothing sent.
    pub fn new() -> (r: PingTracker)
        ensures
            r@.dom() == Set::<u16>::empty(),
    {
        PingTracker { outstanding: OutstandingPings::map_new() }
    }

    /// Records that request `sequence_num` was sent at tick `now`.
    pub fn record_sent(&mut self, sequence_num: u16, now: u64)
        ensures
            final(self)@ == old(self)@.insert(sequence_num, now),
    {
        self.outstanding.map_insert(sequence_num, now);
    }

    /// The run is over once the sender is done and no request is outstanding.
    pub fn is_done(&self, sender_done: bool) -> (r: bool)
        ensures
            r == (sender_done && self@.dom() == Set::<u16>::empty()),
    {
        let entries = self.outstanding.map_entries();
        proof {
            if entries@.len() == 0 {
                assert(self@.dom() =~= Set::<u16>::empty());
            } else {
                assert(self@.contains_key(entries@[0].0));
            }
        }
        sender_done && entries.len() == 0
    }

    /// Takes in the reply `response` at tick `now`: the request it answers leaves the run,
    /// and the round trip time and whether its payload differs from `payload` are returned.
    pub fn on_response(&mut self, response: &PingRequestInfo, payload: &[u8], now: u64) -> (r: PingOutcome)
        requires
            sent_by(old(self)@, now),
        ensures
            sent_by(final(self)@, now),
            !old(self)@.contains_key(response.sequence_num) ==> r == PingOutcome::UnknownSequence
                && final(self)@ == old(self)@,
            old(self)@.contains_key(response.sequence_num) ==> final(self)@ == old(self)@.remove(
                response.sequence_num,
            ) && r == (PingOutcome::Reply {
                sequence_num: response.sequence_num,
                rtt_ms: (now - old(self)@[response.sequence_num]) as u64,
                corrupted: response.payload@ != payload@,
            }),
    {
        let sent = match self.outstanding.map_remove(response.sequence_num) {
            Some(t) => t,
            None => {
                assert(self@ =~= old(self)@);
                return PingOutcome::UnknownSequence;
            },
        };
        let mut same = response.payload.len() == payload.len();
        let mut i: usize = 0;
        while same && i < payload.len()
            invariant
                i <= payload@.len(),
                same ==> response.payload@.len() == payload@.len(),
                same ==> forall|j: int| 0 <= j < i ==> response.payload@[j] == payload@[j],
                !same ==> response.payload@ != payload@,
            decreases payload@.len() - i,
        {
            if response.payload[i] != payload[i] {
                same = false;
            }
            i = i + 1;
        }
        proof {
            if same {
                assert(response.payload@ =~= payload@);
            }
        }
        PingOutcome::Reply { sequence_num: response.sequence_num, rtt_ms: now - sent, corrupted: !same }
    }

    /// Drops, at tick `now`, the requests sent more than `timeout_ms` milliseconds ago, and
    /// returns their sequence numbers.
    pub fn expire(&mut self, now: u64, timeout_ms: u64) -> (r: Vec<u16>)
        requires
            sent_by(old(self)@, now),
        ensures
            sent_by(final(self)@, now),
            forall|s: u16|
                #[trigger] old(self)@.contains_key(s) ==> (final(self)@.contains_key(s) <==> now - old(self)@[s] <= timeout_ms),
            forall|s: u16| #[trigger] final(self)@.contains_key(s) ==> old(self)@.contains_key(s) && final(self)@[s] == old(self)@[s],
            forall|s: u16| r@.contains(s) <==> (old(self)@.contains_key(s) && now - old(self)@[s] > timeout_ms),
    {
        let entries = self.outstanding.map_entries();
        let ghost m = self@;
        let mut expired: Vec<u16> = Vec::new();
        let mut i: usize = 0;
        while i < entries.len()
            invariant
                i <= entries@.len(),
                entries@.no_duplicates(),
                forall|k: int| 0 <= k < entries@.len() ==> m.contains_key(#[trigger] entries@[k].0) && m[entries@[k].0] == entries@[k].1,
                forall|s: u16| m.contains_key(s) ==> exists|k: int| 0 <= k < entries@.len() && #[trigger] entries@[k].0 == s,
                sent_by(m, now),
                forall|s: u16| #[trigger] self@.contains_key(s) ==> m.contains_key(s) && self@[s] == m[s],
                forall|s: u16|
                    #[trigger] m.contains_key(s) ==> (self@.contains_key(s) <==> !(exists|k: int| 0 <= k < i && entries@[k].0 == s && now - m[s] > timeout_ms)),
                forall|s: u16| expired@.contains(s) <==> (exists|k: int| 0 <= k < i && #[trigger] entries@[k].0 == s && now - m[s] > timeout_ms),
            decreases entries@.len() - i,
        {
            let (seq, sent) = entries[i];
            proof {
                assert forall|k: int| 0 <= k < i implies entries@[k].0 != seq by {
                    if entries@[k].0 == seq {
                        assert(entries@[k] == entries@[i as int]);
                    }
                }
            }
            let ghost before = self@;
            let ghost before_expired = expired@;
            let ghost ii = i as int;
            if now - sent > timeout_ms {
                self.outstanding.map_remove(seq);
                expired.push(seq);
            }
            i = i + 1;
            proof {
                assert forall|s: u16| #[trigger] m.contains_key(s) implies (self@.contains_key(s) <==> !(exists|k: int|
                    0 <= k < i && entries@[k].0 == s && now - m[s] > timeout_ms)) by {
                    if s == seq {
                        if now - m[s] > timeout_ms {
                            assert(entries@[ii].0 == s);
                        }
                    } else {
                        assert(before.contains_key(s) == self@.contains_key(s));
                        if exists|k: int| 0 <= k < i && entries@[k].0 == s && now - m[s] > timeout_ms {
                            let k = choose|k: int| 0 <= k < i && entries@[k].0 == s && now - m[s] > timeout_ms;
                            assert(k != ii);
                        }
                    }
                }
                assert forall|s: u16| expired@.contains(s) <==> (exists|k: int|
                    0 <= k < i && #[trigger] entries@[k].0 == s && now - m[s] > timeout_ms) by {
                    if now - m[seq] > timeout_ms {
                        assert(expired@ == before_expired.push(seq));
                        if s == seq {
                            assert(expired@[expired@.len() - 1] == seq);
                            assert(entries@[ii].0 == s);
                        } else {
                            if expired@.contains(s) {
                                let j = choose|j: int| 0 <= j < expired@.len() && expired@[j] == s;
                                assert(before_expired[j] == s);
                            }
                            if before_expired.contains(s) {
                                let j = choose|j: int| 0 <= j < before_expired.len() && before_expired[j] == s;
                                assert(expired@[j] == s);
                            }
                        }
                    } else {
                        if exists|k: int| 0 <= k < i && #[trigger] entries@[k].0 == s && now - m[s] > timeout_ms {
                            let k = choose|k: int| 0 <= k < i && #[trigger] entries@[k].0 == s && now - m[s] > timeout_ms;
                            assert(k != ii);
                        }
                    }
                }
            }
        }
        proof {
            assert forall|s: u16| #[trigger] m.contains_key(s) implies (self@.contains_key(s) <==> now - m[s] <= timeout_ms) by {
                let k = choose|k: int| 0 <= k < entries@.len() && #[trigger] entries@[k].0 == s;
                if now - m[s] > timeout_ms {
                    assert(entries@[k].0 == s);
                }
            }
            assert forall|s: u16| expired@.contains(s) <==> (m.contains_key(s) && now - m[s] > timeout_ms) by {
                if m.contains_key(s) && now - m[s] > timeout_ms {
                    let k = choose|k: int| 0 <= k < entries@.len() && #[trigger] entries@[k].0 == s;
                    assert(entries@[k].0 == s);
                }
            }
        }
        expired
    }

    /// How long, at tick `now`, until the first outstanding request times out after
    /// `timeout_ms` milliseconds (zero once it has); none when nothing is outstanding.
    pub fn next_deadline(&self, now: u64, timeout_ms: u64) -> (r: Option<u64>)
        requires
            sent_by(self@, now),
        ensures
            r is None <==> self@.dom() == Set::<u16>::empty(),
            r matches Some(d) ==> (exists|s: u16| #[trigger] self@.contains_key(s) && d == remaining(timeout_ms, now - self@[s]))
                && forall|s: u16| #[trigger] self@.contains_key(s) ==> d <= remaining(timeout_ms, now - self@[s]),
    {
        let entries = self.outstanding.map_entries();
        let mut best: Option<u64> = None;
        let mut i: usize = 0;
        while i < entries.len()
            invariant
                i <= entries@.len(),
                forall|k: int| 0 <= k < entries@.len() ==> self@.contains_key(#[trigger] entries@[k].0) && self@[entries@[k].0] == entries@[k].1,
                forall|s: u16| self@.contains_key(s) ==> exists|k: int| 0 <= k < entries@.len() && #[trigger] entries@[k].0 == s,
                sent_by(self@, now),
                i == 0 <==> best is None,
                best matches Some(d) ==> (exists|k: int| 0 <= k < i && d == remaining(timeout_ms, now - #[trigger] entries@[k].1))
                    && forall|k: int| 0 <= k < i ==> d <= remaining(timeout_ms, now - #[trigger] entries@[k].1),
            decreases entries@.len() - i,
        {
            let (_seq, sent) = entries[i];
            let left = timeout_ms.saturating_sub(now - sent);
            best = match best {
                None => Some(left),
                Some(d) => if left < d { Some(left) } else { Some(d) },
            };
            i = i + 1;
        }
        proof {
            if entries@.len() == 0 {
                assert(self@.dom() =~= Set::<u16>::empty());
            } else {
                assert(self@.contains_key(entries@[0].0));
                let d = best.unwrap();
                let k = choose|k: int| 0 <= k < i && d == remaining(timeout_ms, now - #[trigger] entries@[k].1);
                assert(self@.contains_key(entries@[k].0));
                assert forall|s: u16| #[trigger] self@.contains_key(s) implies d <= remaining(timeout_ms, now - self@[s]) by {
                    let k2 = choose|k2: int| 0 <= k2 < entries@.len() && #[trigger] entries@[k2].0 == s;
                    assert(d <= remaining(timeout_ms, now - entries@[k2].1));
                }
            }
        }
        best
    }
}

/// What is left of a timeout of `timeout` milliseconds after `elapsed` of them, at least zero.
pub open spec fn remaining(timeout: u64, elapsed: int) -> int {
    if elapsed >= timeout {
        0
    } else {
        timeout - elapsed
    }
}


/// The time between two requests of a ping run, in milliseconds.
pub const PING_INTERVAL_MS: u64 = 1000;

/// What the sender of a ping run does at a tick.
#[derive(Clone, Copy, Debug, PartialEq, Eq, Structural)]
pub enum PingStep {
    /// Every request has been sent.
    Done,
    /// The next request is not due yet.
    Wait,
    /// Send the request with this sequence number now.
    Send(u16),
}

/// The sending side of a ping run: requests go out one interval apart, numbered from 0,
/// until `count` have been sent, or forever when `count` is 0.
#[derive(Clone, Copy, Debug, PartialEq, Eq, Structural)]
pub struct PingSender {
    pub count: u16,
    pub next_sequence: u16,
    pub next_send_tick: u64,
    pub done: bool,
}

/// The sequence number after `s`; after the last one numbering starts over at 0.
pub open spec fn next_sequence_num(s: u16) -> u16 {
    if s == u16::MAX {
        0
    } else {
        (s + 1) as u16
    }
}

/// The tick one interval after `now`, or the last tick when there is none that late.
pub open spec fn next_send_at(now: u64) -> u64 {
    if now <= u64::MAX - PING_INTERVAL_MS {
        (now + PING_INTERVAL_MS) as u64
    } else {
        u64::MAX
    }
}

impl PingSender {
    /// A run of `count` requests whose first request is due at tick `now`.
    pub fn new(count: u16, now: u64) -> (r: PingSender)
        ensures
            r == (PingSender { count, next_sequence: 0, next_send_tick: now, done: false }),
    {
        PingSender { count, next_sequence: 0, next_send_tick: now, done: false }
    }

    /// The sender's step at tick `now`: done once the run has sent what it is to send
    /// (never when `count` is 0); else the next request when it is due, after which the one
    /// after it is due an interval later; else wait.
    pub fn step(&mut self, now: u64) -> (r: PingStep)
        ensures
            old(self).done ==> r == PingStep::Done && *final(self) == *old(self),
            !old(self).done && !(old(self).count == 0 || old(self).next_sequence < old(self).count) ==> r
                == PingStep::Done && *final(self) == (PingSender { done: true, ..*old(self) }),
            !old(self).done && (old(self).count == 0 || old(self).next_sequence < old(self).count) && now
                < old(self).next_send_tick ==> r == PingStep::Wait && *final(self) == *old(self),
            !old(self).done && (old(self).count == 0 || old(self).next_sequence < old(self).count) && now
                >= old(self).next_send_tick ==> r == PingStep::Send(old(self).next_sequence) && *final(self) == (
            PingSender {
                next_sequence: next_sequence_num(old(self).next_sequence),
                next_send_tick: next_send_at(now),
                ..*old(self)
            }),
    {
        if self.done {
            return PingStep::Done;
        }
        if !should_send(self.next_sequence, self.count) {
            self.done = true;
            return PingStep::Done;
        }
        if now < self.next_send_tick {
            return PingStep::Wait;
        }
        let seq = self.next_sequence;
        self.next_sequence = if seq == u16::MAX {
            0
        } else {
            seq + 1
        };
        self.next_send_tick = if now <= u64::MAX - PING_INTERVAL_MS {
            now + PING_INTERVAL_MS
        } else {
            u64::MAX
        };
        PingStep::Send(seq)
    }
}

} // verus!
