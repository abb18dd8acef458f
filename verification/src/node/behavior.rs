//! Reading console commands and reacting to network events.
use vstd::prelude::*;
use vstd::string::{StringExecFns, StringSliceAdditionalSpecFns};

use crate::node::console::{
    base58, debug_string, debug_text, decimal, decimal_string, decode_utf8, decode_utf8_lossy,
    encode_base58, lossy_text, peer_debug, peer_debug_string, utf8_text,
};
use crate::node::event::{
    Event, GossipsubEvent, KademliaEvent, MdnsEvent, Multiaddr, PeerId, PeerRecord, PingResult,
    PublicKey, QueryResult,
};

verus! {

/// The byte of a space, which separates the words of a console command.
pub open spec fn space() -> u8 {
    32
}

/// Where the first space of `s` stands, if it has one.
pub open spec fn space_index(s: Seq<u8>) -> Option<int>
    decreases s.len(),
{
    if s.len() == 0 {
        None
    } else if s[0] == space() {
        Some(0)
    } else {
        match space_index(s.drop_first()) {
            Some(i) => Some(i + 1),
            None => None,
        }
    }
}

/// The first word of `s`: everything before its first space.
pub open spec fn first_word(s: Seq<u8>) -> Seq<u8> {
    match space_index(s) {
        Some(i) => s.take(i),
        None => s,
    }
}

/// What follows the first space of `s`, if it has one.
pub open spec fn after_word(s: Seq<u8>) -> Option<Seq<u8>> {
    match space_index(s) {
        Some(i) => Some(s.skip(i + 1)),
        None => None,
    }
}

/// The ASCII bytes of `GET`.
pub open spec fn word_get() -> Seq<u8> {
    seq![71u8, 69, 84]
}

/// The ASCII bytes of `GET_PROVIDERS`.
pub open spec fn word_get_providers() -> Seq<u8> {
    seq![71u8, 69, 84, 95, 80, 82, 79, 86, 73, 68, 69, 82, 83]
}

/// The ASCII bytes of `PUT`.
pub open spec fn word_put() -> Seq<u8> {
    seq![80u8, 85, 84]
}

/// The ASCII bytes of `PUT_PROVIDER`.
pub open spec fn word_put_provider() -> Seq<u8> {
    seq![80u8, 85, 84, 95, 80, 82, 79, 86, 73, 68, 69, 82]
}

/// A request to the distributed hash table, read from the console.
#[derive(Debug, PartialEq, Eq)]
pub enum KadRequest {
    /// Look the record of `key` up.
    GetRecord { key: Vec<u8> },
    /// Look the providers of `key` up.
    GetProviders { key: Vec<u8> },
    /// Store the record `key` with `value`, without publisher or expiry.
    PutRecord { key: Vec<u8>, value: Vec<u8> },
    /// Announce this node as a provider of `key`.
    StartProviding { key: Vec<u8> },
}

/// A request by the bytes of its key and value.
pub enum KadRequestModel {
    GetRecord { key: Seq<u8> },
    GetProviders { key: Seq<u8> },
    PutRecord { key: Seq<u8>, value: Seq<u8> },
    StartProviding { key: Seq<u8> },
}

impl View for KadRequest {
    type V = KadRequestModel;

    open spec fn view(&self) -> KadRequestModel {
        match self {
            KadRequest::GetRecord { key } => KadRequestModel::GetRecord { key: key@ },
            KadRequest::GetProviders { key } => KadRequestModel::GetProviders { key: key@ },
            KadRequest::PutRecord { key, value } => KadRequestModel::PutRecord {
                key: key@,
                value: value@,
            },
            KadRequest::StartProviding { key } => KadRequestModel::StartProviding { key: key@ },
        }
    }
}

/// Why a console command was not understood.
#[derive(Debug, Clone, Copy, PartialEq, Eq, Structural)]
pub enum InputError {
    /// The command needs a key.
    ExpectedKey,
    /// The command needs a value after its key.
    ExpectedValue,
    /// The first word is no command.
    UnknownCommand,
}

impl InputError {
    /// The message that reports the error.
    pub fn message(&self) -> (r: String)
        ensures
            r@ == match self {
                InputError::ExpectedKey => "Expected key"@,
                InputError::ExpectedValue => "Expected value"@,
                InputError::UnknownCommand => "expected GET, GET_PROVIDERS, PUT or PUT_PROVIDER"@,
            },
    {
        match self {
            InputError::ExpectedKey => String::from_str("Expected key"),
            InputError::ExpectedValue => String::from_str("Expected value"),
            InputError::UnknownCommand => String::from_str(
                "expected GET, GET_PROVIDERS, PUT or PUT_PROVIDER",
            ),
        }
    }
}

/// The request that the console line with bytes `b` asks for: the first
/// space-separated word names the command, the second is the key, and for
/// `PUT` the third is the value; further words are ignored.
pub open spec fn spec_input_request(b: Seq<u8>) -> Result<KadRequestModel, InputError> {
    let command = first_word(b);
    let rest = after_word(b);
    if command == word_get() || command == word_get_providers() || command == word_put()
        || command == word_put_provider() {
        match rest {
            None => Err(InputError::ExpectedKey),
            Some(r1) => {
                let key = first_word(r1);
                if command == word_get() {
                    Ok(KadRequestModel::GetRecord { key })
                } else if command == word_get_providers() {
                    Ok(KadRequestModel::GetProviders { key })
                } else if command == word_put_provider() {
                    Ok(KadRequestModel::StartProviding { key })
                } else {
                    match after_word(r1) {
                        None => Err(InputError::ExpectedValue),
                        Some(r2) => Ok(KadRequestModel::PutRecord { key, value: first_word(r2) }),
                    }
                }
            },
        }
    } else {
        Err(InputError::UnknownCommand)
    }
}

/// Where the first space of `s` stands, found by scanning up to `i`.
proof fn lemma_space_index(s: Seq<u8>, i: int)
    requires
        0 <= i <= s.len(),
        forall|j: int| 0 <= j < i ==> s[j] != space(),
        i < s.len() ==> s[i] == space(),
    ensures
        space_index(s) == if i < s.len() {
            Some(i)
        } else {
            None::<int>
        },
    decreases i,
{
    if i > 0 {
        let t = s.drop_first();
        assert forall|j: int| 0 <= j < i - 1 implies t[j] != space() by {
            assert(t[j] == s[j + 1]);
        }
        if i < s.len() {
            assert(t[i - 1] == s[i]);
        }
        lemma_space_index(t, i - 1);
    }
}

/// The end of the word that starts at `start` in `b`, and where the next word
/// starts if a space follows it.
fn next_word(b: &[u8], start: usize) -> (r: (usize, Option<usize>))
    requires
        start <= b@.len(),
    ensures
        start <= r.0 <= b@.len(),
        b@.subrange(start as int, r.0 as int) == first_word(b@.skip(start as int)),
        match r.1 {
            Some(n) => n == r.0 + 1 && n <= b@.len() && after_word(b@.skip(start as int)) == Some(
                b@.skip(n as int),
            ),
            None => after_word(b@.skip(start as int)) is None,
        },
{
    let ghost s = b@.skip(start as int);
    let mut i = start;
    while i < b.len() && b[i] != 32u8
        invariant
            start <= i <= b@.len(),
            s == b@.skip(start as int),
            forall|j: int| start <= j < i ==> b@[j] != space(),
        decreases b@.len() - i,
    {
        i = i + 1;
    }
    proof {
        assert forall|j: int| 0 <= j < i - start implies s[j] != space() by {
            assert(s[j] == b@[j + start]);
        }
        if i < b.len() {
            assert(s[i - start] == b@[i as int]);
        }
        lemma_space_index(s, i - start);
        assert(b@.subrange(start as int, i as int) =~= s.take(i - start));
    }
    if i < b.len() {
        proof {
            assert(b@.skip(i + 1) =~= s.skip(i - start + 1));
        }
        (i, Some(i + 1))
    } else {
        proof {
            assert(b@.subrange(start as int, i as int) =~= s);
        }
        (i, None)
    }
}

/// The bytes of `b` from `from` up to `to`.
fn copy_bytes(b: &[u8], from: usize, to: usize) -> (r: Vec<u8>)
    requires
        from <= to <= b@.len(),
    ensures
        r@ == b@.subrange(from as int, to as int),
{
    let mut r: Vec<u8> = Vec::new();
    let mut i = from;
    while i < to
        invariant
            from <= i <= to <= b@.len(),
            r@ == b@.subrange(from as int, i as int),
        decreases to - i,
    {
        r.push(b[i]);
        i = i + 1;
        proof {
            assert(r@ =~= b@.subrange(from as int, i as int));
        }
    }
    r
}

/// Whether the bytes of `b` from `from` up to `to` spell `word`.
fn spells(b: &[u8], from: usize, to: usize, word: &Vec<u8>) -> (r: bool)
    requires
        from <= to <= b@.len(),
    ensures
        r == (b@.subrange(from as int, to as int) == word@),
{
    if to - from != word.len() {
        proof {
            assert(b@.subrange(from as int, to as int).len() != word@.len());
        }
        return false;
    }
    let mut i: usize = 0;
    while i < word.len()
        invariant
            from <= to <= b@.len(),
            to - from == word@.len(),
            i <= word@.len(),
            forall|j: int| 0 <= j < i ==> b@[from + j] == word@[j],
        decreases word@.len() - i,
    {
        if b[from + i] != word[i] {
            proof {
                assert(b@.subrange(from as int, to as int)[i as int] != word@[i as int]);
            }
            return false;
        }
        i = i + 1;
    }
    proof {
        assert(b@.subrange(from as int, to as int) =~= word@);
    }
    true
}

impl Builder {
    /// Reads a console line: `GET key`, `GET_PROVIDERS key`, `PUT key value`
    /// or `PUT_PROVIDER key`, words separated by single spaces.
    pub fn handle_input(&self, input: &str) -> (r: Result<KadRequest, InputError>)
        ensures
            match r {
                Ok(q) => spec_input_request(input.spec_bytes()) == Ok::<
                    KadRequestModel,
                    InputError,
                >(q@),
                Err(e) => spec_input_request(input.spec_bytes()) == Err::<
                    KadRequestModel,
                    InputError,
                >(e),
            },
    {
        let b = input.as_bytes();
        proof {
            assert(b@.skip(0) =~= b@);
        }
        let (end0, next0) = next_word(b, 0);
        let get: Vec<u8> = vec![71u8, 69, 84];
        let get_providers: Vec<u8> = vec![71u8, 69, 84, 95, 80, 82, 79, 86, 73, 68, 69, 82, 83];
        let put: Vec<u8> = vec![80u8, 85, 84];
        let put_provider: Vec<u8> = vec![80u8, 85, 84, 95, 80, 82, 79, 86, 73, 68, 69, 82];
        proof {
            assert(get@ =~= word_get());
            assert(get_providers@ =~= word_get_providers());
            assert(put@ =~= word_put());
            assert(put_provider@ =~= word_put_provider());
        }
        let is_get = spells(b, 0, end0, &get);
        let is_get_providers = spells(b, 0, end0, &get_providers);
        let is_put = spells(b, 0, end0, &put);
        let is_put_provider = spells(b, 0, end0, &put_provider);
        if !(is_get || is_get_providers || is_put || is_put_provider) {
            return Err(InputError::UnknownCommand);
        }
        let start1 = match next0 {
            Some(n) => n,
            None => {
                return Err(InputError::ExpectedKey);
            },
        };
        let (end1, next1) = next_word(b, start1);
        let key = copy_bytes(b, start1, end1);
        if is_get {
            Ok(KadRequest::GetRecord { key })
        } else if is_get_providers {
            Ok(KadRequest::GetProviders { key })
        } else if is_put_provider {
            Ok(KadRequest::StartProviding { key })
        } else {
            let start2 = match next1 {
                Some(n) => n,
                None => {
                    return Err(InputError::ExpectedValue);
                },
            };
            let (end2, _next2) = next_word(b, start2);
            let value = copy_bytes(b, start2, end2);
            Ok(KadRequest::PutRecord { key, value })
        }
    }
}

/// What the node should do with its network: add addresses of discovered
/// peers to its routing table, or report an outcome on its console.
#[derive(Debug, PartialEq, Eq)]
pub enum NodeAction {
    /// Add each address to the routing table under its peer.
    AddAddresses(Vec<(PeerId, Multiaddr)>),
    /// Report on the console.
    Report(Report),
}

/// An outcome to report on the console.
#[derive(Debug, PartialEq, Eq)]
pub enum Report {
    /// Each of `providers` provides `key`.
    ProvidersFound { key: Vec<u8>, providers: Vec<PeerId> },
    /// Looking providers up failed.
    GetProvidersFailed { error: String },
    /// Each of these records was found.
    RecordsFound { records: Vec<PeerRecord> },
    /// Looking a record up failed.
    GetRecordFailed { error: String },
    /// The record of `key` was stored.
    RecordStored { key: Vec<u8> },
    /// Storing a record failed.
    PutRecordFailed { error: String },
    /// This node provides `key`.
    ProviderStored { key: Vec<u8> },
    /// Announcing this node as a provider failed.
    StartProvidingFailed { error: String },
    /// An event of the identify protocol.
    Identify { description: String },
    /// A published message `data` with identifier `id` arrived from `peer`.
    Message { data: Vec<u8>, id: String, peer: PeerId },
    /// A ping to `peer` took `rtt_millis` milliseconds.
    PingRtt { peer: PeerId, rtt_millis: u128 },
    /// `peer` answered a ping.
    Pong { peer: PeerId },
    /// A ping to `peer` timed out.
    PingTimeout { peer: PeerId },
    /// `peer` does not speak the ping protocol.
    PingUnsupported { peer: PeerId },
    /// A ping to `peer` failed with `error`.
    PingFailure { peer: PeerId, error: String },
}

impl Report {
    /// Whether the report goes to the error stream: the failures of the
    /// distributed hash table do; everything else goes to the output.
    pub open spec fn spec_to_stderr(&self) -> bool {
        match self {
            Report::GetProvidersFailed { .. } | Report::GetRecordFailed { .. }
            | Report::PutRecordFailed { .. } | Report::StartProvidingFailed { .. } => true,
            _ => false,
        }
    }

    pub fn to_stderr(&self) -> (r: bool)
        ensures
            r == self.spec_to_stderr(),
    {
        match self {
            Report::GetProvidersFailed { .. } | Report::GetRecordFailed { .. }
            | Report::PutRecordFailed { .. } | Report::StartProvidingFailed { .. } => true,
            _ => false,
        }
    }
}

/// The line that says `peer` provides the key with text `key`.
pub open spec fn provider_line(peer: PeerId, key: Seq<char>) -> Seq<char> {
    "Peer "@ + peer_debug(peer) + " provides key "@ + debug_text(key)
}

/// The lines for the providers of the key with bytes `key`: one per provider,
/// in order. Where there is a provider and the key is no UTF-8 text, there is
/// no line and the report cannot be written whole (`false`).
pub open spec fn provider_lines(key: Seq<u8>, providers: Seq<PeerId>) -> (Seq<Seq<char>>, bool) {
    if providers.len() == 0 {
        (Seq::empty(), true)
    } else {
        match utf8_text(key) {
            Some(k) => (Seq::new(providers.len(), |i: int| provider_line(providers[i], k)), true),
            None => (Seq::empty(), false),
        }
    }
}

/// The line of a found record with key text `key` and value text `value`.
pub open spec fn record_line(key: Seq<char>, value: Seq<char>) -> Seq<char> {
    "Got record "@ + debug_text(key) + " "@ + debug_text(value)
}

/// The lines of `records`, one per record in order, up to the first record
/// whose key or value is no UTF-8 text; and whether every record was written.
pub open spec fn record_lines(records: Seq<PeerRecord>) -> (Seq<Seq<char>>, bool)
    decreases records.len(),
{
    if records.len() == 0 {
        (Seq::empty(), true)
    } else {
        let (lines, whole) = record_lines(records.drop_last());
        let last = records.last();
        match (utf8_text(last.key@), utf8_text(last.value@)) {
            (Some(k), Some(v)) => if whole {
                (lines.push(record_line(k, v)), true)
            } else {
                (lines, false)
            },
            _ => (lines, false),
        }
    }
}

/// The line `prefix` followed by the key with bytes `key` as `{:?}` writes
/// its text; no line and `false` where the key is no UTF-8 text.
pub open spec fn stored_lines(prefix: Seq<char>, key: Seq<u8>) -> (Seq<Seq<char>>, bool) {
    match utf8_text(key) {
        Some(k) => (seq![prefix + debug_text(k)], true),
        None => (Seq::empty(), false),
    }
}

impl Report {
    /// The console lines of the report, and whether it is written whole:
    /// a key or value that is no UTF-8 text stops the report there, after
    /// the lines before it.
    pub open spec fn spec_lines(&self) -> (Seq<Seq<char>>, bool) {
        match self {
            Report::ProvidersFound { key, providers } => provider_lines(key@, providers@),
            Report::GetProvidersFailed { error } => (
                seq!["Failed to get providers: "@ + error@],
                true,
            ),
            Report::RecordsFound { records } => record_lines(records@),
            Report::GetRecordFailed { error } => (seq!["Failed to get record: "@ + error@], true),
            Report::RecordStored { key } => stored_lines("Successfully put record "@, key@),
            Report::PutRecordFailed { error } => (seq!["Failed to put record: "@ + error@], true),
            Report::ProviderStored { key } => stored_lines(
                "Successfully put provider record "@,
                key@,
            ),
            Report::StartProvidingFailed { error } => (
                seq!["Failed to put provider record: "@ + error@],
                true,
            ),
            Report::Identify { description } => (seq!["identify: "@ + description@], true),
            Report::Message { data, id, peer } => (
                seq![
                    "Got message: "@ + lossy_text(data@) + " with id: "@ + id@ + " from peer: "@
                        + peer_debug(*peer),
                ],
                true,
            ),
            Report::PingRtt { peer, rtt_millis } => (
                seq![
                    "ping: rtt to "@ + base58(peer.0@) + " is "@ + decimal(*rtt_millis as nat)
                        + " ms"@,
                ],
                true,
            ),
            Report::Pong { peer } => (seq!["ping: pong from "@ + base58(peer.0@)], true),
            Report::PingTimeout { peer } => (seq!["ping: timeout to "@ + base58(peer.0@)], true),
            Report::PingUnsupported { peer } => (
                seq!["ping: "@ + base58(peer.0@) + " does not support ping protocol"@],
                true,
            ),
            Report::PingFailure { peer, error } => (
                seq!["ping: ping::Failure with "@ + base58(peer.0@) + ": "@ + error@],
                true,
            ),
        }
    }

    /// The console lines of the report, each without its line break, and
    /// whether the report is written whole. The lines go to the error stream
    /// where `to_stderr` says so, else to the output.
    pub fn lines(&self) -> (r: (Vec<String>, bool))
        ensures
            r.0@.map_values(|s: String| s@) == self.spec_lines().0,
            r.1 == self.spec_lines().1,
    {
        match self {
            Report::ProvidersFound { key, providers } => provider_lines_of(key, providers),
            Report::GetProvidersFailed { error } => one_line(
                joined("Failed to get providers: ", error.as_str()),
            ),
            Report::RecordsFound { records } => record_lines_of(records),
            Report::GetRecordFailed { error } => one_line(
                joined("Failed to get record: ", error.as_str()),
            ),
            Report::RecordStored { key } => stored_lines_of("Successfully put record ", key),
            Report::PutRecordFailed { error } => one_line(
                joined("Failed to put record: ", error.as_str()),
            ),
            Report::ProviderStored { key } => stored_lines_of(
                "Successfully put provider record ",
                key,
            ),
            Report::StartProvidingFailed { error } => one_line(
                joined("Failed to put provider record: ", error.as_str()),
            ),
            Report::Identify { description } => one_line(
                joined("identify: ", description.as_str()),
            ),
            Report::Message { data, id, peer } => {
                let text = decode_utf8_lossy(data.as_slice());
                let mut line = joined("Got message: ", text.as_str());
                line.append(" with id: ");
                line.append(id.as_str());
                line.append(" from peer: ");
                let who = peer_debug_string(peer);
                line.append(who.as_str());
                one_line(line)
            },
            Report::PingRtt { peer, rtt_millis } => {
                let who = encode_base58(peer.0.as_slice());
                let mut line = joined("ping: rtt to ", who.as_str());
                line.append(" is ");
                let ms = decimal_string(*rtt_millis);
                line.append(ms.as_str());
                line.append(" ms");
                one_line(line)
            },
            Report::Pong { peer } => {
                let who = encode_base58(peer.0.as_slice());
                one_line(joined("ping: pong from ", who.as_str()))
            },
            Report::PingTimeout { peer } => {
                let who = encode_base58(peer.0.as_slice());
                one_line(joined("ping: timeout to ", who.as_str()))
            },
            Report::PingUnsupported { peer } => {
                let who = encode_base58(peer.0.as_slice());
                let mut line = joined("ping: ", who.as_str());
                line.append(" does not support ping protocol");
                one_line(line)
            },
            Report::PingFailure { peer, error } => {
                let who = encode_base58(peer.0.as_slice());
                let mut line = joined("ping: ping::Failure with ", who.as_str());
                line.append(": ");
                line.append(error.as_str());
                one_line(line)
            },
        }
    }
}

fn joined(first: &str, second: &str) -> (r: String)
    ensures
        r@ == first@ + second@,
{
    let mut s = String::from_str(first);
    s.append(second);
    s
}

fn one_line(line: String) -> (r: (Vec<String>, bool))
    ensures
        r.0@.map_values(|s: String| s@) == seq![line@],
        r.1,
{
    let ghost text = line@;
    let mut lines: Vec<String> = Vec::new();
    lines.push(line);
    assert(lines@.map_values(|s: String| s@) =~= seq![text]);
    (lines, true)
}

fn stored_lines_of(prefix: &str, key: &Vec<u8>) -> (r: (Vec<String>, bool))
    ensures
        r.0@.map_values(|s: String| s@) == stored_lines(prefix@, key@).0,
        r.1 == stored_lines(prefix@, key@).1,
{
    match decode_utf8(key.as_slice()) {
        Some(k) => {
            let shown = debug_string(k.as_str());
            one_line(joined(prefix, shown.as_str()))
        },
        None => {
            let lines: Vec<String> = Vec::new();
            assert(lines@.map_values(|s: String| s@) =~= Seq::<Seq<char>>::empty());
            (lines, false)
        },
    }
}

fn provider_lines_of(key: &Vec<u8>, providers: &Vec<PeerId>) -> (r: (Vec<String>, bool))
    ensures
        r.0@.map_values(|s: String| s@) == provider_lines(key@, providers@).0,
        r.1 == provider_lines(key@, providers@).1,
{
    let mut lines: Vec<String> = Vec::new();
    assert(lines@.map_values(|s: String| s@) =~= Seq::<Seq<char>>::empty());
    if providers.len() == 0 {
        return (lines, true);
    }
    let text = match decode_utf8(key.as_slice()) {
        Some(t) => t,
        None => {
            return (lines, false);
        },
    };
    let shown = debug_string(text.as_str());
    let mut i: usize = 0;
    while i < providers.len()
        invariant
            i <= providers.len(),
            utf8_text(key@) == Some(text@),
            shown@ == debug_text(text@),
            lines@.map_values(|s: String| s@) == Seq::new(
                i as nat,
                |j: int| provider_line(providers@[j], text@),
            ),
        decreases providers.len() - i,
    {
        let ghost before = lines@.map_values(|s: String| s@);
        let mut line = String::from_str("Peer ");
        let who = peer_debug_string(&providers[i]);
        line.append(who.as_str());
        line.append(" provides key ");
        line.append(shown.as_str());
        assert(line@ == provider_line(providers@[i as int], text@));
        lines.push(line);
        assert(lines@.map_values(|s: String| s@) =~= before.push(
            provider_line(providers@[i as int], text@),
        ));
        i = i + 1;
        assert(lines@.map_values(|s: String| s@) =~= Seq::new(
            i as nat,
            |j: int| provider_line(providers@[j], text@),
        ));
    }
    assert(Seq::new(i as nat, |j: int| provider_line(providers@[j], text@)) =~= provider_lines(
        key@,
        providers@,
    ).0);
    (lines, true)
}

fn record_lines_of(records: &Vec<PeerRecord>) -> (r: (Vec<String>, bool))
    ensures
        r.0@.map_values(|s: String| s@) == record_lines(records@).0,
        r.1 == record_lines(records@).1,
{
    let mut lines: Vec<String> = Vec::new();
    let mut whole = true;
    let mut i: usize = 0;
    assert(records@.subrange(0, 0) =~= Seq::<PeerRecord>::empty());
    assert(lines@.map_values(|s: String| s@) =~= Seq::<Seq<char>>::empty());
    while i < records.len()
        invariant
            i <= records.len(),
            lines@.map_values(|s: String| s@) == record_lines(records@.subrange(0, i as int)).0,
            whole == record_lines(records@.subrange(0, i as int)).1,
        decreases records.len() - i,
    {
        let ghost before = lines@.map_values(|s: String| s@);
        assert(records@.subrange(0, i + 1).drop_last() =~= records@.subrange(0, i as int));
        assert(records@.subrange(0, i + 1).last() == records@[i as int]);
        let key = decode_utf8(records[i].key.as_slice());
        let value = decode_utf8(records[i].value.as_slice());
        match (key, value) {
            (Some(k), Some(v)) => {
                if whole {
                    let mut line = String::from_str("Got record ");
                    let shown_key = debug_string(k.as_str());
                    line.append(shown_key.as_str());
                    line.append(" ");
                    let shown_value = debug_string(v.as_str());
                    line.append(shown_value.as_str());
                    lines.push(line);
                    assert(lines@.map_values(|s: String| s@) =~= before.push(
                        record_line(k@, v@),
                    ));
                }
            },
            _ => {
                whole = false;
            },
        }
        i = i + 1;
    }
    assert(records@.subrange(0, records.len() as int) =~= records@);
    (lines, whole)
}

/// What the node does with an event: it adds discovered peers to its
/// routing table, reports completed queries, identify events, published
/// messages and pings, and ignores everything else.
pub open spec fn spec_handle_event(event: Event) -> Option<NodeAction> {
    match event {
        Event::Mdns(MdnsEvent::Discovered(list)) => Some(NodeAction::AddAddresses(list)),
        Event::Mdns(MdnsEvent::Expired(_)) => None,
        Event::Kademlia(KademliaEvent::OutboundQueryCompleted { result }) => match result {
            QueryResult::GetProviders(Ok(ok)) => Some(
                NodeAction::Report(Report::ProvidersFound { key: ok.key, providers: ok.providers }),
            ),
            QueryResult::GetProviders(Err(error)) => Some(
                NodeAction::Report(Report::GetProvidersFailed { error }),
            ),
            QueryResult::GetRecord(Ok(records)) => Some(
                NodeAction::Report(Report::RecordsFound { records }),
            ),
            QueryResult::GetRecord(Err(error)) => Some(
                NodeAction::Report(Report::GetRecordFailed { error }),
            ),
            QueryResult::PutRecord(Ok(key)) => Some(NodeAction::Report(Report::RecordStored { key })),
            QueryResult::PutRecord(Err(error)) => Some(
                NodeAction::Report(Report::PutRecordFailed { error }),
            ),
            QueryResult::StartProviding(Ok(key)) => Some(
                NodeAction::Report(Report::ProviderStored { key }),
            ),
            QueryResult::StartProviding(Err(error)) => Some(
                NodeAction::Report(Report::StartProvidingFailed { error }),
            ),
            QueryResult::Other => None,
        },
        Event::Kademlia(KademliaEvent::Other) => None,
        Event::Identify(e) => Some(NodeAction::Report(Report::Identify { description: e.description })),
        Event::Gossipsub(GossipsubEvent::Message { propagation_source, message_id, data }) => Some(
            NodeAction::Report(Report::Message { data, id: message_id, peer: propagation_source }),
        ),
        Event::Gossipsub(GossipsubEvent::Other) => None,
        Event::Ping(p) => Some(
            NodeAction::Report(
                match p.result {
                    PingResult::Ping { rtt_millis } => Report::PingRtt { peer: p.peer, rtt_millis },
                    PingResult::Pong => Report::Pong { peer: p.peer },
                    PingResult::Timeout => Report::PingTimeout { peer: p.peer },
                    PingResult::Unsupported => Report::PingUnsupported { peer: p.peer },
                    PingResult::Other { error } => Report::PingFailure { peer: p.peer, error },
                },
            ),
        ),
    }
}

impl Builder {
    /// Decides what to do with a network event.
    pub fn handle_event(&self, event: Event) -> (r: Option<NodeAction>)
        ensures
            r == spec_handle_event(event),
            event matches Event::Mdns(MdnsEvent::Expired(_)) ==> r is None,
            r matches Some(NodeAction::AddAddresses(list)) ==> event == Event::Mdns(
                MdnsEvent::Discovered(list),
            ),
    {
        match event {
            Event::Mdns(MdnsEvent::Discovered(list)) => Some(NodeAction::AddAddresses(list)),
            Event::Mdns(MdnsEvent::Expired(_)) => None,
            Event::Kademlia(KademliaEvent::OutboundQueryCompleted { result }) => match result {
                QueryResult::GetProviders(Ok(ok)) => Some(
                    NodeAction::Report(
                        Report::ProvidersFound { key: ok.key, providers: ok.providers },
                    ),
                ),
                QueryResult::GetProviders(Err(error)) => Some(
                    NodeAction::Report(Report::GetProvidersFailed { error }),
                ),
                QueryResult::GetRecord(Ok(records)) => Some(
                    NodeAction::Report(Report::RecordsFound { records }),
                ),
                QueryResult::GetRecord(Err(error)) => Some(
                    NodeAction::Report(Report::GetRecordFailed { error }),
                ),
                QueryResult::PutRecord(Ok(key)) => Some(
                    NodeAction::Report(Report::RecordStored { key }),
                ),
                QueryResult::PutRecord(Err(error)) => Some(
                    NodeAction::Report(Report::PutRecordFailed { error }),
                ),
                QueryResult::StartProviding(Ok(key)) => Some(
                    NodeAction::Report(Report::ProviderStored { key }),
                ),
                QueryResult::StartProviding(Err(error)) => Some(
                    NodeAction::Report(Report::StartProvidingFailed { error }),
                ),
                QueryResult::Other => None,
            },
            Event::Kademlia(KademliaEvent::Other) => None,
            Event::Identify(e) => Some(
                NodeAction::Report(Report::Identify { description: e.description }),
            ),
            Event::Gossipsub(GossipsubEvent::Message { propagation_source, message_id, data }) => {
                Some(
                    NodeAction::Report(
                        Report::Message { data, id: message_id, peer: propagation_source },
                    ),
                )
            },
            Event::Gossipsub(GossipsubEvent::Other) => None,
            Event::Ping(p) => {
                let peer = p.peer;
                let report = match p.result {
                    PingResult::Ping { rtt_millis } => Report::PingRtt { peer, rtt_millis },
                    PingResult::Pong => Report::Pong { peer },
                    PingResult::Timeout => Report::PingTimeout { peer },
                    PingResult::Unsupported => Report::PingUnsupported { peer },
                    PingResult::Other { error } => Report::PingFailure { peer, error },
                };
                Some(NodeAction::Report(report))
            },
        }
    }
}

/// Only peers that mDNS discovered are added to the routing table, each
/// with exactly the addresses it was discovered at; peers whose records
/// expired are ignored, whatever their list.
pub proof fn lemma_only_discovered_peers_are_added(event: Event)
    ensures
        event matches Event::Mdns(MdnsEvent::Expired(_)) ==> spec_handle_event(event) is None,
        event matches Event::Mdns(MdnsEvent::Discovered(list)) ==> spec_handle_event(event)
            == Some(NodeAction::AddAddresses(list)),
        spec_handle_event(event) matches Some(NodeAction::AddAddresses(list)) ==> event
            == Event::Mdns(MdnsEvent::Discovered(list)),
{
}

/// `b` holds a word from `i` to `j`: no space inside, and a space or the end
/// of `b` right after it.
pub open spec fn word_at(b: Seq<u8>, i: int, j: int) -> bool {
    &&& 0 <= i <= j <= b.len()
    &&& forall|k: int| i <= k < j ==> b[k] != space()
    &&& j == b.len() || b[j] == space()
}

/// `space_index` finds the first space, or tells that there is none.
proof fn lemma_space_index_first(s: Seq<u8>)
    ensures
        match space_index(s) {
            Some(i) => 0 <= i < s.len() && s[i] == space() && forall|k: int|
                0 <= k < i ==> s[k] != space(),
            None => forall|k: int| 0 <= k < s.len() ==> s[k] != space(),
        },
    decreases s.len(),
{
    if s.len() > 0 {
        let t = s.drop_first();
        lemma_space_index_first(t);
        if s[0] != space() {
            assert forall|k: int| 1 <= k < s.len() implies s[k] == t[k - 1] by {}
        }
    }
}

/// The word of `b` that starts at `start`, where it ends, and what follows.
proof fn lemma_word_from(b: Seq<u8>, start: int) -> (end: int)
    requires
        0 <= start <= b.len(),
    ensures
        word_at(b, start, end),
        first_word(b.skip(start)) == b.subrange(start, end),
        after_word(b.skip(start)) == if end < b.len() {
            Some(b.skip(end + 1))
        } else {
            None::<Seq<u8>>
        },
{
    let s = b.skip(start);
    lemma_space_index_first(s);
    match space_index(s) {
        Some(i) => {
            assert forall|k: int| start <= k < start + i implies b[k] != space() by {
                assert(b[k] == s[k - start]);
            }
            assert(s.take(i) =~= b.subrange(start, start + i));
            assert(s.skip(i + 1) =~= b.skip(start + i + 1));
            start + i
        },
        None => {
            assert forall|k: int| start <= k < b.len() implies b[k] != space() by {
                assert(b[k] == s[k - start]);
            }
            assert(s =~= b.subrange(start, b.len() as int));
            b.len() as int
        },
    }
}

/// A request read from a console line takes its words from the line as they
/// stand, byte for byte: the command runs up to the first space, the key
/// from there to the next space or the end, and a record's value from there
/// to the next space or the end. The returned triple gives where the
/// command, the key and the value end.
pub proof fn lemma_request_words(b: Seq<u8>) -> (ends: (int, int, int))
    requires
        spec_input_request(b) is Ok,
    ensures
        word_at(b, 0, ends.0),
        ends.0 < b.len(),
        word_at(b, ends.0 + 1, ends.1),
        match spec_input_request(b) {
            Ok(KadRequestModel::GetRecord { key }) => b.take(ends.0) == word_get() && key
                == b.subrange(ends.0 + 1, ends.1),
            Ok(KadRequestModel::GetProviders { key }) => b.take(ends.0) == word_get_providers()
                && key == b.subrange(ends.0 + 1, ends.1),
            Ok(KadRequestModel::StartProviding { key }) => b.take(ends.0) == word_put_provider()
                && key == b.subrange(ends.0 + 1, ends.1),
            Ok(KadRequestModel::PutRecord { key, value }) => {
                &&& b.take(ends.0) == word_put()
                &&& key == b.subrange(ends.0 + 1, ends.1)
                &&& ends.1 < b.len()
                &&& word_at(b, ends.1 + 1, ends.2)
                &&& value == b.subrange(ends.1 + 1, ends.2)
            },
            Err(_) => false,
        },
{
    assert(b.skip(0) =~= b);
    let c = lemma_word_from(b, 0);
    assert(b.subrange(0, c) =~= b.take(c));
    let k = lemma_word_from(b, c + 1);
    if k < b.len() {
        let v = lemma_word_from(b, k + 1);
        (c, k, v)
    } else {
        (c, k, k)
    }
}

/// What is needed to build the node's protocols: its identity and key.
#[derive(Debug, PartialEq, Eq)]
pub struct Builder {
    pub peer: PeerId,
    pub key: PublicKey,
}

impl Builder {
    pub fn new(peer: PeerId, key: PublicKey) -> (r: Self)
        ensures
            r == (Builder { peer, key }),
    {
        Builder { peer, key }
    }
}

} // verus!
