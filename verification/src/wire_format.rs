use vstd::prelude::*;

verus! {

// Mathematical model of the wire text format.  A frame is a sequence of
// characters; a packet is one of the variants below, carrying its text
// components as character sequences.  The executable codec in
// `my_socket_io_message` is specified against `encode_message` and
// `decode_message`.

/// The text components of a `Message`/`Ack` frame: an optional namespace
/// (starting with '/'), an optional acknowledgement id (decimal digits), and
/// the raw JSON array text, kept byte-for-byte.
#[verifier::ext_equal]
pub struct PayloadView {
    pub nsp: Option<Seq<char>>,
    pub id: Option<Seq<char>>,
    pub data: Seq<char>,
}

/// Model of a decoded packet.
#[verifier::ext_equal]
pub enum MessageView {
    Ping,
    Pong,
    Disconnect,
    Connect(Option<Seq<char>>),
    GrantAccess { nsp: Option<Seq<char>>, sid: Seq<char> },
    RequestAccess(Option<Seq<char>>),
    Message(PayloadView),
    Ack(PayloadView),
}

/// Frames that carry a namespace or a payload can be truncated before the
/// terminator the format requires; such frames are protocol violations.
#[derive(PartialEq, Eq, Structural, Clone, Copy, Debug)]
pub enum ProtocolDecodeError {
    /// A '/'-prefixed namespace segment with no terminating ','.
    MissingNamespaceTerminator,
    /// A `Message`/`Ack` frame with no '[' opening the JSON array payload.
    MissingPayloadArray,
}

pub open spec fn is_digit(c: char) -> bool {
    48 <= c as u32 <= 57
}

/// The namespace part of an encoded frame: the namespace followed by ',' when
/// present, nothing when absent.
pub open spec fn nsp_part(nsp: Option<Seq<char>>) -> Seq<char> {
    match nsp {
        Some(n) => n + seq![','],
        None => Seq::empty(),
    }
}

/// The acknowledgement-id part of an encoded frame: the digits when present,
/// nothing when absent.
pub open spec fn id_part(id: Option<Seq<char>>) -> Seq<char> {
    match id {
        Some(d) => d,
        None => Seq::empty(),
    }
}

pub open spec fn encode_payload(p: PayloadView) -> Seq<char> {
    nsp_part(p.nsp) + id_part(p.id) + p.data
}

/// The single text frame that a packet encodes to.
pub open spec fn encode_message(m: MessageView) -> Seq<char> {
    match m {
        MessageView::Ping => seq!['2'],
        MessageView::Pong => seq!['3'],
        MessageView::Disconnect => seq!['4', '1'],
        MessageView::Connect(nsp) => seq!['4', '0'] + nsp_part(nsp),
        MessageView::GrantAccess { nsp, sid } => seq!['4', '0'] + nsp_part(nsp) + sid,
        MessageView::RequestAccess(nsp) => seq!['4', '0'] + nsp_part(nsp),
        MessageView::Message(p) => seq!['4', '2'] + encode_payload(p),
        MessageView::Ack(p) => seq!['4', '3'] + encode_payload(p),
    }
}

/// Index of the first occurrence of `c` in `s` at or after `start`.
pub open spec fn find_from(s: Seq<char>, start: int, c: char) -> Option<int>
    decreases s.len() - start,
{
    if start < 0 || start >= s.len() {
        None
    } else if s[start] == c {
        Some(start)
    } else {
        find_from(s, start + 1, c)
    }
}

/// First index at or after `start` that does not hold a decimal digit (the
/// frame length if digits run to the end).
pub open spec fn digits_end(s: Seq<char>, start: int) -> int
    decreases s.len() - start,
{
    if 0 <= start < s.len() && is_digit(s[start]) {
        digits_end(s, start + 1)
    } else {
        start
    }
}

/// Scan the optional namespace of a frame, starting right after the two-digit
/// prefix.  A namespace is announced by '/' at index 2 and runs to the first
/// ','; anything else at index 2 means "no namespace".  Returns the namespace
/// and the index of the first character after it.
pub open spec fn scan_nsp(s: Seq<char>) -> Result<(Option<Seq<char>>, int), ProtocolDecodeError> {
    if s.len() > 2 && s[2] == '/' {
        match find_from(s, 2, ',') {
            Some(comma) => Ok((Some(s.subrange(2, comma)), comma + 1)),
            None => Err(ProtocolDecodeError::MissingNamespaceTerminator),
        }
    } else {
        Ok((None, 2))
    }
}

/// Decode the rest of a `Message`/`Ack` frame once the namespace is known:
/// the next contiguous run of digits is the ack id (absent when empty), and
/// everything from the first '[' after that to the end is the payload text.
pub open spec fn decode_payload_from(s: Seq<char>, nsp: Option<Seq<char>>, pos: int) -> Result<
    PayloadView,
    ProtocolDecodeError,
> {
    let dend = digits_end(s, pos);
    let id = if dend > pos {
        Some(s.subrange(pos, dend))
    } else {
        None
    };
    match find_from(s, dend, '[') {
        Some(open) => Ok(PayloadView { nsp, id, data: s.subrange(open, s.len() as int) }),
        None => Err(ProtocolDecodeError::MissingPayloadArray),
    }
}

/// Decode the body of a `Message`/`Ack` frame (everything after the 2-char
/// prefix, which the caller has already dispatched on).
pub open spec fn decode_payload(s: Seq<char>) -> Result<PayloadView, ProtocolDecodeError> {
    match scan_nsp(s) {
        Ok((nsp, pos)) => decode_payload_from(s, nsp, pos),
        Err(e) => Err(e),
    }
}

/// Decode a "40" frame.  Exactly "40" carries no namespace; a '/' at index 2
/// announces one, terminated by ','; any other character at index 2 means "no
/// namespace" (such frames carry a session id instead).
pub open spec fn decode_connect(s: Seq<char>) -> Result<Option<MessageView>, ProtocolDecodeError> {
    if s.len() == 2 {
        Ok(Some(MessageView::Connect(None)))
    } else if s[2] == '/' {
        match find_from(s, 2, ',') {
            Some(comma) => Ok(Some(MessageView::Connect(Some(s.subrange(2, comma))))),
            None => Err(ProtocolDecodeError::MissingNamespaceTerminator),
        }
    } else {
        Ok(Some(MessageView::Connect(None)))
    }
}

/// Decode one frame: dispatch on the 1-2 character numeric prefix.  A prefix
/// that names no packet yields `Ok(None)`; a recognized frame that is
/// truncated before a required terminator yields an error.
pub open spec fn decode_message(s: Seq<char>) -> Result<Option<MessageView>, ProtocolDecodeError> {
    if s.len() >= 1 && s[0] == '2' {
        Ok(Some(MessageView::Ping))
    } else if s.len() >= 1 && s[0] == '3' {
        Ok(Some(MessageView::Pong))
    } else if s.len() >= 2 && s[0] == '4' && s[1] == '1' {
        Ok(Some(MessageView::Disconnect))
    } else if s.len() >= 2 && s[0] == '4' && s[1] == '0' {
        decode_connect(s)
    } else if s.len() >= 2 && s[0] == '4' && s[1] == '2' {
        match decode_payload(s) {
            Ok(p) => Ok(Some(MessageView::Message(p))),
            Err(e) => Err(e),
        }
    } else if s.len() >= 2 && s[0] == '4' && s[1] == '3' {
        match decode_payload(s) {
            Ok(p) => Ok(Some(MessageView::Ack(p))),
            Err(e) => Err(e),
        }
    } else {
        Ok(None)
    }
}

/// A payload whose encoding is lossless: the namespace starts with '/' and
/// holds no ',', the ack id is a non-empty run of digits, and the data is the
/// JSON array text, opening with '['.
pub open spec fn payload_wf(p: PayloadView) -> bool {
    &&& match p.nsp {
        Some(n) => n.len() >= 1 && n[0] == '/' && (forall|i: int|
            0 <= i < n.len() ==> n[i] != ','),
        None => true,
    }
    &&& match p.id {
        Some(d) => d.len() >= 1 && (forall|i: int| 0 <= i < d.len() ==> is_digit(#[trigger] d[i])),
        None => true,
    }
    &&& p.data.len() >= 1
    &&& p.data[0] == '['
}

pub proof fn lemma_find_from_found(s: Seq<char>, start: int, c: char, k: int)
    requires
        0 <= start <= k < s.len(),
        s[k] == c,
        forall|i: int| start <= i < k ==> s[i] != c,
    ensures
        find_from(s, start, c) == Some(k),
    decreases k - start,
{
    if start < k {
        lemma_find_from_found(s, start + 1, c, k);
    }
}

pub proof fn lemma_digits_end_at(s: Seq<char>, start: int, k: int)
    requires
        0 <= start <= k <= s.len(),
        forall|i: int| start <= i < k ==> is_digit(#[trigger] s[i]),
        k == s.len() || !is_digit(s[k]),
    ensures
        digits_end(s, start) == k,
    decreases k - start,
{
    if start < k {
        lemma_digits_end_at(s, start + 1, k);
    }
}

/// Decoding the id-and-data tail: if everything from `pos` on is exactly the
/// encoded ack id followed by the data, the decode recovers both.
proof fn lemma_decode_payload_tail(p: PayloadView, s: Seq<char>, pos: int)
    requires
        payload_wf(p),
        0 <= pos,
        pos + id_part(p.id).len() + p.data.len() == s.len(),
        s.subrange(pos, s.len() as int) =~= id_part(p.id) + p.data,
    ensures
        decode_payload_from(s, p.nsp, pos) == Ok::<PayloadView, ProtocolDecodeError>(
            PayloadView { nsp: p.nsp, id: p.id, data: p.data },
        ),
{
    let t = id_part(p.id) + p.data;
    let idlen = id_part(p.id).len() as int;
    assert forall|j: int| 0 <= j < t.len() implies s[pos + j] == t[j] by {
        assert(s.subrange(pos, s.len() as int)[j] == s[pos + j]);
    }
    assert forall|i: int| pos <= i < pos + idlen implies is_digit(#[trigger] s[i]) by {
        assert(s[i] == t[i - pos]);
        assert(t[i - pos] == id_part(p.id)[i - pos]);
    }
    assert(s[pos + idlen] == t[idlen] == p.data[0] == '[');
    assert(!is_digit('['));
    lemma_digits_end_at(s, pos, pos + idlen);
    assert(find_from(s, pos + idlen, '[') == Some(pos + idlen)) by {
        lemma_find_from_found(s, pos + idlen, '[', pos + idlen);
    }
    match p.id {
        Some(d) => {
            assert(s.subrange(pos, pos + idlen) =~= d);
        },
        None => {
            assert(idlen == 0);
        },
    }
    assert forall|j: int| 0 <= j < p.data.len() implies s[pos + idlen + j] == p.data[j] by {
        assert(s[pos + (idlen + j)] == t[idlen + j]);
    }
    assert(s.subrange(pos + idlen, s.len() as int) =~= p.data);
    assert(decode_payload_from(s, p.nsp, pos) matches Ok(q) && q =~= PayloadView {
        nsp: p.nsp,
        id: p.id,
        data: p.data,
    });
}

/// A well-formed payload body is decoded back exactly from behind any
/// two-character frame prefix.
pub proof fn lemma_decode_encode_payload(p: PayloadView, prefix: Seq<char>)
    requires
        payload_wf(p),
        prefix.len() == 2,
    ensures
        decode_payload(prefix + encode_payload(p)) == Ok::<PayloadView, ProtocolDecodeError>(p),
{
    let s = prefix + encode_payload(p);
    let t = id_part(p.id) + p.data;
    match p.nsp {
        Some(n) => {
            let k = 2 + n.len() as int;
            assert(s =~= (prefix + n + seq![',']) + t);
            assert(s[2] == n[0] == '/');
            assert(s[k] == ',');
            assert forall|i: int| 2 <= i < k implies s[i] != ',' by {
                assert(s[i] == n[i - 2]);
            }
            lemma_find_from_found(s, 2, ',', k);
            assert(s.subrange(2, k) =~= n);
            assert(s.subrange(k + 1, s.len() as int) =~= t);
            lemma_decode_payload_tail(p, s, k + 1);
            assert(decode_payload(s) matches Ok(q) && q =~= p);
        },
        None => {
            assert(s =~= prefix + t);
            assert(s.len() > 2);
            assert(s[2] == t[0]);
            match p.id {
                Some(d) => {
                    assert(t[0] == d[0]);
                    assert(is_digit(s[2]));
                    assert(s[2] != '/');
                },
                None => {
                    assert(t[0] == p.data[0] == '[');
                    assert(s[2] != '/');
                },
            }
            assert(s.subrange(2, s.len() as int) =~= t);
            lemma_decode_payload_tail(p, s, 2);
            assert(decode_payload(s) matches Ok(q) && q =~= p);
        },
    }
}

/// Round trip: every well-formed `Message`/`Ack` packet is decoded back
/// exactly from its own encoding, for every combination of present or absent
/// namespace and ack id.
pub proof fn lemma_message_round_trip(m: MessageView)
    requires
        match m {
            MessageView::Message(p) => payload_wf(p),
            MessageView::Ack(p) => payload_wf(p),
            _ => false,
        },
    ensures
        decode_message(encode_message(m)) == Ok::<Option<MessageView>, ProtocolDecodeError>(
            Some(m),
        ),
{
    match m {
        MessageView::Message(p) => {
            let s = seq!['4', '2'] + encode_payload(p);
            assert(s[0] == '4' && s[1] == '2');
            lemma_decode_encode_payload(p, seq!['4', '2']);
        },
        MessageView::Ack(p) => {
            let s = seq!['4', '3'] + encode_payload(p);
            assert(s[0] == '4' && s[1] == '3');
            lemma_decode_encode_payload(p, seq!['4', '3']);
        },
        _ => {
        },
    }
}

} // verus!
