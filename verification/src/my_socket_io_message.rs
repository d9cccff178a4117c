use vstd::prelude::*;

use crate::wire_format::{
    decode_message, decode_payload, digits_end, encode_message, encode_payload, find_from,
    is_digit, nsp_part, scan_nsp, MessageView, PayloadView, ProtocolDecodeError,
};

verus! {

/// The decoded body of a `Message`/`Ack` frame: optional namespace, raw JSON
/// array text, optional acknowledgement id.
pub struct MySocketIoTextMessage {
    pub nsp: Option<String>,
    pub data: String,
    pub id: Option<String>,
}

pub open spec fn opt_str_view(o: Option<String>) -> Option<Seq<char>> {
    match o {
        Some(s) => Some(s@),
        None => None,
    }
}

impl View for MySocketIoTextMessage {
    type V = PayloadView;

    open spec fn view(&self) -> PayloadView {
        PayloadView { nsp: opt_str_view(self.nsp), id: opt_str_view(self.id), data: self.data@ }
    }
}

/// A wire packet.  `Connect` doubles as the inbound access request for a
/// namespace; `GrantAccess` is the outbound acknowledgement carrying the
/// session id; `RequestAccess` is the client-side form of the same "40"
/// frame.
pub enum MySocketIoMessage {
    Ping,
    Pong,
    Disconnect,
    Connect(Option<String>),
    GrantAccess { nsp: Option<String>, sid: String },
    RequestAccess(Option<String>),
    Message(MySocketIoTextMessage),
    Ack(MySocketIoTextMessage),
}

impl View for MySocketIoMessage {
    type V = MessageView;

    open spec fn view(&self) -> MessageView {
        match self {
            MySocketIoMessage::Ping => MessageView::Ping,
            MySocketIoMessage::Pong => MessageView::Pong,
            MySocketIoMessage::Disconnect => MessageView::Disconnect,
            MySocketIoMessage::Connect(nsp) => MessageView::Connect(opt_str_view(*nsp)),
            MySocketIoMessage::GrantAccess { nsp, sid } => MessageView::GrantAccess {
                nsp: opt_str_view(*nsp),
                sid: sid@,
            },
            MySocketIoMessage::RequestAccess(nsp) => MessageView::RequestAccess(opt_str_view(*nsp)),
            MySocketIoMessage::Message(p) => MessageView::Message(p@),
            MySocketIoMessage::Ack(p) => MessageView::Ack(p@),
        }
    }
}

/// How an exec decode result is read as a model decode result.
pub open spec fn parse_result_view(r: Result<Option<MySocketIoMessage>, ProtocolDecodeError>) -> Result<
    Option<MessageView>,
    ProtocolDecodeError,
> {
    match r {
        Ok(Some(m)) => Ok(Some(m@)),
        Ok(None) => Ok(None),
        Err(e) => Err(e),
    }
}

/// Index of the first occurrence of `find_element` at or after `start_pos`.
pub(crate) fn find(raw: &str, start_pos: usize, find_element: char) -> (r: Option<usize>)
    requires
        start_pos <= raw@.len(),
    ensures
        match r {
            Some(i) => start_pos <= i < raw@.len() && find_from(raw@, start_pos as int, find_element)
                == Some(i as int),
            None => find_from(raw@, start_pos as int, find_element) is None,
        },
{
    let n = raw.unicode_len();
    let mut pos = start_pos;
    while pos < n
        invariant
            start_pos <= pos <= n,
            n == raw@.len(),
            find_from(raw@, start_pos as int, find_element) == find_from(
                raw@,
                pos as int,
                find_element,
            ),
        decreases n - pos,
    {
        if raw.get_char(pos) == find_element {
            return Some(pos);
        }
        pos = pos + 1;
    }
    None
}

pub(crate) fn is_number(c: char) -> (r: bool)
    ensures
        r == is_digit(c),
{
    let v = c as u32;
    48 <= v && v <= 57
}

/// Scan the optional '/'-prefixed, ','-terminated namespace of a frame; on
/// success also return the index of the first character after it.
pub(crate) fn extract_nsp(raw: &str) -> (r: Result<(Option<String>, usize), ProtocolDecodeError>)
    ensures
        match r {
            Ok(v) => scan_nsp(raw@) == Ok::<_, ProtocolDecodeError>(
                (opt_str_view(v.0), v.1 as int),
            ) && (v.1 <= raw@.len() || v.1 == 2),
            Err(e) => scan_nsp(raw@) == Err::<(Option<Seq<char>>, int), _>(e),
        },
{
    let n = raw.unicode_len();
    if n > 2 && raw.get_char(2) == '/' {
        match find(raw, 2, ',') {
            Some(comma) => {
                let nsp = raw.substring_char(2, comma).to_owned();
                Ok((Some(nsp), comma + 1))
            },
            None => Err(ProtocolDecodeError::MissingNamespaceTerminator),
        }
    } else {
        Ok((None, 2))
    }
}

/// Scan the run of decimal digits that starts at `start`: the ack id when
/// non-empty.  Also returns the index right after the run.
pub(crate) fn extract_ack_id(raw: &str, start: usize) -> (r: (Option<String>, usize))
    requires
        start <= raw@.len(),
    ensures
        r.1 as int == digits_end(raw@, start as int),
        start <= r.1 <= raw@.len(),
        opt_str_view(r.0) == (if digits_end(raw@, start as int) > start as int {
            Some(raw@.subrange(start as int, digits_end(raw@, start as int)))
        } else {
            None::<Seq<char>>
        }),
{
    let n = raw.unicode_len();
    let mut pos = start;
    while pos < n && is_number(raw.get_char(pos))
        invariant
            start <= pos <= n,
            n == raw@.len(),
            digits_end(raw@, start as int) == digits_end(raw@, pos as int),
        decreases n - pos,
    {
        pos = pos + 1;
    }
    if pos > start {
        let id = raw.substring_char(start, pos).to_owned();
        (Some(id), pos)
    } else {
        (None, pos)
    }
}

impl MySocketIoTextMessage {
    /// Decode the body of a `Message`/`Ack` frame (`src` still carries the
    /// two-character prefix, which is not inspected).
    pub fn parse(src: &str) -> (r: Result<Self, ProtocolDecodeError>)
        ensures
            match r {
                Ok(p) => decode_payload(src@) == Ok::<_, ProtocolDecodeError>(p@),
                Err(e) => decode_payload(src@) == Err::<PayloadView, _>(e),
            },
    {
        let n = src.unicode_len();
        if n < 2 {
            return Err(ProtocolDecodeError::MissingPayloadArray);
        }
        let (nsp, pos) = match extract_nsp(src) {
            Ok(v) => v,
            Err(e) => {
                return Err(e);
            },
        };
        let (id, dend) = extract_ack_id(src, pos);
        match find(src, dend, '[') {
            Some(open_array) => {
                let data = src.substring_char(open_array, n).to_owned();
                let p = MySocketIoTextMessage { nsp, data, id };
                proof {
                    assert(decode_payload(src@) matches Ok(q) && q =~= p@);
                }
                Ok(p)
            },
            None => Err(ProtocolDecodeError::MissingPayloadArray),
        }
    }

    /// Append this payload's encoding (namespace and ',' when present, then
    /// the ack id digits, then the JSON array text) to `dest`.
    pub fn serialize(&self, dest: &mut String)
        ensures
            final(dest)@ == old(dest)@ + encode_payload(self@),
    {
        proof {
            reveal_strlit(",");
        }
        if let Some(nsp) = &self.nsp {
            dest.append(nsp.as_str());
            dest.append(",");
        }
        if let Some(id) = &self.id {
            dest.append(id.as_str());
        }
        dest.append(self.data.as_str());
        proof {
            assert(dest@ =~= old(dest)@ + encode_payload(self@));
        }
    }
}

impl MySocketIoMessage {
    /// Encode this packet as its single text frame.
    pub fn to_string(&self) -> (r: String)
        ensures
            r@ == encode_message(self@),
    {
        match self {
            MySocketIoMessage::Ping => {
                proof {
                    reveal_strlit("2");
                }
                let r = String::from_str("2");
                proof {
                    assert(r@ =~= seq!['2']);
                }
                r
            },
            MySocketIoMessage::Pong => {
                proof {
                    reveal_strlit("3");
                }
                let r = String::from_str("3");
                proof {
                    assert(r@ =~= seq!['3']);
                }
                r
            },
            MySocketIoMessage::Disconnect => {
                proof {
                    reveal_strlit("41");
                }
                let r = String::from_str("41");
                proof {
                    assert(r@ =~= seq!['4', '1']);
                }
                r
            },
            MySocketIoMessage::Connect(nsp) => {
                let r = encode_connect_frame(nsp);
                proof {
                    assert(r@ =~= encode_message(self@));
                }
                r
            },
            MySocketIoMessage::RequestAccess(nsp) => {
                let r = encode_connect_frame(nsp);
                proof {
                    assert(r@ =~= encode_message(self@));
                }
                r
            },
            MySocketIoMessage::GrantAccess { nsp, sid } => {
                let mut r = encode_connect_frame(nsp);
                r.append(sid.as_str());
                proof {
                    assert(r@ =~= encode_message(self@));
                }
                r
            },
            MySocketIoMessage::Message(msg) => {
                proof {
                    reveal_strlit("42");
                }
                let mut r = String::from_str("42");
                proof {
                    assert(r@ =~= seq!['4', '2']);
                }
                msg.serialize(&mut r);
                r
            },
            MySocketIoMessage::Ack(msg) => {
                proof {
                    reveal_strlit("43");
                }
                let mut r = String::from_str("43");
                proof {
                    assert(r@ =~= seq!['4', '3']);
                }
                msg.serialize(&mut r);
                r
            },
        }
    }

    /// Decode one frame.  `Ok(None)` is an unrecognized prefix (the caller
    /// ignores the frame); an error is a recognized frame truncated before a
    /// required terminator.
    pub fn parse(src: &str) -> (r: Result<Option<Self>, ProtocolDecodeError>)
        ensures
            parse_result_view(r) == decode_message(src@),
    {
        let n = src.unicode_len();
        if n == 0 {
            return Ok(None);
        }
        let c0 = src.get_char(0);
        if c0 == '2' {
            return Ok(Some(MySocketIoMessage::Ping));
        }
        if c0 == '3' {
            return Ok(Some(MySocketIoMessage::Pong));
        }
        if n >= 2 && c0 == '4' {
            let c1 = src.get_char(1);
            if c1 == '1' {
                return Ok(Some(MySocketIoMessage::Disconnect));
            }
            if c1 == '0' {
                if n == 2 {
                    return Ok(Some(MySocketIoMessage::Connect(None)));
                }
                if src.get_char(2) == '/' {
                    return match find(src, 2, ',') {
                        Some(comma) => {
                            let nsp = src.substring_char(2, comma).to_owned();
                            Ok(Some(MySocketIoMessage::Connect(Some(nsp))))
                        },
                        None => Err(ProtocolDecodeError::MissingNamespaceTerminator),
                    };
                }
                return Ok(Some(MySocketIoMessage::Connect(None)));
            }
            if c1 == '2' {
                return match MySocketIoTextMessage::parse(src) {
                    Ok(p) => Ok(Some(MySocketIoMessage::Message(p))),
                    Err(e) => Err(e),
                };
            }
            if c1 == '3' {
                return match MySocketIoTextMessage::parse(src) {
                    Ok(p) => Ok(Some(MySocketIoMessage::Ack(p))),
                    Err(e) => Err(e),
                };
            }
        }
        Ok(None)
    }
}

/// The "40" frame shared by `Connect`, `RequestAccess` and (as its head) by
/// `GrantAccess`: "40", then the namespace and ',' when one is present.
fn encode_connect_frame(nsp: &Option<String>) -> (r: String)
    ensures
        r@ == seq!['4', '0'] + nsp_part(opt_str_view(*nsp)),
{
    proof {
        reveal_strlit("40");
        reveal_strlit(",");
    }
    let mut r = String::from_str("40");
    proof {
        assert(r@ =~= seq!['4', '0']);
    }
    if let Some(n) = nsp {
        r.append(n.as_str());
        r.append(",");
    }
    proof {
        assert(r@ =~= seq!['4', '0'] + nsp_part(opt_str_view(*nsp)));
    }
    r
}

} // verus!
