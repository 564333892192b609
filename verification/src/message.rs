//! Protocol messages and their wire encoding.
//!
//! A message is validated once, at construction; a constructed message is
//! always encodable as a single datagram of single-line ASCII `key=value`
//! text, with a status text carried verbatim as its UTF-8 bytes.

use crate::Error;
use vstd::prelude::*;
use vstd::utf8::char_is_scalar;
use vstd::utf8::char_u32_cast;
use vstd::utf8::encode_scalar;
use vstd::utf8::encode_utf8;
use vstd::utf8::has_width_1_encoding;
use vstd::utf8::has_width_2_encoding;
use vstd::utf8::has_width_3_encoding;
use vstd::utf8::leading_byte_width_1;

verus! {

/// Mathematical view of a message: the three wire shapes, closed by design —
/// a fourth shape cannot appear without extending the one encoder.
pub enum MessageView {
    Ready,
    Status(Seq<char>),
    Watchdog,
}

/// A message for the supervisor: immutable once constructed, carrying no
/// identity or sequence number. `status` is the only fallible constructor;
/// validation happens there, never at send time.
#[derive(Debug)]
pub struct Message {
    inner: InnerMessage,
}

#[derive(Debug)]
enum InnerMessage {
    Ready,
    Status(String),
    Watchdog,
}

impl View for Message {
    type V = MessageView;

    closed spec fn view(&self) -> MessageView {
        match self.inner {
            InnerMessage::Ready => MessageView::Ready,
            InnerMessage::Status(text) => MessageView::Status(text@),
            InnerMessage::Watchdog => MessageView::Watchdog,
        }
    }
}

/// The wire bytes of a readiness datagram: the ASCII text `READY=1`.
pub open spec fn spec_ready_datagram() -> Seq<u8> {
    seq![82u8, 69u8, 65u8, 68u8, 89u8, 61u8, 49u8]
}

/// The wire bytes of a watchdog datagram: the ASCII text `WATCHDOG=1`.
pub open spec fn spec_watchdog_datagram() -> Seq<u8> {
    seq![87u8, 65u8, 84u8, 67u8, 72u8, 68u8, 79u8, 71u8, 61u8, 49u8]
}

/// The opening bytes of a status datagram: the ASCII text `STATUS=`.
pub open spec fn spec_status_prefix() -> Seq<u8> {
    seq![83u8, 84u8, 65u8, 84u8, 85u8, 83u8, 61u8]
}

/// The one datagram that carries a message: no length prefix, no trailing
/// newline, a status text appended verbatim as its UTF-8 bytes.
pub open spec fn spec_datagram(m: MessageView) -> Seq<u8> {
    match m {
        MessageView::Ready => spec_ready_datagram(),
        MessageView::Status(text) => spec_status_prefix() + encode_utf8(text),
        MessageView::Watchdog => spec_watchdog_datagram(),
    }
}

/// A message whose datagram stays a single line: a status text free of line
/// feeds. Every constructor establishes this.
pub open spec fn wf_view(m: MessageView) -> bool {
    match m {
        MessageView::Status(text) => !text.contains('\n'),
        _ => true,
    }
}

impl Message {
    /// Well-formedness: see [`wf_view`].
    pub open spec fn wf(&self) -> bool {
        wf_view(self@)
    }

    /// Signals that daemon startup is finished. No error path.
    pub fn ready() -> (r: Message)
        ensures
            r@ == MessageView::Ready,
            r.wf(),
    {
        Message { inner: InnerMessage::Ready }
    }

    /// Carries a single-line description of the daemon state. Rejects a text
    /// holding a line feed — which would corrupt the line-oriented framing
    /// the receiver expects — before any I/O could be attempted.
    pub fn status(status: String) -> (r: Result<Message, Error>)
        ensures
            r is Ok <==> !status@.contains('\n'),
            r matches Ok(m) ==> m@ == MessageView::Status(status@) && m.wf(),
            r matches Err(e) ==> e == Error::InvalidPayload,
    {
        let bytes: &[u8] = status.as_str().as_bytes();
        let ghost encoded: Seq<u8> = bytes@;
        let n: usize = bytes.len();
        let mut has_lf = false;
        let mut i: usize = 0;
        while i < n
            invariant
                i <= n,
                n == bytes@.len(),
                bytes@ == encoded,
                has_lf <==> exists|j: int| 0 <= j < i && encoded[j] == 10u8,
            decreases n - i,
        {
            if bytes[i] == 10u8 {
                has_lf = true;
            }
            i += 1;
        }
        proof {
            assert(has_lf <==> encoded.contains(10u8));
            lemma_utf8_line_feed(status@);
        }
        if has_lf {
            Err(Error::InvalidPayload)
        } else {
            Ok(Message { inner: InnerMessage::Status(status) })
        }
    }

    /// Signals a liveness heartbeat, refreshing the supervisor's watchdog
    /// timer. No error path.
    pub fn watchdog() -> (r: Message)
        ensures
            r@ == MessageView::Watchdog,
            r.wf(),
    {
        Message { inner: InnerMessage::Watchdog }
    }

    /// Serializes the message as the bytes of exactly one datagram.
    pub fn encode(&self) -> (r: Vec<u8>)
        ensures
            r@ == spec_datagram(self@),
    {
        match &self.inner {
            InnerMessage::Ready => {
                let mut v: Vec<u8> = Vec::new();
                v.push(82u8);
                v.push(69u8);
                v.push(65u8);
                v.push(68u8);
                v.push(89u8);
                v.push(61u8);
                v.push(49u8);
                proof {
                    assert(v@ =~= spec_ready_datagram());
                }
                v
            },
            InnerMessage::Status(text) => {
                let mut v: Vec<u8> = Vec::new();
                v.push(83u8);
                v.push(84u8);
                v.push(65u8);
                v.push(84u8);
                v.push(85u8);
                v.push(83u8);
                v.push(61u8);
                proof {
                    assert(v@ =~= spec_status_prefix());
                }
                let bytes: &[u8] = text.as_str().as_bytes();
                let n: usize = bytes.len();
                let mut i: usize = 0;
                while i < n
                    invariant
                        i <= n,
                        n == bytes@.len(),
                        bytes@ == encode_utf8(text@),
                        v@ == spec_status_prefix() + bytes@.subrange(0, i as int),
                    decreases n - i,
                {
                    v.push(bytes[i]);
                    proof {
                        assert(v@ =~= spec_status_prefix() + bytes@.subrange(0, i + 1));
                    }
                    i += 1;
                }
                proof {
                    assert(bytes@.subrange(0, n as int) =~= bytes@);
                }
                v
            },
            InnerMessage::Watchdog => {
                let mut v: Vec<u8> = Vec::new();
                v.push(87u8);
                v.push(65u8);
                v.push(84u8);
                v.push(67u8);
                v.push(72u8);
                v.push(68u8);
                v.push(79u8);
                v.push(71u8);
                v.push(61u8);
                v.push(49u8);
                proof {
                    assert(v@ =~= spec_watchdog_datagram());
                }
                v
            },
        }
    }
}

/// Membership in a concatenation is membership in either part.
proof fn lemma_add_contains(a: Seq<u8>, b: Seq<u8>, x: u8)
    ensures
        (a + b).contains(x) <==> a.contains(x) || b.contains(x),
{
    if a.contains(x) {
        let i = choose|i: int| 0 <= i < a.len() && a[i] == x;
        assert((a + b)[i] == x);
    }
    if b.contains(x) {
        let i = choose|i: int| 0 <= i < b.len() && b[i] == x;
        assert((a + b)[a.len() + i] == x);
    }
    if (a + b).contains(x) {
        let i = choose|i: int| 0 <= i < (a + b).len() && (a + b)[i] == x;
        if i < a.len() {
            assert(a[i] == x);
        } else {
            assert(b[i - a.len()] == x);
        }
    }
}

/// The UTF-8 encoding of one character holds the line-feed byte exactly when
/// the character is the line feed: in a multi-byte encoding every byte has
/// its high bit set, so no ASCII byte ever appears there.
proof fn lemma_scalar_line_feed(c: char)
    ensures
        encode_scalar(c as u32).contains(10u8) <==> c == '\n',
{
    char_is_scalar(c);
    let s = c as u32;
    char_u32_cast(c, s);
    assert('\n' as u32 == 10);
    char_u32_cast('\n', 10u32);
    let e = encode_scalar(s);
    if has_width_1_encoding(s) {
        assert((((s & 0x7F) as u8) == 10u8) <==> s == 10) by (bit_vector)
            requires
                s <= 0x7F,
        ;
        if leading_byte_width_1(s) == 10u8 {
            assert(e[0] == 10u8);
        }
        if e.contains(10u8) {
            let i = choose|i: int| 0 <= i < e.len() && e[i] == 10u8;
            assert(e[0] == leading_byte_width_1(s));
        }
    } else {
        assert((0xC0u8 | (((s >> 6) & 0x1F) as u8)) != 10u8) by (bit_vector);
        assert((0xE0u8 | (((s >> 12) & 0x0F) as u8)) != 10u8) by (bit_vector);
        assert((0xF0u8 | (((s >> 18) & 0x7) as u8)) != 10u8) by (bit_vector);
        assert((0x80u8 | ((s & 0x3F) as u8)) != 10u8) by (bit_vector);
        assert((0x80u8 | (((s >> 6) & 0x3F) as u8)) != 10u8) by (bit_vector);
        assert((0x80u8 | (((s >> 12) & 0x3F) as u8)) != 10u8) by (bit_vector);
        if e.contains(10u8) {
            let i = choose|i: int| 0 <= i < e.len() && e[i] == 10u8;
            if has_width_2_encoding(s) {
                assert(e[0] != 10u8);
                assert(e[1] != 10u8);
            } else if has_width_3_encoding(s) {
                assert(e[0] != 10u8);
                assert(e[1] != 10u8);
                assert(e[2] != 10u8);
            } else {
                assert(e[0] != 10u8);
                assert(e[1] != 10u8);
                assert(e[2] != 10u8);
                assert(e[3] != 10u8);
            }
        }
    }
}

/// Law: the UTF-8 encoding of a text holds the line-feed byte exactly when
/// the text holds the line-feed character. This is what lets the byte-wise
/// validation of `Message::status` decide a property of the characters.
pub proof fn lemma_utf8_line_feed(text: Seq<char>)
    ensures
        encode_utf8(text).contains(10u8) <==> text.contains('\n'),
    decreases text.len(),
{
    if text.len() == 0 {
    } else {
        let c = text[0];
        let rest = text.drop_first();
        lemma_scalar_line_feed(c);
        lemma_utf8_line_feed(rest);
        lemma_add_contains(encode_scalar(c as u32), encode_utf8(rest), 10u8);
        if c == '\n' {
            assert(text.contains('\n'));
        }
        if rest.contains('\n') {
            let i = choose|i: int| 0 <= i < rest.len() && rest[i] == '\n';
            assert(text[i + 1] == '\n');
        }
        if text.contains('\n') {
            let i = choose|i: int| 0 <= i < text.len() && text[i] == '\n';
            if i > 0 {
                assert(rest[i - 1] == '\n');
            }
        }
    }
}

/// Law: every well-formed message encodes to a single line — its datagram
/// never holds a line-feed byte. Validation at construction is what makes
/// every later send safe for the line-oriented receiver.
pub proof fn lemma_wf_datagram_single_line(m: MessageView)
    requires
        wf_view(m),
    ensures
        !spec_datagram(m).contains(10u8),
{
    match m {
        MessageView::Ready => {
            if spec_ready_datagram().contains(10u8) {
                let i = choose|i: int|
                    0 <= i < spec_ready_datagram().len() && spec_ready_datagram()[i] == 10u8;
            }
        },
        MessageView::Status(text) => {
            lemma_utf8_line_feed(text);
            lemma_add_contains(spec_status_prefix(), encode_utf8(text), 10u8);
            if spec_status_prefix().contains(10u8) {
                let i = choose|i: int|
                    0 <= i < spec_status_prefix().len() && spec_status_prefix()[i] == 10u8;
            }
        },
        MessageView::Watchdog => {
            if spec_watchdog_datagram().contains(10u8) {
                let i = choose|i: int|
                    0 <= i < spec_watchdog_datagram().len() && spec_watchdog_datagram()[i] == 10u8;
            }
        },
    }
}

/// Law: the datagram is a pure function of the message alone. Two sends of
/// equal messages — two `Ready` sends in particular — produce byte-for-byte
/// identical, independent datagrams: no state, no deduplication.
pub proof fn lemma_datagram_deterministic(a: MessageView, b: MessageView)
    requires
        a == b,
    ensures
        spec_datagram(a) == spec_datagram(b),
{
}

} // verus!
