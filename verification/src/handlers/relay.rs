//! What each proxy loop does with the next thing it reads.
//!
//! Every WebSocket endpoint copies data between a WebSocket and a byte
//! stream (a TCP socket or a child process). Each loop reads one event,
//! then forwards something, skips the event, or stops; the functions here
//! make that decision.

use vstd::prelude::*;

verus! {

/// The read buffer of the proxies between a WebSocket and a TCP socket, in bytes.
pub const SOCKET_BUFFER_SIZE: usize = 65536;

/// The read buffer of the streams that read a child process's output, in bytes.
pub const PROCESS_BUFFER_SIZE: usize = 4096;

/// The buffer into which the audio server reads (and drops) what its client sends, in bytes.
pub const DISCARD_BUFFER_SIZE: usize = 1024;

/// A WebSocket message, as both the server side and the client side carry it.
#[derive(Debug)]
pub enum WsMessage {
    Text(String),
    Binary(Vec<u8>),
    Ping(Vec<u8>),
    Pong(Vec<u8>),
    Close,
    /// A raw frame, which only a client-side connection yields.
    RawFrame,
}

/// What reading the next item of a WebSocket stream gives.
#[derive(Debug)]
pub enum WsEvent {
    /// A message arrived.
    Received(WsMessage),
    /// The stream reported an error.
    Failed,
    /// The stream has no more items.
    Ended,
}

/// What a proxy loop does after one read.
#[derive(Debug)]
pub enum Relay<T> {
    /// Write or send this, then read again.
    Forward(T),
    /// Ignore what was read and read again.
    Skip,
    /// Leave the loop.
    Stop,
}

/// WebSocket to TCP, for the VNC proxy and for websockify: binary frames are
/// written to the socket, a close frame or a failed or ended stream stops,
/// anything else is ignored.
pub open spec fn binary_to_stream_decision(ev: WsEvent) -> Relay<Vec<u8>> {
    match ev {
        WsEvent::Received(WsMessage::Binary(d)) => Relay::Forward(d),
        WsEvent::Received(WsMessage::Close) => Relay::Stop,
        WsEvent::Received(_) => Relay::Skip,
        WsEvent::Failed => Relay::Stop,
        WsEvent::Ended => Relay::Stop,
    }
}

/// Whether a push-only stream keeps reading what the browser sends.
pub open spec fn keep_draining_decision(ev: WsEvent) -> bool {
    match ev {
        WsEvent::Received(WsMessage::Close) => false,
        WsEvent::Received(_) => true,
        WsEvent::Failed => false,
        WsEvent::Ended => false,
    }
}

/// Decides one step of the WebSocket-to-TCP direction of the VNC proxy and websockify.
pub fn binary_to_stream(ev: WsEvent) -> (r: Relay<Vec<u8>>)
    ensures
        r == binary_to_stream_decision(ev),
        match ev {
            WsEvent::Received(WsMessage::Binary(d)) => r == Relay::Forward(d),
            WsEvent::Received(WsMessage::Close) => r is Stop,
            WsEvent::Received(_) => r is Skip,
            _ => r is Stop,
        },
{
    match ev {
        WsEvent::Received(WsMessage::Binary(d)) => Relay::Forward(d),
        WsEvent::Received(WsMessage::Close) => Relay::Stop,
        WsEvent::Received(_) => Relay::Skip,
        _ => Relay::Stop,
    }
}

/// WebSocket to the terminal's standard input: binary frames are written as
/// they are, text frames as their UTF-8 bytes; a close frame or a failed or
/// ended stream stops; pings and pongs are ignored.
pub fn terminal_input(ev: WsEvent) -> (r: Relay<Vec<u8>>)
    ensures
        match ev {
            WsEvent::Received(WsMessage::Binary(d)) => r == Relay::Forward(d),
            WsEvent::Received(WsMessage::Text(t)) => r matches Relay::Forward(b)
                && b@ == vstd::utf8::encode_utf8(t@),
            WsEvent::Received(WsMessage::Close) => r is Stop,
            WsEvent::Received(_) => r is Skip,
            _ => r is Stop,
        },
{
    match ev {
        WsEvent::Received(WsMessage::Binary(d)) => Relay::Forward(d),
        WsEvent::Received(WsMessage::Text(t)) => Relay::Forward(
            vstd::slice::slice_to_vec(t.as_str().as_bytes()),
        ),
        WsEvent::Received(WsMessage::Close) => Relay::Stop,
        WsEvent::Received(_) => Relay::Skip,
        _ => Relay::Stop,
    }
}

/// Whether a stream that only pushes to the browser keeps reading (and
/// discarding) what the browser sends: it stops at a close frame and when
/// the stream fails or ends.
pub fn keep_draining(ev: &WsEvent) -> (b: bool)
    ensures
        b == keep_draining_decision(*ev),
        b == (ev matches WsEvent::Received(m) && !(m is Close)),
{
    match ev {
        WsEvent::Received(WsMessage::Close) => false,
        WsEvent::Received(_) => true,
        _ => false,
    }
}

/// A read of `buf` that returned `read` (`None` for an error): a read of zero
/// bytes or an error stops, otherwise the first `n` bytes of `buf` are passed on.
pub fn chunk(buf: &[u8], read: Option<usize>) -> (r: Relay<Vec<u8>>)
    requires
        read matches Some(n) ==> n <= buf@.len(),
    ensures
        match read {
            Some(n) if n > 0 => r matches Relay::Forward(d) && d@ == buf@.subrange(0, n as int),
            _ => r is Stop,
        },
{
    match read {
        Some(n) => {
            if n == 0 {
                Relay::Stop
            } else {
                Relay::Forward(vstd::slice::slice_to_vec(vstd::slice::slice_subrange(buf, 0, n)))
            }
        },
        None => Relay::Stop,
    }
}

/// As [`chunk`], the bytes sent on as one binary WebSocket frame.
pub fn chunk_to_frame(buf: &[u8], read: Option<usize>) -> (r: Relay<WsMessage>)
    requires
        read matches Some(n) ==> n <= buf@.len(),
    ensures
        match read {
            Some(n) if n > 0 => r matches Relay::Forward(WsMessage::Binary(d))
                && d@ == buf@.subrange(0, n as int),
            _ => r is Stop,
        },
{
    match chunk(buf, read) {
        Relay::Forward(d) => Relay::Forward(WsMessage::Binary(d)),
        _ => Relay::Stop,
    }
}

/// A read from the client of the audio stream: what it sends is discarded;
/// a read of zero bytes or an error means it went away.
pub fn discard_client_read(read: Option<usize>) -> (r: Relay<Vec<u8>>)
    ensures
        match read {
            Some(n) if n > 0 => r is Skip,
            _ => r is Stop,
        },
{
    match read {
        Some(n) => if n == 0 {
            Relay::Stop
        } else {
            Relay::Skip
        },
        None => Relay::Stop,
    }
}

/// Browser to Chrome in the DevTools proxy: every message but a close frame is
/// passed on unchanged; a close frame or a failed or ended stream stops.
pub open spec fn client_to_browser_decision(ev: WsEvent) -> Relay<WsMessage> {
    match ev {
        WsEvent::Received(WsMessage::Close) => Relay::Stop,
        WsEvent::Received(m) => Relay::Forward(m),
        _ => Relay::Stop,
    }
}

/// Chrome to the browser in the DevTools proxy: text, binary, ping and pong
/// messages are passed on unchanged, raw frames are skipped; a close frame or
/// a failed or ended stream stops.
pub open spec fn browser_to_client_decision(ev: WsEvent) -> Relay<WsMessage> {
    match ev {
        WsEvent::Received(WsMessage::Close) => Relay::Stop,
        WsEvent::Received(WsMessage::RawFrame) => Relay::Skip,
        WsEvent::Received(m) => Relay::Forward(m),
        _ => Relay::Stop,
    }
}

/// Decides one step of the browser-to-Chrome direction of the DevTools proxy.
/// A connection accepted by the server never yields a raw frame.
pub fn client_to_browser(ev: WsEvent) -> (r: Relay<WsMessage>)
    requires
        !(ev matches WsEvent::Received(m) && m is RawFrame),
    ensures
        r == client_to_browser_decision(ev),
{
    match ev {
        WsEvent::Received(WsMessage::Close) => Relay::Stop,
        WsEvent::Received(m) => Relay::Forward(m),
        _ => Relay::Stop,
    }
}

/// Decides one step of the Chrome-to-browser direction of the DevTools proxy.
pub fn browser_to_client(ev: WsEvent) -> (r: Relay<WsMessage>)
    ensures
        r == browser_to_client_decision(ev),
{
    match ev {
        WsEvent::Received(WsMessage::Close) => Relay::Stop,
        WsEvent::Received(WsMessage::RawFrame) => Relay::Skip,
        WsEvent::Received(m) => Relay::Forward(m),
        _ => Relay::Stop,
    }
}

/// The DevTools proxy is transparent: a text, binary, ping or pong message is
/// passed on unchanged in either direction, and a close frame ends either direction.
pub proof fn lemma_devtools_proxy_transparent(m: WsMessage)
    ensures
        !(m is Close) && !(m is RawFrame) ==> client_to_browser_decision(WsEvent::Received(m))
            == Relay::Forward(m) && browser_to_client_decision(WsEvent::Received(m)) == Relay::Forward(m),
        m is Close ==> client_to_browser_decision(WsEvent::Received(m)) is Stop
            && browser_to_client_decision(WsEvent::Received(m)) is Stop,
{
}

/// Every proxy direction leaves its loop when the stream it reads fails or
/// ends: nothing is forwarded and nothing is skipped (which would read again
/// from a stream that has nothing more to give).
pub proof fn lemma_streams_end_loops(ev: WsEvent)
    requires
        ev is Failed || ev is Ended,
    ensures
        client_to_browser_decision(ev) is Stop,
        browser_to_client_decision(ev) is Stop,
        binary_to_stream_decision(ev) is Stop,
        !keep_draining_decision(ev),
{
}

/// The Chrome-to-browser direction stops exactly on a close frame or a failed or
/// ended stream, skips exactly raw frames, and forwards exactly the message it
/// received in every other case.
pub proof fn lemma_browser_to_client_characterised(ev: WsEvent)
    ensures
        browser_to_client_decision(ev) is Stop <==> (ev is Failed || ev is Ended || ev
            == WsEvent::Received(WsMessage::Close)),
        browser_to_client_decision(ev) is Skip <==> ev == WsEvent::Received(WsMessage::RawFrame),
        forall|m: WsMessage| browser_to_client_decision(ev) == Relay::Forward(m) ==> ev
            == WsEvent::Received(m) && !(m is Close) && !(m is RawFrame),
{
}

/// The browser-to-Chrome direction stops exactly on a close frame or a failed or
/// ended stream, never skips, and forwards exactly the message it received.
pub proof fn lemma_client_to_browser_characterised(ev: WsEvent)
    ensures
        client_to_browser_decision(ev) is Stop <==> (ev is Failed || ev is Ended || ev
            == WsEvent::Received(WsMessage::Close)),
        !(client_to_browser_decision(ev) is Skip),
        forall|m: WsMessage| client_to_browser_decision(ev) == Relay::Forward(m) ==> ev
            == WsEvent::Received(m) && !(m is Close),
{
}

/// The socket side of the VNC proxy and websockify receives exactly the payloads
/// of binary frames; it stops exactly on a close frame or a failed or ended stream.
pub proof fn lemma_binary_to_stream_characterised(ev: WsEvent)
    ensures
        binary_to_stream_decision(ev) is Stop <==> (ev is Failed || ev is Ended || ev
            == WsEvent::Received(WsMessage::Close)),
        forall|d: Vec<u8>| binary_to_stream_decision(ev) == Relay::Forward(d) <==> ev
            == WsEvent::Received(WsMessage::Binary(d)),
{
}

/// A push-only stream keeps draining exactly while messages other than a close
/// frame arrive.
pub proof fn lemma_keep_draining_characterised(ev: WsEvent)
    ensures
        keep_draining_decision(ev) <==> (ev is Received && ev != WsEvent::Received(WsMessage::Close)),
{
}

} // verus!
