use vstd::prelude::*;

use crate::HttpMode;

verus! {

/// One unit handed to a client's transport: a chunk of text bytes, or a
/// protocol-level liveness ping (meaningful on the duplex transport only).
#[derive(Debug)]
pub enum Frame {
    Text(Vec<u8>),
    Ping,
}

/// The mathematical value of a [`Frame`]: the same two shapes, with the
/// text chunk abstracted to its byte sequence.
pub enum FrameModel {
    Text(Seq<u8>),
    Ping,
}

impl View for Frame {
    type V = FrameModel;

    open spec fn view(&self) -> FrameModel {
        match self {
            Frame::Text(b) => FrameModel::Text(b@),
            Frame::Ping => FrameModel::Ping,
        }
    }
}

/// The bytes opening every push-stream chunk.
pub open spec fn data_prefix() -> Seq<u8> {
    seq![100u8, 97u8, 116u8, 97u8, 58u8, 32u8]
}

/// The bytes closing every push-stream chunk.
pub open spec fn chunk_end() -> Seq<u8> {
    seq![10u8, 10u8]
}

/// How one line is framed on the wire: push-stream mode wraps it as
/// `data: <line>\n\n`; duplex mode sends the text verbatim.
pub open spec fn framed_spec(mode: HttpMode, line: Seq<u8>) -> Seq<u8> {
    match mode {
        HttpMode::Sse => data_prefix() + line + chunk_end(),
        HttpMode::Ws => line,
    }
}

/// The probe payload sent during pruning.
pub open spec fn ping_text() -> Seq<u8> {
    seq![112u8, 105u8, 110u8, 103u8]
}

/// The payload of the greeting a fresh push-stream client is handed.
pub open spec fn connected_text() -> Seq<u8> {
    seq![99u8, 111u8, 110u8, 110u8, 101u8, 99u8, 116u8, 101u8, 100u8]
}

/// The greeting frame in full: `data: connected\n\n`.
pub open spec fn greeting_model() -> FrameModel {
    FrameModel::Text(framed_spec(HttpMode::Sse, connected_text()))
}

/// Append every byte of `src` to `dst`.
fn append_bytes(dst: &mut Vec<u8>, src: &[u8])
    ensures
        final(dst)@ == old(dst)@ + src@,
{
    let n = src.len();
    assert(old(dst)@ + src@.take(0) =~= old(dst)@);
    for i in 0..n
        invariant
            n == src@.len(),
            dst@ == old(dst)@ + src@.take(i as int),
    {
        dst.push(src[i]);
        assert(dst@ =~= old(dst)@ + src@.take(i as int + 1));
    }
    assert(old(dst)@ + src@.take(n as int) =~= old(dst)@ + src@);
}

/// Frame one produced line for the wire, per the chosen delivery mode.
pub fn frame_line(mode: HttpMode, line: &[u8]) -> (r: Vec<u8>)
    ensures
        r@ == framed_spec(mode, line@),
{
    match mode {
        HttpMode::Ws => {
            let mut v: Vec<u8> = Vec::new();
            append_bytes(&mut v, line);
            assert(v@ =~= line@);
            v
        }
        HttpMode::Sse => {
            let mut v: Vec<u8> = Vec::new();
            v.push(100u8);
            v.push(97u8);
            v.push(116u8);
            v.push(97u8);
            v.push(58u8);
            v.push(32u8);
            assert(v@ =~= data_prefix());
            append_bytes(&mut v, line);
            v.push(10u8);
            v.push(10u8);
            assert(v@ =~= data_prefix() + line@ + chunk_end());
            v
        }
    }
}

/// The probe payload `ping` as bytes.
pub fn ping_line() -> (r: Vec<u8>)
    ensures
        r@ == ping_text(),
{
    let mut v: Vec<u8> = Vec::new();
    v.push(112u8);
    v.push(105u8);
    v.push(110u8);
    v.push(103u8);
    assert(v@ =~= ping_text());
    v
}

/// The greeting payload `connected` as bytes.
pub fn connected_line() -> (r: Vec<u8>)
    ensures
        r@ == connected_text(),
{
    let mut v: Vec<u8> = Vec::new();
    v.push(99u8);
    v.push(111u8);
    v.push(110u8);
    v.push(110u8);
    v.push(101u8);
    v.push(99u8);
    v.push(116u8);
    v.push(101u8);
    v.push(100u8);
    assert(v@ =~= connected_text());
    v
}

} // verus!
