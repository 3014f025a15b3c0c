//! The message model the core moves around. The wire codec for generated
//! application messages is an external collaborator; the core itself only
//! distinguishes the peer-RPC shapes, a placeholder, and opaque application
//! payloads carried as bytes.

use crate::error::Error;
use vstd::prelude::*;

verus! {

/// Placeholder message, used where an envelope needs no payload.
#[derive(Debug, Clone)]
pub struct Dummy {}

impl Default for Dummy {
    fn default() -> (r: Self)
        ensures
            r == (Dummy {  }),
    {
        Dummy {  }
    }
}

/// One peer-RPC message: request (`RpcSend`) and response (`RpcResp`) share
/// this shape. `args` is a serialized scripted-table.
#[derive(Debug, Clone)]
pub struct RpcSend {
    pub from_host: i32,
    pub from_addr: String,
    pub to_host: i32,
    pub to_addr: String,
    pub session: u64,
    pub func: String,
    pub args: String,
}

impl Default for RpcSend {
    fn default() -> (r: Self)
        ensures
            r.from_host == 0,
            r.from_addr@ == Seq::<char>::empty(),
            r.to_host == 0,
            r.to_addr@ == Seq::<char>::empty(),
            r.session == 0,
            r.func@ == Seq::<char>::empty(),
            r.args@ == Seq::<char>::empty(),
    {
        RpcSend {
            from_host: 0,
            from_addr: String::new(),
            to_host: 0,
            to_addr: String::new(),
            session: 0,
            func: String::new(),
            args: String::new(),
        }
    }
}

/// An opaque application message: its codec-assigned tag, its name, and its
/// encoded body, carried through the core untouched.
#[derive(Debug, Clone)]
pub struct Packet {
    pub proto_id: u32,
    pub name: String,
    pub body: Vec<u8>,
}

/// Protocol id the model reserves for the placeholder.
pub const PROTO_ID_DUMMY: u32 = 0;

/// Protocol id the model reserves for peer-RPC requests.
pub const PROTO_ID_RPC_SEND: u32 = 1;

/// Protocol id the model reserves for peer-RPC responses.
pub const PROTO_ID_RPC_RESP: u32 = 2;

/// A decoded message as the hubs and writers see it.
#[derive(Debug, Clone)]
pub enum ProtoType {
    Dummy(Dummy),
    RpcSend(RpcSend),
    RpcResp(RpcResp),
    Packet(Packet),
}

/// Peer-RPC responses carry the same fields as requests.
pub type RpcResp = RpcSend;

/// The codec-assigned tag of a message.
pub open spec fn spec_proto_id(p: ProtoType) -> u32 {
    match p {
        ProtoType::Dummy(_) => PROTO_ID_DUMMY,
        ProtoType::RpcSend(_) => PROTO_ID_RPC_SEND,
        ProtoType::RpcResp(_) => PROTO_ID_RPC_RESP,
        ProtoType::Packet(q) => q.proto_id,
    }
}

/// The name of a message type.
pub open spec fn spec_proto_name(p: ProtoType) -> Seq<char> {
    match p {
        ProtoType::Dummy(_) => "Dummy"@,
        ProtoType::RpcSend(_) => "RpcSend"@,
        ProtoType::RpcResp(_) => "RpcResp"@,
        ProtoType::Packet(q) => q.name@,
    }
}

/// The dial target an outbound peer message names: only the RPC shapes carry
/// one; every other message yields the empty address.
pub open spec fn spec_to_addr(p: ProtoType) -> Seq<char> {
    match p {
        ProtoType::RpcSend(q) => q.to_addr@,
        ProtoType::RpcResp(q) => q.to_addr@,
        _ => Seq::<char>::empty(),
    }
}

impl ProtoType {
    /// The codec tag and type name of this message.
    pub fn inner_info(&self) -> (r: (u32, String))
        ensures
            r.0 == spec_proto_id(*self),
            r.1@ == spec_proto_name(*self),
    {
        match self {
            ProtoType::Dummy(_) => (PROTO_ID_DUMMY, "Dummy".to_owned()),
            ProtoType::RpcSend(_) => (PROTO_ID_RPC_SEND, "RpcSend".to_owned()),
            ProtoType::RpcResp(_) => (PROTO_ID_RPC_RESP, "RpcResp".to_owned()),
            ProtoType::Packet(q) => (q.proto_id, q.name.clone()),
        }
    }

    /// The dial target this message names, empty when it names none.
    pub fn to_addr(&self) -> (r: String)
        ensures
            r@ == spec_to_addr(*self),
    {
        match self {
            ProtoType::RpcSend(q) => q.to_addr.clone(),
            ProtoType::RpcResp(q) => q.to_addr.clone(),
            _ => String::new(),
        }
    }
}

/// A length-prefixed byte field: little-endian length, then the bytes.
pub open spec fn spec_len_field(b: Seq<u8>) -> Seq<u8> {
    vstd::bytes::spec_u32_to_le_bytes(b.len() as u32) + b
}

/// A length-prefixed UTF-8 string field.
pub open spec fn spec_str_field(s: Seq<char>) -> Seq<u8> {
    spec_len_field(vstd::utf8::encode_utf8(s))
}

/// The byte body of a peer-RPC message: both host ids and the session in
/// little-endian, each string length-prefixed.
pub open spec fn spec_rpc_body(p: RpcSend) -> Seq<u8> {
    vstd::bytes::spec_u32_to_le_bytes(p.from_host as u32) + spec_str_field(p.from_addr@)
        + vstd::bytes::spec_u32_to_le_bytes(p.to_host as u32) + spec_str_field(p.to_addr@)
        + vstd::bytes::spec_u64_to_le_bytes(p.session) + spec_str_field(p.func@) + spec_str_field(
        p.args@,
    )
}

/// Whether a peer-RPC message's string fields fit their length prefixes.
pub open spec fn spec_rpc_fits(p: RpcSend) -> bool {
    &&& vstd::utf8::encode_utf8(p.from_addr@).len() < 0x1_0000_0000
    &&& vstd::utf8::encode_utf8(p.to_addr@).len() < 0x1_0000_0000
    &&& vstd::utf8::encode_utf8(p.func@).len() < 0x1_0000_0000
    &&& vstd::utf8::encode_utf8(p.args@).len() < 0x1_0000_0000
}

/// Whether a well-formed length-prefixed string field starts at `off`:
/// the prefix fits, the bytes it counts fit, and they are valid UTF-8.
pub open spec fn spec_sfield_ok(b: Seq<u8>, off: int) -> bool {
    &&& off + 4 <= b.len()
    &&& off + 4 + vstd::bytes::spec_u32_from_le_bytes(b.subrange(off, off + 4)) <= b.len()
    &&& vstd::utf8::valid_utf8(
        b.subrange(off + 4, off + 4 + vstd::bytes::spec_u32_from_le_bytes(b.subrange(off, off + 4))),
    )
}

/// Where the field starting at `off` ends.
pub open spec fn spec_sfield_end(b: Seq<u8>, off: int) -> int {
    off + 4 + vstd::bytes::spec_u32_from_le_bytes(b.subrange(off, off + 4))
}

/// Whether a byte body is a well-formed peer-RPC message: the two host
/// ids, four string fields and the session at their places, nothing after.
pub open spec fn spec_rpc_wf(b: Seq<u8>) -> bool {
    &&& b.len() >= 4
    &&& spec_sfield_ok(b, 4)
    &&& {
        let o1 = spec_sfield_end(b, 4);
        &&& spec_sfield_ok(b, o1 + 4)
        &&& {
            let o2 = spec_sfield_end(b, o1 + 4);
            &&& o2 + 8 <= b.len()
            &&& spec_sfield_ok(b, o2 + 8)
            &&& {
                let o3 = spec_sfield_end(b, o2 + 8);
                &&& spec_sfield_ok(b, o3)
                &&& spec_sfield_end(b, o3) == b.len()
            }
        }
    }
}

/// Append one length-prefixed string field.
fn push_str_field(out: &mut Vec<u8>, s: &str)
    requires
        vstd::utf8::encode_utf8(s@).len() < 0x1_0000_0000,
    ensures
        final(out)@ == old(out)@ + spec_str_field(s@),
{
    let bytes = s.as_bytes();
    let len32 = bytes.len() as u32;
    let mut len_bytes = vstd::bytes::u32_to_le_bytes(len32);
    out.append(&mut len_bytes);
    out.extend_from_slice(bytes);
    proof {
        assert(out@ =~= old(out)@ + spec_str_field(s@));
    }
}

/// Relies on `String::from_utf8`: succeeds exactly on valid UTF-8, decoding
/// it to the characters `decode_utf8` describes.
#[verifier::external_body]
fn string_from_utf8(bytes: Vec<u8>) -> (r: Option<String>)
    ensures
        r matches Some(s) ==> vstd::utf8::valid_utf8(bytes@) && s@ == vstd::utf8::decode_utf8(
            bytes@,
        ),
        r is None ==> !vstd::utf8::valid_utf8(bytes@),
{
    String::from_utf8(bytes).ok()
}

/// Read one length-prefixed string field at `off`; on success the bytes
/// consumed are exactly the field's encoding.
fn read_str_field(body: &[u8], off: usize) -> (r: Result<(String, usize), Error>)
    requires
        off <= body@.len(),
    ensures
        r matches Ok((s, newoff)) ==> {
            &&& off + 4 <= newoff <= body@.len()
            &&& body@.subrange(off as int, newoff as int) == spec_str_field(s@)
            &&& vstd::utf8::encode_utf8(s@).len() == newoff - off - 4
            &&& vstd::utf8::encode_utf8(s@).len() < 0x1_0000_0000
            &&& spec_sfield_ok(body@, off as int)
            &&& newoff as int == spec_sfield_end(body@, off as int)
        },
        r is Err ==> !spec_sfield_ok(body@, off as int),
{
    proof {
        vstd::bytes::lemma_auto_spec_u32_to_from_le_bytes();
    }
    if body.len() - off < 4 {
        return Err(Error::message("short string field"));
    }
    let l = vstd::bytes::u32_from_le_bytes(&body[off..off + 4]) as usize;
    if l > body.len() - (off + 4) {
        return Err(Error::message("string field runs past the body"));
    }
    let piece = vstd::slice::slice_to_vec(&body[off + 4..off + 4 + l]);
    match string_from_utf8(piece) {
        None => Err(Error::message("string field is not utf-8")),
        Some(s) => {
            let newoff = off + 4 + l;
            proof {
                broadcast use vstd::utf8::decode_utf8_encode_utf8;

                let lenb = body@.subrange(off as int, off as int + 4);
                let fieldb = body@.subrange(off as int + 4, newoff as int);
                assert(vstd::utf8::encode_utf8(s@) == fieldb);
                assert(lenb == vstd::bytes::spec_u32_to_le_bytes(l as u32)) by {
                    assert(vstd::bytes::spec_u32_from_le_bytes(lenb) == l as u32);
                }
                assert(body@.subrange(off as int, newoff as int) =~= lenb + fieldb);
                assert(vstd::bytes::spec_u32_from_le_bytes(lenb) == l as u32);
                assert(vstd::utf8::valid_utf8(fieldb));
            }
            Ok((s, newoff))
        },
    }
}

/// Decode a peer-RPC message's body; anything returned re-encodes to
/// exactly the bytes given.
fn decode_rpc(body: &[u8]) -> (r: Result<RpcSend, Error>)
    ensures
        r matches Ok(q) ==> body@ == spec_rpc_body(q) && spec_rpc_fits(q),
        r is Ok <==> spec_rpc_wf(body@),
{
    proof {
        vstd::bytes::lemma_auto_spec_u32_to_from_le_bytes();
        vstd::bytes::lemma_auto_spec_u64_to_from_le_bytes();
    }
    let n = body.len();
    if n < 4 {
        return Err(Error::message("short rpc body"));
    }
    let from_host_u = vstd::bytes::u32_from_le_bytes(&body[0..4]);
    let (from_addr, o1) = read_str_field(body, 4)?;
    if n - o1 < 4 {
        return Err(Error::message("short rpc body"));
    }
    let to_host_u = vstd::bytes::u32_from_le_bytes(&body[o1..o1 + 4]);
    let (to_addr, o2) = read_str_field(body, o1 + 4)?;
    if n - o2 < 8 {
        return Err(Error::message("short rpc body"));
    }
    let session = vstd::bytes::u64_from_le_bytes(&body[o2..o2 + 8]);
    let (func, o3) = read_str_field(body, o2 + 8)?;
    let (args, o4) = read_str_field(body, o3)?;
    if o4 != n {
        return Err(Error::message("trailing bytes after rpc body"));
    }
    let q = RpcSend {
        from_host: (
        #[verifier::truncate]
        (from_host_u as i32)),
        from_addr,
        to_host: (
        #[verifier::truncate]
        (to_host_u as i32)),
        to_addr,
        session,
        func,
        args,
    };
    proof {
        let fh: i32 = q.from_host;
        let th: i32 = q.to_host;
        assert(fh as u32 == from_host_u) by (bit_vector)
            requires
                fh == from_host_u as i32,
        ;
        assert(th as u32 == to_host_u) by (bit_vector)
            requires
                th == to_host_u as i32,
        ;
        assert(body@.subrange(0, 4) == vstd::bytes::spec_u32_to_le_bytes(q.from_host as u32)) by {
            vstd::bytes::lemma_auto_spec_u32_to_from_le_bytes();
            assert(vstd::bytes::spec_u32_from_le_bytes(body@.subrange(0, 4)) == from_host_u);
            assert(vstd::bytes::spec_u32_to_le_bytes(
                vstd::bytes::spec_u32_from_le_bytes(body@.subrange(0, 4)),
            ) == body@.subrange(0, 4));
        }
        assert(body@.subrange(o1 as int, o1 as int + 4) == vstd::bytes::spec_u32_to_le_bytes(
            q.to_host as u32,
        )) by {
            vstd::bytes::lemma_auto_spec_u32_to_from_le_bytes();
            assert(vstd::bytes::spec_u32_from_le_bytes(body@.subrange(o1 as int, o1 as int + 4))
                == to_host_u);
            assert(vstd::bytes::spec_u32_to_le_bytes(
                vstd::bytes::spec_u32_from_le_bytes(body@.subrange(o1 as int, o1 as int + 4)),
            ) == body@.subrange(o1 as int, o1 as int + 4));
        }
        assert(body@.subrange(o2 as int, o2 as int + 8) == vstd::bytes::spec_u64_to_le_bytes(
            q.session,
        )) by {
            vstd::bytes::lemma_auto_spec_u64_to_from_le_bytes();
            assert(vstd::bytes::spec_u64_from_le_bytes(body@.subrange(o2 as int, o2 as int + 8))
                == session);
            assert(vstd::bytes::spec_u64_to_le_bytes(
                vstd::bytes::spec_u64_from_le_bytes(body@.subrange(o2 as int, o2 as int + 8)),
            ) == body@.subrange(o2 as int, o2 as int + 8));
        }
        assert(body@ =~= body@.subrange(0, 4) + body@.subrange(4, o1 as int) + body@.subrange(
            o1 as int,
            o1 as int + 4,
        ) + body@.subrange(o1 as int + 4, o2 as int) + body@.subrange(o2 as int, o2 as int + 8)
            + body@.subrange(o2 as int + 8, o3 as int) + body@.subrange(o3 as int, o4 as int));
    }
    Ok(q)
}

/// Encode a peer-RPC message's body.
fn encode_rpc(p: &RpcSend) -> (r: Vec<u8>)
    requires
        spec_rpc_fits(*p),
    ensures
        r@ == spec_rpc_body(*p),
{
    let mut out = vstd::bytes::u32_to_le_bytes(
        #[verifier::truncate]
        (p.from_host as u32),
    );
    push_str_field(&mut out, p.from_addr.as_str());
    let mut th = vstd::bytes::u32_to_le_bytes(
        #[verifier::truncate]
        (p.to_host as u32),
    );
    out.append(&mut th);
    push_str_field(&mut out, p.to_addr.as_str());
    let mut sess = vstd::bytes::u64_to_le_bytes(p.session);
    out.append(&mut sess);
    push_str_field(&mut out, p.func.as_str());
    push_str_field(&mut out, p.args.as_str());
    proof {
        assert(out@ =~= spec_rpc_body(*p));
    }
    out
}

/// Law: the codec round-trips. The encoding of any peer-RPC message whose
/// fields fit is well formed, so decoding it succeeds, and everything the
/// decoder accepts re-encodes to the bytes given, so the decoded fields are
/// the encoded ones.
pub proof fn lemma_rpc_encoding_wf(p: RpcSend)
    requires
        spec_rpc_fits(p),
    ensures
        spec_rpc_wf(spec_rpc_body(p)),
{
    broadcast use vstd::utf8::encode_utf8_valid_utf8;

    vstd::bytes::lemma_auto_spec_u32_to_from_le_bytes();
    vstd::bytes::lemma_auto_spec_u64_to_from_le_bytes();
    let b = spec_rpc_body(p);
    let fa = vstd::utf8::encode_utf8(p.from_addr@);
    let ta = vstd::utf8::encode_utf8(p.to_addr@);
    let fu = vstd::utf8::encode_utf8(p.func@);
    let ar = vstd::utf8::encode_utf8(p.args@);
    let o1 = 4 + 4 + fa.len() as int;
    let o2 = o1 + 4 + 4 + ta.len() as int;
    let o3 = o2 + 8 + 4 + fu.len() as int;
    assert(b.len() == o3 + 4 + ar.len());
    assert(b.subrange(4, 8) =~= vstd::bytes::spec_u32_to_le_bytes(fa.len() as u32));
    assert(b.subrange(8, o1) =~= fa);
    assert(spec_sfield_end(b, 4) == o1);
    assert(spec_sfield_ok(b, 4));
    assert(b.subrange(o1 + 4, o1 + 8) =~= vstd::bytes::spec_u32_to_le_bytes(ta.len() as u32));
    assert(b.subrange(o1 + 8, o2) =~= ta);
    assert(spec_sfield_end(b, o1 + 4) == o2);
    assert(spec_sfield_ok(b, o1 + 4));
    assert(b.subrange(o2 + 8, o2 + 12) =~= vstd::bytes::spec_u32_to_le_bytes(fu.len() as u32));
    assert(b.subrange(o2 + 12, o3) =~= fu);
    assert(spec_sfield_end(b, o2 + 8) == o3);
    assert(spec_sfield_ok(b, o2 + 8));
    assert(b.subrange(o3, o3 + 4) =~= vstd::bytes::spec_u32_to_le_bytes(ar.len() as u32));
    assert(b.subrange(o3 + 4, b.len() as int) =~= ar);
    assert(spec_sfield_end(b, o3) == b.len());
    assert(spec_sfield_ok(b, o3));
}

/// Law: the codec is injective. Two fitting peer-RPC messages with the
/// same byte body carry the same fields, so what `decode` hands back for an
/// encoded message is that message.
#[verifier::rlimit(60)]
pub proof fn lemma_rpc_body_injective(p: RpcSend, q: RpcSend)
    requires
        spec_rpc_fits(p),
        spec_rpc_fits(q),
        spec_rpc_body(p) == spec_rpc_body(q),
    ensures
        p.from_host == q.from_host,
        p.from_addr@ == q.from_addr@,
        p.to_host == q.to_host,
        p.to_addr@ == q.to_addr@,
        p.session == q.session,
        p.func@ == q.func@,
        p.args@ == q.args@,
{
    broadcast use vstd::utf8::encode_utf8_decode_utf8;

    vstd::bytes::lemma_auto_spec_u32_to_from_le_bytes();
    vstd::bytes::lemma_auto_spec_u64_to_from_le_bytes();
    let b = spec_rpc_body(p);
    let fa_p = vstd::utf8::encode_utf8(p.from_addr@);
    let ta_p = vstd::utf8::encode_utf8(p.to_addr@);
    let fu_p = vstd::utf8::encode_utf8(p.func@);
    let ar_p = vstd::utf8::encode_utf8(p.args@);
    let fa_q = vstd::utf8::encode_utf8(q.from_addr@);
    let ta_q = vstd::utf8::encode_utf8(q.to_addr@);
    let fu_q = vstd::utf8::encode_utf8(q.func@);
    let ar_q = vstd::utf8::encode_utf8(q.args@);

    assert(b.subrange(0, 4) =~= vstd::bytes::spec_u32_to_le_bytes(p.from_host as u32));
    assert(b.subrange(0, 4) =~= vstd::bytes::spec_u32_to_le_bytes(q.from_host as u32));
    assert(p.from_host as u32 == q.from_host as u32) by {
        assert(vstd::bytes::spec_u32_from_le_bytes(
            vstd::bytes::spec_u32_to_le_bytes(p.from_host as u32),
        ) == p.from_host as u32);
        assert(vstd::bytes::spec_u32_from_le_bytes(
            vstd::bytes::spec_u32_to_le_bytes(q.from_host as u32),
        ) == q.from_host as u32);
    }
    let ph: i32 = p.from_host;
    let qh: i32 = q.from_host;
    assert(ph == qh) by (bit_vector)
        requires
            ph as u32 == qh as u32,
    ;

    assert(b.subrange(4, 8) =~= vstd::bytes::spec_u32_to_le_bytes(fa_p.len() as u32));
    assert(b.subrange(4, 8) =~= vstd::bytes::spec_u32_to_le_bytes(fa_q.len() as u32));
    assert(fa_p.len() == fa_q.len()) by {
        assert(vstd::bytes::spec_u32_from_le_bytes(
            vstd::bytes::spec_u32_to_le_bytes(fa_p.len() as u32),
        ) == fa_p.len() as u32);
        assert(vstd::bytes::spec_u32_from_le_bytes(
            vstd::bytes::spec_u32_to_le_bytes(fa_q.len() as u32),
        ) == fa_q.len() as u32);
    }
    let o1 = 4 + 4 + fa_p.len() as int;
    assert(b.subrange(8, o1) =~= fa_p);
    assert(b.subrange(8, o1) =~= fa_q);
    assert(p.from_addr@ == q.from_addr@) by {
        assert(vstd::utf8::decode_utf8(fa_p) == p.from_addr@);
        assert(vstd::utf8::decode_utf8(fa_q) == q.from_addr@);
    }

    assert(b.subrange(o1, o1 + 4) =~= vstd::bytes::spec_u32_to_le_bytes(p.to_host as u32));
    assert(b.subrange(o1, o1 + 4) =~= vstd::bytes::spec_u32_to_le_bytes(q.to_host as u32));
    assert(p.to_host as u32 == q.to_host as u32) by {
        assert(vstd::bytes::spec_u32_from_le_bytes(
            vstd::bytes::spec_u32_to_le_bytes(p.to_host as u32),
        ) == p.to_host as u32);
        assert(vstd::bytes::spec_u32_from_le_bytes(
            vstd::bytes::spec_u32_to_le_bytes(q.to_host as u32),
        ) == q.to_host as u32);
    }
    let pt: i32 = p.to_host;
    let qt: i32 = q.to_host;
    assert(pt == qt) by (bit_vector)
        requires
            pt as u32 == qt as u32,
    ;

    assert(b.subrange(o1 + 4, o1 + 8) =~= vstd::bytes::spec_u32_to_le_bytes(ta_p.len() as u32));
    assert(b.subrange(o1 + 4, o1 + 8) =~= vstd::bytes::spec_u32_to_le_bytes(ta_q.len() as u32));
    assert(ta_p.len() == ta_q.len()) by {
        assert(vstd::bytes::spec_u32_from_le_bytes(
            vstd::bytes::spec_u32_to_le_bytes(ta_p.len() as u32),
        ) == ta_p.len() as u32);
        assert(vstd::bytes::spec_u32_from_le_bytes(
            vstd::bytes::spec_u32_to_le_bytes(ta_q.len() as u32),
        ) == ta_q.len() as u32);
    }
    let o2 = o1 + 4 + 4 + ta_p.len() as int;
    assert(b.subrange(o1 + 8, o2) =~= ta_p);
    assert(b.subrange(o1 + 8, o2) =~= ta_q);
    assert(p.to_addr@ == q.to_addr@) by {
        assert(vstd::utf8::decode_utf8(ta_p) == p.to_addr@);
        assert(vstd::utf8::decode_utf8(ta_q) == q.to_addr@);
    }

    assert(b.subrange(o2, o2 + 8) =~= vstd::bytes::spec_u64_to_le_bytes(p.session));
    assert(b.subrange(o2, o2 + 8) =~= vstd::bytes::spec_u64_to_le_bytes(q.session));
    assert(p.session == q.session) by {
        assert(vstd::bytes::spec_u64_from_le_bytes(vstd::bytes::spec_u64_to_le_bytes(p.session))
            == p.session);
        assert(vstd::bytes::spec_u64_from_le_bytes(vstd::bytes::spec_u64_to_le_bytes(q.session))
            == q.session);
    }

    assert(b.subrange(o2 + 8, o2 + 12) =~= vstd::bytes::spec_u32_to_le_bytes(fu_p.len() as u32));
    assert(b.subrange(o2 + 8, o2 + 12) =~= vstd::bytes::spec_u32_to_le_bytes(fu_q.len() as u32));
    assert(fu_p.len() == fu_q.len()) by {
        assert(vstd::bytes::spec_u32_from_le_bytes(
            vstd::bytes::spec_u32_to_le_bytes(fu_p.len() as u32),
        ) == fu_p.len() as u32);
        assert(vstd::bytes::spec_u32_from_le_bytes(
            vstd::bytes::spec_u32_to_le_bytes(fu_q.len() as u32),
        ) == fu_q.len() as u32);
    }
    let o3 = o2 + 8 + 4 + fu_p.len() as int;
    assert(b.subrange(o2 + 12, o3) =~= fu_p);
    assert(b.subrange(o2 + 12, o3) =~= fu_q);
    assert(p.func@ == q.func@) by {
        assert(vstd::utf8::decode_utf8(fu_p) == p.func@);
        assert(vstd::utf8::decode_utf8(fu_q) == q.func@);
    }

    assert(b.subrange(o3 + 4, b.len() as int) =~= ar_p);
    assert(b.subrange(o3 + 4, b.len() as int) =~= ar_q);
    assert(p.args@ == q.args@) by {
        assert(vstd::utf8::decode_utf8(ar_p) == p.args@);
        assert(vstd::utf8::decode_utf8(ar_q) == q.args@);
    }
}

/// The byte body the model codec produces for each message.
pub open spec fn spec_encode_body(p: ProtoType) -> Seq<u8> {
    match p {
        ProtoType::Dummy(_) => Seq::<u8>::empty(),
        ProtoType::RpcSend(q) => spec_rpc_body(q),
        ProtoType::RpcResp(q) => spec_rpc_body(q),
        ProtoType::Packet(q) => q.body@,
    }
}

/// Whether a message's variable-length fields fit the codec's prefixes.
pub open spec fn spec_proto_fits(p: ProtoType) -> bool {
    match p {
        ProtoType::RpcSend(q) => spec_rpc_fits(q),
        ProtoType::RpcResp(q) => spec_rpc_fits(q),
        _ => true,
    }
}

/// Whether one peer-RPC message's string fields fit their length prefixes.
fn rpc_fits(p: &RpcSend) -> (b: bool)
    ensures
        b == spec_rpc_fits(*p),
{
    proof {
        broadcast use vstd::slice::axiom_spec_len;
    }
    let fa = p.from_addr.as_str().as_bytes();
    let ta = p.to_addr.as_str().as_bytes();
    let fu = p.func.as_str().as_bytes();
    let ar = p.args.as_str().as_bytes();
    (fa.len() as u64) < 0x1_0000_0000 && (ta.len() as u64) < 0x1_0000_0000 && (fu.len() as u64)
        < 0x1_0000_0000 && (ar.len() as u64) < 0x1_0000_0000
}

/// Whether this message's variable-length fields fit the codec's length
/// prefixes; a host tests this before encoding and drops what does not fit.
pub fn proto_fits(pto: &ProtoType) -> (b: bool)
    ensures
        b == spec_proto_fits(*pto),
{
    match pto {
        ProtoType::RpcSend(p) => rpc_fits(p),
        ProtoType::RpcResp(p) => rpc_fits(p),
        _ => true,
    }
}

/// Encode one message to its byte body; the placeholder encodes to nothing,
/// an opaque packet to its carried bytes, the RPC shapes to their field
/// encoding.
pub fn encode(pto: ProtoType) -> (r: Result<Vec<u8>, Error>)
    requires
        spec_proto_fits(pto),
    ensures
        r matches Ok(b) && b@ == spec_encode_body(pto),
{
    match pto {
        ProtoType::Dummy(_) => Ok(Vec::new()),
        ProtoType::RpcSend(p) => Ok(encode_rpc(&p)),
        ProtoType::RpcResp(p) => Ok(encode_rpc(&p)),
        ProtoType::Packet(q) => Ok(q.body),
    }
}

/// Decode one message body against its codec tag. The placeholder accepts
/// only an empty body; the RPC tags accept exactly their field encoding, and
/// whatever comes back re-encodes to the bytes given; every other tag is an
/// opaque packet carried through as it came.
pub fn decode(proto_id: u32, body: &[u8]) -> (r: Result<ProtoType, Error>)
    ensures
        proto_id == PROTO_ID_DUMMY ==> ((r is Ok <==> body@.len() == 0) && (r matches Ok(p) ==> p
            matches ProtoType::Dummy(_))),
        proto_id == PROTO_ID_RPC_SEND ==> ((r is Ok <==> spec_rpc_wf(body@)) && (r matches Ok(p)
            ==> (p matches ProtoType::RpcSend(q) && body@ == spec_rpc_body(q) && spec_rpc_fits(
            q,
        )))),
        proto_id == PROTO_ID_RPC_RESP ==> ((r is Ok <==> spec_rpc_wf(body@)) && (r matches Ok(p)
            ==> (p matches ProtoType::RpcResp(q) && body@ == spec_rpc_body(q) && spec_rpc_fits(
            q,
        )))),
        !(proto_id == PROTO_ID_DUMMY || proto_id == PROTO_ID_RPC_SEND || proto_id
            == PROTO_ID_RPC_RESP) ==> (r matches Ok(p) && p matches ProtoType::Packet(q)
            && q.proto_id == proto_id && q.name@ == Seq::<char>::empty() && q.body@ == body@),
{
    if proto_id == PROTO_ID_DUMMY {
        if body.len() == 0 {
            Ok(ProtoType::Dummy(Dummy {  }))
        } else {
            Err(Error::message("placeholder with a body"))
        }
    } else if proto_id == PROTO_ID_RPC_SEND {
        match decode_rpc(body) {
            Ok(q) => Ok(ProtoType::RpcSend(q)),
            Err(e) => Err(e),
        }
    } else if proto_id == PROTO_ID_RPC_RESP {
        match decode_rpc(body) {
            Ok(q) => Ok(ProtoType::RpcResp(q)),
            Err(e) => Err(e),
        }
    } else {
        Ok(
            ProtoType::Packet(
                Packet {
                    proto_id,
                    name: String::new(),
                    body: vstd::slice::slice_to_vec(body),
                },
            ),
        )
    }
}

/// How one byte of a scripted-table string is written inside a quoted
/// serialized string: quote, backslash and newline get a backslash;
/// carriage return and NUL get their named escapes; all else is itself.
pub open spec fn spec_escape_byte(b: u8) -> Seq<u8> {
    if b == 34 || b == 92 || b == 10 {
        seq![92u8, b]
    } else if b == 13 {
        seq![92u8, 114u8]
    } else if b == 0 {
        seq![92u8, 48u8, 48u8, 48u8]
    } else {
        seq![b]
    }
}

/// The escaped image of a whole string, byte by byte.
pub open spec fn spec_escape_bytes(s: Seq<u8>) -> Seq<u8>
    decreases s.len(),
{
    if s.len() == 0 {
        Seq::empty()
    } else {
        spec_escape_byte(s[0]) + spec_escape_bytes(s.drop_first())
    }
}

/// Escaping one more byte appends its image.
proof fn lemma_escape_push(s: Seq<u8>, x: u8)
    ensures
        spec_escape_bytes(s.push(x)) =~= spec_escape_bytes(s) + spec_escape_byte(x),
    decreases s.len(),
{
    if s.len() == 0 {
        assert(s.push(x)[0] == x);
        assert(s.push(x).drop_first() =~= Seq::<u8>::empty());
        assert(s.push(x).drop_first() == Seq::<u8>::empty());
        assert(spec_escape_bytes(Seq::<u8>::empty()) == Seq::<u8>::empty());
        assert(spec_escape_bytes(s.push(x)) =~= spec_escape_byte(x));
    } else {
        assert(s.push(x)[0] == s[0]);
        assert(s.push(x).drop_first() =~= s.drop_first().push(x));
        assert(s.push(x).drop_first() == s.drop_first().push(x));
        lemma_escape_push(s.drop_first(), x);
        assert(spec_escape_bytes(s.push(x)) =~= spec_escape_byte(s[0]) + (spec_escape_bytes(
            s.drop_first(),
        ) + spec_escape_byte(x)));
    }
}

/// The quoted, escaped image of one scripted-table string, as the host's
/// table serializer writes it.
pub fn escape_lua_bytes(s: &[u8]) -> (r: Vec<u8>)
    ensures
        r@ == seq![34u8] + spec_escape_bytes(s@) + seq![34u8],
{
    let mut out: Vec<u8> = Vec::new();
    out.push(34);
    let mut i: usize = 0;
    while i < s.len()
        invariant
            0 <= i <= s@.len(),
            out@ =~= seq![34u8] + spec_escape_bytes(s@.take(i as int)),
        decreases s@.len() - i,
    {
        let c = s[i];
        if c == 34 || c == 92 || c == 10 {
            out.push(92);
            out.push(c);
        } else if c == 13 {
            out.push(92);
            out.push(114);
        } else if c == 0 {
            out.push(92);
            out.push(48);
            out.push(48);
            out.push(48);
        } else {
            out.push(c);
        }
        proof {
            assert(s@.take(i + 1) =~= s@.take(i as int).push(s@[i as int]));
            lemma_escape_push(s@.take(i as int), s@[i as int]);
        }
        i = i + 1;
    }
    out.push(34);
    proof {
        assert(s@.take(s@.len() as int) =~= s@);
    }
    out
}

} // verus!
