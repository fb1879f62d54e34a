use vstd::prelude::*;
use crate::operation::{UserOperation, op_name, lemma_op_name_plain, lemma_op_name_injective};

verus! {

/// The text of an outbound message: the operation's name and the encoded
/// result, in the object `{"op":"<name>","data":<result>}`.
pub open spec fn envelope_text(op: UserOperation, data: Seq<char>) -> Seq<char> {
    "{\"op\":\""@ + op_name(op) + "\",\"data\":"@ + data + "}"@
}

/// The operation and result that a message text holds, if it is a message.
pub open spec fn parse_envelope(s: Seq<char>) -> Option<(UserOperation, Seq<char>)> {
    if exists|op: UserOperation, data: Seq<char>| s == envelope_text(op, data) {
        let (op, data) = choose|op: UserOperation, data: Seq<char>| s == envelope_text(op, data);
        Some((op, data))
    } else {
        None
    }
}

/// Frames an encoded result as the response to an operation.
pub fn serialize_websocket_message(op: UserOperation, data: &str) -> (r: String)
    ensures
        r@ == envelope_text(op, data@),
{
    let mut out = String::from_str("{\"op\":\"");
    out.append(op.name());
    out.append("\",\"data\":");
    out.append(data);
    out.append("}");
    out
}

proof fn reveal_frame()
    ensures
        "{\"op\":\""@ == seq!['{', '"', 'o', 'p', '"', ':', '"'],
        "\",\"data\":"@ == seq!['"', ',', '"', 'd', 'a', 't', 'a', '"', ':'],
        "}"@ == seq!['}'],
{
    reveal_strlit("{\"op\":\"");
    reveal_strlit("\",\"data\":");
    reveal_strlit("}");
    assert("{\"op\":\""@ =~= seq!['{', '"', 'o', 'p', '"', ':', '"']);
    assert("\",\"data\":"@ =~= seq!['"', ',', '"', 'd', 'a', 't', 'a', '"', ':']);
    assert("}"@ =~= seq!['}']);
}

/// Where a message text splits: the name ends at the first quote after the
/// head, so a message determines its operation and its result.
proof fn lemma_envelope_parts(op: UserOperation, data: Seq<char>)
    ensures
        ({
            let s = envelope_text(op, data);
            let n = op_name(op).len() as int;
            &&& s.len() == 17 + n + data.len()
            &&& s.subrange(0, 7) == "{\"op\":\""@
            &&& s.subrange(7, 7 + n) == op_name(op)
            &&& forall|k: int| 7 <= k < 7 + n ==> s[k] != '"'
            &&& s[7 + n] == '"'
            &&& s.subrange(7 + n, 16 + n) == "\",\"data\":"@
            &&& s.subrange(16 + n, s.len() - 1) == data
            &&& s[s.len() - 1] == '}'
        }),
{
    reveal_frame();
    lemma_op_name_plain(op);
    let s = envelope_text(op, data);
    let n = op_name(op).len() as int;
    assert(s.subrange(0, 7) =~= "{\"op\":\""@);
    assert(s.subrange(7, 7 + n) =~= op_name(op));
    assert(s.subrange(7 + n, 16 + n) =~= "\",\"data\":"@);
    assert(s.subrange(16 + n, s.len() - 1) =~= data);
}

/// What a text that parses as a message looks like around its name.
proof fn lemma_parsed_shape(s: Seq<char>)
    requires
        parse_envelope(s) is Some,
    ensures
        ({
            let (op, data) = parse_envelope(s)->Some_0;
            let n = op_name(op).len() as int;
            &&& s == envelope_text(op, data)
            &&& s.len() == 17 + n + data.len()
            &&& s.subrange(0, 7) == "{\"op\":\""@
            &&& s.subrange(7, 7 + n) == op_name(op)
            &&& forall|k: int| 7 <= k < 7 + n ==> s[k] != '"'
            &&& s[7 + n] == '"'
            &&& s.subrange(7 + n, 16 + n) == "\",\"data\":"@
            &&& s.subrange(16 + n, s.len() - 1) == data
            &&& s[s.len() - 1] == '}'
        }),
{
    let (op, data) = parse_envelope(s)->Some_0;
    lemma_envelope_parts(op, data);
}

/// Reads an outbound message back: its operation and its encoded result, or
/// `None` for a text that is not such a message.
pub fn parse_websocket_message(s: &str) -> (r: Option<(UserOperation, String)>)
    ensures
        match r {
            Some((op, data)) => parse_envelope(s@) == Some((op, data@)),
            None => parse_envelope(s@) is None,
        },
{
    proof {
        reveal_frame();
    }
    let len = s.unicode_len();
    if len < 17 {
        proof {
            if parse_envelope(s@) is Some {
                lemma_parsed_shape(s@);
            }
        }
        return None;
    }
    let head = String::from_str(s.substring_char(0, 7));
    if head != String::from_str("{\"op\":\"") {
        proof {
            if parse_envelope(s@) is Some {
                lemma_parsed_shape(s@);
            }
        }
        return None;
    }
    let mut q: usize = 7;
    while q < len
        invariant_except_break
            q <= len,
        invariant
            7 <= q,
            len == s@.len(),
            forall|k: int| 7 <= k < q ==> s@[k] != '"',
        ensures
            q <= len,
            q < len ==> s@[q as int] == '"',
        decreases len - q,
    {
        if s.get_char(q) == '"' {
            break;
        }
        q += 1;
    }
    if len - q < 10 {
        proof {
            if parse_envelope(s@) is Some {
                lemma_parsed_shape(s@);
                let (op, data) = parse_envelope(s@)->Some_0;
                let n = op_name(op).len() as int;
                assert(q <= 7 + n);
            }
        }
        return None;
    }
    let name = s.substring_char(7, q);
    let op = match UserOperation::from_name(name) {
        Some(op) => op,
        None => {
            proof {
                if parse_envelope(s@) is Some {
                    lemma_parsed_shape(s@);
                    let (op, data) = parse_envelope(s@)->Some_0;
                    let n = op_name(op).len() as int;
                    assert(q == 7 + n);
                    assert(name@ == op_name(op));
                }
            }
            return None;
        },
    };
    let sep = String::from_str(s.substring_char(q, q + 9));
    if sep != String::from_str("\",\"data\":") || s.get_char(len - 1) != '}' {
        proof {
            if parse_envelope(s@) is Some {
                lemma_parsed_shape(s@);
                let (o, data) = parse_envelope(s@)->Some_0;
                let n = op_name(o).len() as int;
                assert(q == 7 + n);
            }
        }
        return None;
    }
    let data = String::from_str(s.substring_char(q + 9, len - 1));
    proof {
        let n = q as int - 7;
        assert(op_name(op) == name@);
        assert(s@ =~= envelope_text(op, data@));
        lemma_envelope_round_trip(op, data@);
    }
    Some((op, data))
}

/// Two messages with the same text carry the same operation and result.
pub proof fn lemma_envelope_unique(
    op1: UserOperation,
    data1: Seq<char>,
    op2: UserOperation,
    data2: Seq<char>,
)
    requires
        envelope_text(op1, data1) == envelope_text(op2, data2),
    ensures
        op1 == op2,
        data1 == data2,
{
    lemma_envelope_parts(op1, data1);
    lemma_envelope_parts(op2, data2);
    let s = envelope_text(op1, data1);
    let n1 = op_name(op1).len() as int;
    let n2 = op_name(op2).len() as int;
    if n1 < n2 {
        assert(s[7 + n1] == '"');
    } else if n2 < n1 {
        assert(s[7 + n2] == '"');
    }
    assert(n1 == n2);
    lemma_op_name_injective(op1, op2);
}

/// Decoding the text of a response gives back the operation it was framed
/// for and the result it carries, for every operation.
pub proof fn lemma_envelope_round_trip(op: UserOperation, data: Seq<char>)
    ensures
        parse_envelope(envelope_text(op, data)) == Some((op, data)),
{
    let s = envelope_text(op, data);
    assert(exists|o: UserOperation, d: Seq<char>| s == envelope_text(o, d));
    let (o, d) = choose|o: UserOperation, d: Seq<char>| s == envelope_text(o, d);
    lemma_envelope_unique(o, d, op, data);
}

} // verus!
