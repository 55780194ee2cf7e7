use vstd::prelude::*;
use vstd::string::StringExecFns;
use crate::digits::{dec_rep, u32_dec};

verus! {

/// The fixed small structured message of the json handler.
pub struct Message {
    pub message: String,
}

/// A backend record: a row id and its random number value.
#[derive(Clone, Copy, PartialEq, Eq, Structural, Debug)]
pub struct Record {
    pub id: u32,
    pub value: u32,
}

/// The JSON object for a message: {"message":"<text>"}.
pub open spec fn json_message_spec(m: Message) -> Seq<char> {
    "{\"message\":\""@ + m.message@ + "\"}"@
}

/// The JSON object for a record: {"id":<id>,"randomNumber":<value>}.
pub open spec fn json_record_spec(r: Record) -> Seq<char> {
    "{\"id\":"@ + dec_rep(r.id as int) + ",\"randomNumber\":"@ + dec_rep(r.value as int) + "}"@
}

/// The JSON array listing each record in order, comma separated.
pub open spec fn json_items_spec(rs: Seq<Record>) -> Seq<char>
    decreases rs.len(),
{
    if rs.len() == 0 {
        Seq::<char>::empty()
    } else if rs.len() == 1 {
        json_record_spec(rs[0])
    } else {
        json_items_spec(rs.drop_last()) + ","@ + json_record_spec(rs.last())
    }
}

/// The JSON array for a record list: [<items>].
pub open spec fn json_records_spec(rs: Seq<Record>) -> Seq<char> {
    "["@ + json_items_spec(rs) + "]"@
}

impl Message {
    /// The fixed greeting message.
    pub fn new() -> (m: Message)
        ensures
            m.message@ == "Hello, World!"@,
    {
        Message { message: String::from_str("Hello, World!") }
    }
}

/// Serialize a message to its JSON object.
pub fn json_message(m: &Message) -> (s: String)
    ensures
        s@ == json_message_spec(*m),
{
    let mut s = String::from_str("{\"message\":\"");
    s.append(m.message.as_str());
    s.append("\"}");
    proof {
        assert(s@ =~= json_message_spec(*m));
    }
    s
}

/// Serialize a record to its JSON object.
pub fn json_record(r: &Record) -> (s: String)
    ensures
        s@ == json_record_spec(*r),
{
    let mut s = String::from_str("{\"id\":");
    let id = u32_dec(r.id);
    s.append(id.as_str());
    s.append(",\"randomNumber\":");
    let v = u32_dec(r.value);
    s.append(v.as_str());
    s.append("}");
    proof {
        assert(s@ =~= json_record_spec(*r));
    }
    s
}

/// Serialize a record list to its JSON array.
pub fn json_records(rs: &Vec<Record>) -> (s: String)
    ensures
        s@ == json_records_spec(rs@),
{
    let mut s = String::from_str("[");
    let mut i: usize = 0;
    while i < rs.len()
        invariant
            i <= rs@.len(),
            s@ == "["@ + json_items_spec(rs@.take(i as int)),
        decreases rs@.len() - i,
    {
        if i > 0 {
            s.append(",");
        }
        let item = json_record(&rs[i]);
        s.append(item.as_str());
        proof {
            let t = rs@.take(i as int + 1);
            assert(t.drop_last() =~= rs@.take(i as int));
            assert(t.last() == rs@[i as int]);
            assert(s@ =~= "["@ + json_items_spec(t));
        }
        i += 1;
    }
    s.append("]");
    proof {
        assert(rs@.take(rs@.len() as int) =~= rs@);
        assert(s@ =~= json_records_spec(rs@));
    }
    s
}

/// The json handler's fixed body, written out.
pub open spec fn hello_json() -> Seq<char> {
    "{\"message\":\"Hello, World!\"}"@
}

/// Serializing the fixed greeting message yields exactly the fixed body.
pub proof fn lemma_hello_message_json(m: Message)
    requires
        m.message@ == "Hello, World!"@,
    ensures
        json_message_spec(m) == hello_json(),
{
    reveal_strlit("{\"message\":\"");
    reveal_strlit("Hello, World!");
    reveal_strlit("\"}");
    reveal_strlit("{\"message\":\"Hello, World!\"}");
    assert(json_message_spec(m) =~= hello_json());
}

} // verus!
