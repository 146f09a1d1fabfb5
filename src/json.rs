use vstd::prelude::*;

verus! {

/// The JSON string literal that encodes `s`: quoted, with the characters that JSON
/// requires escaped.
pub uninterp spec fn json_string_literal(s: Seq<char>) -> Seq<char>;

/// Relies on `serde_json::to_string` on a `str`: it writes the string's quoted and
/// escaped JSON literal, which depends on the characters alone. It writes into an
/// in-memory buffer, which cannot fail, so the default is never taken.
#[verifier::external_body]
fn json_string(s: &str) -> (r: String)
    ensures
        r@ == json_string_literal(s@),
{
    serde_json::to_string(s).unwrap_or_default()
}

/// The text of one member `"key":"value"` of a JSON object.
pub open spec fn member_text(m: (Seq<char>, Seq<char>)) -> Seq<char> {
    json_string_literal(m.0) + ":"@ + json_string_literal(m.1)
}

/// The members of a JSON object, in order, separated by commas.
pub open spec fn members_text(ms: Seq<(Seq<char>, Seq<char>)>) -> Seq<char>
    decreases ms.len(),
{
    if ms.len() == 0 {
        Seq::empty()
    } else if ms.len() == 1 {
        member_text(ms[0])
    } else {
        members_text(ms.drop_last()) + ","@ + member_text(ms.last())
    }
}

/// The compact JSON text of an object whose members are all strings.
pub open spec fn object_text(ms: Seq<(Seq<char>, Seq<char>)>) -> Seq<char> {
    "{"@ + members_text(ms) + "}"@
}

/// The model of a list of string pairs.
pub open spec fn pairs_view(v: Seq<(String, String)>) -> Seq<(Seq<char>, Seq<char>)> {
    v.map_values(|p: (String, String)| (p.0@, p.1@))
}

/// Writes a JSON object whose members are the given string pairs, in order, in
/// compact form (no whitespace), as a serialiser writes a struct of string fields.
pub fn string_object(members: &Vec<(String, String)>) -> (r: String)
    ensures
        r@ == object_text(pairs_view(members@)),
{
    let ghost ms = pairs_view(members@);
    let mut r = String::from_str("{");
    let mut i: usize = 0;
    while i < members.len()
        invariant
            i <= members@.len(),
            ms == pairs_view(members@),
            r@ == "{"@ + members_text(ms.take(i as int)),
        decreases members@.len() - i,
    {
        if i > 0 {
            r.append(",");
        }
        let key = json_string(members[i].0.as_str());
        let value = json_string(members[i].1.as_str());
        r.append(key.as_str());
        r.append(":");
        r.append(value.as_str());
        proof {
            let t = ms.take(i as int + 1);
            assert(t.drop_last() =~= ms.take(i as int));
            assert(t.last() == ms[i as int]);
            if i == 0 {
                assert(ms.take(0) =~= Seq::<(Seq<char>, Seq<char>)>::empty());
            }
            assert(r@ =~= "{"@ + members_text(t));
        }
        i = i + 1;
    }
    assert(ms.take(members@.len() as int) =~= ms);
    r.append("}");
    r
}

} // verus!
