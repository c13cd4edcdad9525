//! Reading a request line back: the identifier and the method that it
//! carries.

use vstd::prelude::*;
use crate::method::lemma_method_name_letters;
use crate::method::lemma_method_round_trip;
use crate::method::method_name;
use crate::method::method_named;
use crate::method::Method;
use crate::arguments::arg_texts;
use crate::arguments::message;
use crate::arguments::Arg;
use crate::text::chars_of;
use crate::text::copy_range;
use crate::text::find;
use crate::text::first_occurrence;
use crate::text::join;
use crate::text::lemma_first_occurrence;
use crate::text::lemma_first_occurrence_at;
use crate::text::lemma_signed_decimal_chars;
use crate::text::lemma_signed_round_trip;
use crate::text::matches_at;
use crate::text::occurs_at;
use crate::text::read_signed;
use crate::text::signed_decimal;
use crate::text::signed_reading;

verus! {

/// The identifier and the method of a request line.
///
/// The line must begin with `{"id":`; the identifier is the number up to
/// the next `,"method":"`, and the method is the name from there up to the
/// next `","params":[`. A line of another form, an identifier that is no
/// 16-bit number, and a name that is no method, give nothing.
pub open spec fn request_head(line: Seq<char>) -> Option<(i16, Method)> {
    let lead = "{\"id\":"@;
    let mid = ",\"method\":\""@;
    let tail = "\",\"params\":["@;
    if !occurs_at(line, lead, 0) {
        None
    } else {
        match first_occurrence(line, mid, lead.len() as int) {
            Some(i) => match first_occurrence(line, tail, i + mid.len()) {
                Some(j) => match (
                    signed_reading(
                        line.subrange(lead.len() as int, i),
                        i16::MIN as int,
                        i16::MAX as int,
                    ),
                    method_named(line.subrange(i + mid.len(), j)),
                ) {
                    (Some(id), Some(method)) => Some((id as i16, method)),
                    _ => None,
                },
                None => None,
            },
            None => None,
        }
    }
}

/// Reads the identifier and the method of a request line.
pub fn read_request_head(line: &str) -> (head: Option<(i16, Method)>)
    ensures
        head == request_head(line@),
{
    let chars = chars_of(line);
    let lead = chars_of("{\"id\":");
    let mid = chars_of(",\"method\":\"");
    let tail = chars_of("\",\"params\":[");
    if !matches_at(chars.as_slice(), lead.as_slice(), 0) {
        return None;
    }
    proof {
        lemma_first_occurrence(chars@, mid@, lead@.len() as int);
    }
    let i = match find(chars.as_slice(), mid.as_slice(), lead.len()) {
        Some(i) => i,
        None => {
            return None;
        },
    };
    proof {
        lemma_first_occurrence(chars@, tail@, i + mid@.len());
    }
    let j = match find(chars.as_slice(), tail.as_slice(), i + mid.len()) {
        Some(j) => j,
        None => {
            return None;
        },
    };
    let number = copy_range(chars.as_slice(), lead.len(), i);
    let name = copy_range(chars.as_slice(), i + mid.len(), j);
    let id = read_signed(number.as_slice(), -32768, 32767);
    let method = Method::parse_chars(name.as_slice());
    match (id, method) {
        (Some(id), Some(method)) => Some((id as i16, method)),
        _ => None,
    }
}

/// A request line carries the identifier and the method that it was built
/// from: reading it back gives both, whatever its arguments are.
pub proof fn lemma_request_round_trip(id: i16, method: Method, args: Seq<Arg>)
    ensures
        request_head(message(id, method, args)) == Some((id, method)),
{
    let lead = "{\"id\":"@;
    let mid = ",\"method\":\""@;
    let tail = "\",\"params\":["@;
    let number = signed_decimal(id as int);
    let name = method_name(method);
    let rest = join(arg_texts(args), ", "@) + "]}\r\n"@;
    let line = message(id, method, args);
    reveal_strlit("{\"id\":");
    reveal_strlit(",\"method\":\"");
    reveal_strlit("\",\"params\":[");
    let a = lead.len() as int;
    let b = a + number.len();
    let c = b + mid.len();
    let d = c + name.len();
    assert(line =~= lead + number + mid + name + tail + rest);
    assert(line.subrange(0, a) =~= lead);
    assert(line.subrange(a, b) =~= number);
    assert(line.subrange(b, c) =~= mid);
    assert(line.subrange(c, d) =~= name);
    assert(line.subrange(d, d + tail.len()) =~= tail);
    assert forall|p: int| a <= p < b implies !occurs_at(line, mid, p) by {
        lemma_signed_decimal_chars(id as int, p - a);
        assert(line[p] == number[p - a]);
        if occurs_at(line, mid, p) {
            assert(line.subrange(p, p + mid.len())[0] == mid[0]);
        }
    }
    lemma_first_occurrence_at(line, mid, a, b);
    assert forall|p: int| c <= p < d implies !occurs_at(line, tail, p) by {
        lemma_method_name_letters(method, p - c);
        assert(line[p] == name[p - c]);
        if occurs_at(line, tail, p) {
            assert(line.subrange(p, p + tail.len())[0] == tail[0]);
        }
    }
    lemma_first_occurrence_at(line, tail, c, d);
    lemma_signed_round_trip(id as int, i16::MIN as int, i16::MAX as int);
    lemma_method_round_trip(method);
}

} // verus!
